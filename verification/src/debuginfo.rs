//! The names of functions and locals, for display.

use parity_wasm::elements::{FunctionNameSubsection, LocalNameSubsection, NameSection};
use std::collections::HashMap;
use vstd::prelude::*;

verus! {

broadcast use vstd::std_specs::hash::group_hash_axioms;

/// The name section of a module, as `parity_wasm` decodes it. Nothing of it
/// is seen here but through the functions below.
#[verifier::external_type_specification]
#[verifier::external_body]
pub struct ExNameSection(parity_wasm::elements::NameSection);

/// The function names of a name section.
#[verifier::external_type_specification]
#[verifier::external_body]
pub struct ExFunctionNameSubsection(parity_wasm::elements::FunctionNameSubsection);

/// The local names of a name section.
#[verifier::external_type_specification]
#[verifier::external_body]
pub struct ExLocalNameSubsection(parity_wasm::elements::LocalNameSubsection);

/// The function names that `NameSection::functions` finds in a name section.
pub uninterp spec fn functions_of(section: NameSection) -> Option<FunctionNameSubsection>;

/// The local names that `NameSection::locals` finds in a name section.
pub uninterp spec fn locals_of(section: NameSection) -> Option<LocalNameSubsection>;

/// What the map of `FunctionNameSubsection::names` holds, in the order in
/// which it is walked: indices and names.
pub uninterp spec fn function_name_entries(names: FunctionNameSubsection) -> Seq<(u32, String)>;

/// What the map of `LocalNameSubsection::local_names` holds, in the order in
/// which it is walked: function indices, each with the indices and names of
/// the function's locals.
pub uninterp spec fn local_name_entries(names: LocalNameSubsection) -> Seq<
    (u32, Seq<(u32, String)>),
>;

/// `NameSection::functions`: the contract gives what it finds a name, and
/// claims nothing more of it.
pub assume_specification[ parity_wasm::elements::NameSection::functions ](
    section: &NameSection,
) -> (functions: Option<&FunctionNameSubsection>)
    ensures
        match functions {
            Some(found) => functions_of(*section) == Some(*found),
            None => functions_of(*section) is None,
        },
;

/// `NameSection::locals`: the contract gives what it finds a name, and
/// claims nothing more of it.
pub assume_specification[ parity_wasm::elements::NameSection::locals ](
    section: &NameSection,
) -> (locals: Option<&LocalNameSubsection>)
    ensures
        match locals {
            Some(found) => locals_of(*section) == Some(*found),
            None => locals_of(*section) is None,
        },
;

/// Walks the map of `FunctionNameSubsection::names` with `IndexMap::iter`
/// and hands out a copy of each entry. The contract gives the entries a
/// name, and claims nothing more of them.
#[verifier::external_body]
fn collect_function_names(names: &FunctionNameSubsection) -> (entries: Vec<(u32, String)>)
    ensures
        entries@ == function_name_entries(*names),
{
    names.names().iter().map(|(index, name)| (index, name.clone())).collect()
}

/// Walks the map of `LocalNameSubsection::local_names` with `IndexMap::iter`,
/// and the map of each function in it, and hands out a copy of each entry.
/// The contract gives the entries a name, and claims nothing more of them.
#[verifier::external_body]
fn collect_local_names(names: &LocalNameSubsection) -> (entries: Vec<(u32, Vec<(u32, String)>)>)
    ensures
        local_entries(entries@) == local_name_entries(*names),
{
    names.local_names().iter().map(
        |(func_index, locals)|
            (func_index, locals.iter().map(|(index, name)| (index, name.clone())).collect()),
    ).collect()
}

/// Lists of local names, as sequences.
pub open spec fn local_entries(entries: Seq<(u32, Vec<(u32, String)>)>) -> Seq<
    (u32, Seq<(u32, String)>),
> {
    entries.map_values(|entry: (u32, Vec<(u32, String)>)| (entry.0, entry.1@))
}

/// The map that a list of names gives: each index has the name that stands
/// last for it in the list.
pub open spec fn name_map(entries: Seq<(u32, String)>) -> Map<u32, String>
    decreases entries.len(),
{
    if entries.len() == 0 {
        Map::empty()
    } else {
        let (index, name) = entries.last();
        name_map(entries.drop_last()).insert(index, name)
    }
}

/// The maps that a list of lists of local names gives: each function has the
/// map of the list that stands last for it.
pub open spec fn local_map(entries: Seq<(u32, Seq<(u32, String)>)>) -> Map<u32, Map<u32, String>>
    decreases entries.len(),
{
    if entries.len() == 0 {
        Map::empty()
    } else {
        let (func_index, names) = entries.last();
        local_map(entries.drop_last()).insert(func_index, name_map(names))
    }
}

/// The function names of a name section, with their indices; none where
/// there is no section or the section has no function names.
pub open spec fn section_function_names(section: Option<NameSection>) -> Seq<(u32, String)> {
    match section {
        Some(section) => match functions_of(section) {
            Some(names) => function_name_entries(names),
            None => Seq::empty(),
        },
        None => Seq::empty(),
    }
}

/// The local names of a name section, by function; none where there is no
/// section or the section has no local names.
pub open spec fn section_local_names(section: Option<NameSection>) -> Seq<
    (u32, Seq<(u32, String)>),
> {
    match section {
        Some(section) => match locals_of(section) {
            Some(names) => local_name_entries(names),
            None => Seq::empty(),
        },
        None => Seq::empty(),
    }
}

/// The names of the functions of a module, by function index, and of their
/// locals, by function index and local index. A function or a local without
/// a name is not in the maps.
pub struct DebugInfo {
    function_name_map: HashMap<u32, String>,
    local_name_map: HashMap<u32, HashMap<u32, String>>,
}

fn build_name_map(entries: &Vec<(u32, String)>) -> (map: HashMap<u32, String>)
    ensures
        map@ == name_map(entries@),
{
    let mut map: HashMap<u32, String> = HashMap::new();
    let mut i: usize = 0;
    while i < entries.len()
        invariant
            i <= entries@.len(),
            map@ == name_map(entries@.take(i as int)),
        decreases entries@.len() - i,
    {
        let index = entries[i].0;
        let name = entries[i].1.clone();
        map.insert(index, name);
        proof {
            assert(entries@.take(i + 1).drop_last() =~= entries@.take(i as int));
        }
        i = i + 1;
    }
    assert(entries@.take(i as int) =~= entries@);
    map
}

impl DebugInfo {
    /// The names of the functions.
    pub closed spec fn function_names(&self) -> Map<u32, String> {
        self.function_name_map@
    }

    /// The names of the locals of each function.
    pub closed spec fn local_names(&self) -> Map<u32, Map<u32, String>> {
        self.local_name_map@.map_values(|names: HashMap<u32, String>| names@)
    }

    /// The debug info of a module with this name section: it holds the
    /// function names and the local names of the section, and nothing where
    /// there is no section.
    pub fn new(section: Option<&NameSection>) -> (info: DebugInfo)
        ensures
            info.function_names() == name_map(
                section_function_names(
                    match section {
                        Some(section) => Some(*section),
                        None => None,
                    },
                ),
            ),
            info.local_names() == local_map(
                section_local_names(
                    match section {
                        Some(section) => Some(*section),
                        None => None,
                    },
                ),
            ),
    {
        let mut function_names: Vec<(u32, String)> = Vec::new();
        let mut local_names: Vec<(u32, Vec<(u32, String)>)> = Vec::new();
        if let Some(name_section) = section {
            if let Some(function_name_section) = name_section.functions() {
                function_names = collect_function_names(function_name_section);
            }
            if let Some(local_name_section) = name_section.locals() {
                local_names = collect_local_names(local_name_section);
            }
        }
        DebugInfo::from_names(&function_names, &local_names)
    }

    /// The debug info that holds the names given: the function names, and
    /// for each function the names of its locals.
    pub fn from_names(
        function_names: &Vec<(u32, String)>,
        local_names: &Vec<(u32, Vec<(u32, String)>)>,
    ) -> (info: DebugInfo)
        ensures
            info.function_names() == name_map(function_names@),
            info.local_names() == local_map(local_entries(local_names@)),
    {
        let function_name_map = build_name_map(function_names);
        let mut local_name_map: HashMap<u32, HashMap<u32, String>> = HashMap::new();
        let mut i: usize = 0;
        while i < local_names.len()
            invariant
                i <= local_names@.len(),
                local_name_map@.map_values(|names: HashMap<u32, String>| names@) == local_map(
                    local_entries(local_names@.take(i as int)),
                ),
            decreases local_names@.len() - i,
        {
            let func_index = local_names[i].0;
            let names = build_name_map(&local_names[i].1);
            local_name_map.insert(func_index, names);
            assert(local_entries(local_names@.take(i + 1)).drop_last() =~= local_entries(
                local_names@.take(i as int),
            ));
            i = i + 1;
        }
        assert(local_names@.take(i as int) =~= local_names@);
        DebugInfo { function_name_map, local_name_map }
    }

    /// The names of the functions, by function index.
    pub fn function_name_map(&self) -> (map: &HashMap<u32, String>)
        ensures
            map@ == self.function_names(),
    {
        &self.function_name_map
    }

    /// The names of the locals, by function index and local index.
    pub fn local_name_map(&self) -> (map: &HashMap<u32, HashMap<u32, String>>)
        ensures
            map@.map_values(|names: HashMap<u32, String>| names@) == self.local_names(),
    {
        &self.local_name_map
    }

    /// The name of a function, if it has one.
    pub fn function_name(&self, func_index: u32) -> (name: Option<&String>)
        ensures
            name is Some <==> self.function_names().contains_key(func_index),
            name matches Some(n) ==> *n == self.function_names()[func_index],
    {
        self.function_name_map.get(&func_index)
    }

    /// The name of a local of a function, if it has one.
    pub fn local_name(&self, func_index: u32, local_index: u32) -> (name: Option<&String>)
        ensures
            name is Some <==> self.local_names().contains_key(func_index)
                && self.local_names()[func_index].contains_key(local_index),
            name matches Some(n) ==> *n == self.local_names()[func_index][local_index],
    {
        match self.local_name_map.get(&func_index) {
            Some(names) => names.get(&local_index),
            None => None,
        }
    }
}

} // verus!
