use parity_wasm::elements::{
    FunctionNameSubsection, IndexMap, LocalNameSubsection, NameSection,
};
use wasmdbg::DebugInfo;

#[test]
fn names_are_found_by_index() {
    let info = DebugInfo::from_names(
        &vec![(0, String::from("main")), (3, String::from("helper"))],
        &vec![
            (0, vec![(0, String::from("argc")), (1, String::from("argv"))]),
            (3, vec![(2, String::from("tmp"))]),
        ],
    );
    assert_eq!(info.function_name(0), Some(&String::from("main")));
    assert_eq!(info.function_name(3), Some(&String::from("helper")));
    assert_eq!(info.function_name(1), None);
    assert_eq!(info.local_name(0, 1), Some(&String::from("argv")));
    assert_eq!(info.local_name(3, 2), Some(&String::from("tmp")));
    assert_eq!(info.local_name(3, 0), None);
    assert_eq!(info.local_name(1, 0), None);
    assert_eq!(info.function_name_map().len(), 2);
    assert_eq!(info.local_name_map().len(), 2);
    assert_eq!(info.local_name_map()[&0].len(), 2);
}

#[test]
fn the_last_name_for_an_index_stands() {
    let info = DebugInfo::from_names(
        &vec![(1, String::from("old")), (1, String::from("new"))],
        &vec![
            (1, vec![(0, String::from("a")), (1, String::from("b"))]),
            (1, vec![(0, String::from("c")), (0, String::from("d"))]),
        ],
    );
    assert_eq!(info.function_name(1), Some(&String::from("new")));
    assert_eq!(info.local_name(1, 0), Some(&String::from("d")));
    assert_eq!(info.local_name(1, 1), None);
}

#[test]
fn no_names_is_no_error() {
    let info = DebugInfo::from_names(&vec![], &vec![]);
    assert_eq!(info.function_name(0), None);
    assert_eq!(info.local_name(0, 0), None);
    assert!(info.function_name_map().is_empty());
    assert!(info.local_name_map().is_empty());
}

fn function_names(entries: &[(u32, &str)]) -> FunctionNameSubsection {
    let mut section = FunctionNameSubsection::default();
    for (index, name) in entries {
        section.names_mut().insert(*index, String::from(*name));
    }
    section
}

fn local_names(entries: &[(u32, &[(u32, &str)])]) -> LocalNameSubsection {
    let mut section = LocalNameSubsection::default();
    for (func_index, locals) in entries {
        let mut names = IndexMap::with_capacity(locals.len());
        for (index, name) in locals.iter() {
            names.insert(*index, String::from(*name));
        }
        section.local_names_mut().insert(*func_index, names);
    }
    section
}

#[test]
fn names_of_a_name_section() {
    let section = NameSection::new(
        None,
        Some(function_names(&[(3, "helper"), (0, "main")])),
        Some(local_names(&[(3, &[(2, "tmp")]), (0, &[(1, "argv"), (0, "argc")])])),
    );
    let info = DebugInfo::new(Some(&section));
    assert_eq!(info.function_name(0), Some(&String::from("main")));
    assert_eq!(info.function_name(3), Some(&String::from("helper")));
    assert_eq!(info.function_name(1), None);
    assert_eq!(info.function_name(2), None);
    assert_eq!(info.function_name_map().len(), 2);
    assert_eq!(info.local_name(0, 0), Some(&String::from("argc")));
    assert_eq!(info.local_name(0, 1), Some(&String::from("argv")));
    assert_eq!(info.local_name(3, 2), Some(&String::from("tmp")));
    assert_eq!(info.local_name(3, 0), None);
    assert_eq!(info.local_name(1, 0), None);
    assert_eq!(info.local_name_map().len(), 2);
}

#[test]
fn name_section_without_names() {
    let only_functions = NameSection::new(None, Some(function_names(&[(1, "f")])), None);
    let info = DebugInfo::new(Some(&only_functions));
    assert_eq!(info.function_name(1), Some(&String::from("f")));
    assert!(info.local_name_map().is_empty());
    let only_locals = NameSection::new(None, None, Some(local_names(&[(1, &[(0, "x")])])));
    let info = DebugInfo::new(Some(&only_locals));
    assert!(info.function_name_map().is_empty());
    assert_eq!(info.local_name(1, 0), Some(&String::from("x")));
    let empty = NameSection::new(None, None, None);
    let info = DebugInfo::new(Some(&empty));
    assert!(info.function_name_map().is_empty());
    assert!(info.local_name_map().is_empty());
}

#[test]
fn no_name_section_gives_no_names() {
    let info = DebugInfo::new(None);
    assert_eq!(info.function_name(0), None);
    assert_eq!(info.local_name(0, 0), None);
    assert!(info.function_name_map().is_empty());
    assert!(info.local_name_map().is_empty());
}
