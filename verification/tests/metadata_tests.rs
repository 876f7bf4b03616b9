use neovim::metadata::{GetMetadataError, Metadata, ReadFailure};
use neovim::value::{Pair, Value};

fn text(s: &str) -> Value {
    Value::Text(s.to_string())
}

fn dict(entries: Vec<(&str, Value)>) -> Value {
    Value::Dict(
        entries
            .into_iter()
            .map(|(k, v)| Pair { key: text(k), val: v })
            .collect(),
    )
}

fn full_types(buffer: Value, window: Value, tabpage: Value) -> Value {
    dict(vec![(
        "types",
        dict(vec![
            ("Buffer", buffer),
            ("Window", window),
            ("Tabpage", tabpage),
        ]),
    )])
}

#[test]
fn metadata_resolves_three_ids() {
    let info = full_types(
        dict(vec![("id", Value::Int(0))]),
        dict(vec![("id", Value::Int(1))]),
        dict(vec![("id", Value::Int(2))]),
    );
    let md = Metadata::new(&info).unwrap();
    assert_eq!(
        md,
        Metadata {
            buffer_id: 0,
            window_id: 1,
            tabpage_id: 2
        }
    );
}

#[test]
fn metadata_missing_window_reported_first() {
    let info = dict(vec![(
        "types",
        dict(vec![("Buffer", dict(vec![("id", Value::Int(0))]))]),
    )]);
    match Metadata::new(&info) {
        Err(GetMetadataError::Missing(name)) => assert_eq!(name, "Window"),
        other => panic!("expected Missing(\"Window\"), got {:?}", other),
    }
}

#[test]
fn metadata_no_type_information() {
    let info = dict(vec![("not_types", dict(vec![]))]);
    match Metadata::new(&info) {
        Err(GetMetadataError::NoTypeInformation) => {}
        other => panic!("expected NoTypeInformation, got {:?}", other),
    }
}

#[test]
fn metadata_scalar_is_not_a_map() {
    match Metadata::new(&Value::Int(42)) {
        Err(GetMetadataError::NotAMap) => {}
        other => panic!("expected NotAMap, got {:?}", other),
    }
}

#[test]
fn metadata_text_id_is_invalid() {
    let info = dict(vec![(
        "types",
        dict(vec![("Buffer", dict(vec![("id", text("zero"))]))]),
    )]);
    match Metadata::new(&info) {
        Err(GetMetadataError::Invalid(name)) => assert_eq!(name, "Buffer"),
        other => panic!("expected Invalid(\"Buffer\"), got {:?}", other),
    }
}

#[test]
fn metadata_accepts_unsigned_ids() {
    let info = full_types(
        dict(vec![("id", Value::Uint(7))]),
        dict(vec![("id", Value::Uint(8))]),
        dict(vec![("id", Value::Uint(9))]),
    );
    let md = Metadata::new(&info).unwrap();
    assert_eq!(md.buffer_id, 7);
    assert_eq!(md.window_id, 8);
    assert_eq!(md.tabpage_id, 9);
}

#[test]
fn metadata_oversized_unsigned_id_is_invalid() {
    let info = full_types(
        dict(vec![("id", Value::Uint(u64::MAX))]),
        dict(vec![("id", Value::Int(1))]),
        dict(vec![("id", Value::Int(2))]),
    );
    match Metadata::new(&info) {
        Err(GetMetadataError::Invalid(name)) => assert_eq!(name, "Buffer"),
        other => panic!("expected Invalid(\"Buffer\"), got {:?}", other),
    }
}

#[test]
fn metadata_non_map_type_entry_is_missing() {
    let info = dict(vec![(
        "types",
        dict(vec![
            ("Buffer", Value::Int(5)),
            ("Window", dict(vec![("id", Value::Int(1))])),
            ("Tabpage", dict(vec![("id", Value::Int(2))])),
        ]),
    )]);
    match Metadata::new(&info) {
        Err(GetMetadataError::Missing(name)) => assert_eq!(name, "Buffer"),
        other => panic!("expected Missing(\"Buffer\"), got {:?}", other),
    }
}

#[test]
fn metadata_entry_without_id_is_invalid() {
    let info = full_types(
        dict(vec![("other", Value::Int(5))]),
        dict(vec![("id", Value::Int(1))]),
        dict(vec![("id", Value::Int(2))]),
    );
    match Metadata::new(&info) {
        Err(GetMetadataError::Invalid(name)) => assert_eq!(name, "Buffer"),
        other => panic!("expected Invalid(\"Buffer\"), got {:?}", other),
    }
}

#[test]
fn metadata_error_descriptions() {
    assert_eq!(GetMetadataError::NotAMap.description(), "not a map");
    assert_eq!(
        GetMetadataError::NoTypeInformation.description(),
        "no type information"
    );
    assert_eq!(
        GetMetadataError::Invalid("Buffer".to_string()).description(),
        "invalid id"
    );
    assert_eq!(
        GetMetadataError::Missing("Window".to_string()).description(),
        "missing id"
    );
    assert_eq!(
        GetMetadataError::ReadError(ReadFailure::NoData).description(),
        "read error"
    );
}

#[test]
fn metadata_error_from_read_failure() {
    let e = GetMetadataError::from(ReadFailure::Unrecognized(0));
    match e {
        GetMetadataError::ReadError(ReadFailure::Unrecognized(0)) => {}
        other => panic!("expected ReadError, got {:?}", other),
    }
}
