use rustecal_messaging::types::DataTypeInfo;

fn info(name: &str, encoding: &str, descriptor: &[u8]) -> DataTypeInfo {
    DataTypeInfo {
        name: name.to_string(),
        encoding: encoding.to_string(),
        descriptor: descriptor.to_vec(),
    }
}

#[test]
fn equal_fields_make_equal_metadata() {
    assert_eq!(info("string", "utf-8", &[]), info("string", "utf-8", &[]));
    assert_eq!(info("Person", "proto", &[10, 6, 80]), info("Person", "proto", &[10, 6, 80]));
}

#[test]
fn each_field_counts_for_equality() {
    let base = info("Person", "proto", &[1, 2, 3]);
    assert_ne!(base, info("Animal", "proto", &[1, 2, 3]));
    assert_ne!(base, info("Person", "cdr", &[1, 2, 3]));
    assert_ne!(base, info("Person", "proto", &[1, 2, 4]));
    assert_ne!(base, info("Person", "proto", &[1, 2]));
    assert_ne!(base, info("Person", "proto", &[1, 2, 3, 0]));
    assert_ne!(base, info("proto", "Person", &[1, 2, 3]));
}

#[test]
fn clone_keeps_every_field() {
    let first = info("Person", "proto", &[9, 8, 7]);
    let copy = first.clone();
    assert_eq!(copy, first);
    assert_eq!(copy.name, "Person");
    assert_eq!(copy.encoding, "proto");
    assert_eq!(copy.descriptor, vec![9, 8, 7]);
}

#[test]
fn debug_output_shows_the_fields() {
    let text = format!("{:?}", info("string", "utf-8", &[]));
    assert!(text.contains("string"));
    assert!(text.contains("utf-8"));
}
