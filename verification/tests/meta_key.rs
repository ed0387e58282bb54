use toolbelt::meta_key::{validate_mcp_meta_key, validate_meta_label, validate_meta_name, validate_meta_prefix};

fn refused(key: &str) -> String {
    validate_mcp_meta_key(key).err().unwrap()
}

#[test]
fn keys_that_follow_the_format_are_valid() {
    for key in [
        "a",
        "traceparent",
        "a-b_c.d",
        "9",
        "com.example/x",
        "com.example/",
        "a/b",
        "io.modelcontextprotocol/related-task",
        "a1-b.c/9",
    ] {
        assert!(validate_mcp_meta_key(key).is_ok(), "refused: {key}");
    }
}

#[test]
fn each_fault_of_a_key_is_named() {
    assert_eq!(refused(""), "empty key");
    assert_eq!(refused("/x"), "prefix before '/' is empty");
    assert_eq!(refused("a..b/x"), "empty prefix label");
    assert_eq!(refused("a./x"), "empty prefix label");
    assert_eq!(refused("1a/x"), "prefix label '1a' must start with a letter");
    assert_eq!(refused("a.b-/x"), "prefix label 'b-' must end with a letter or digit");
    assert_eq!(refused("a_b/x"), "prefix label 'a_b' has invalid interior character");
    assert_eq!(refused("a/b/c"), "prefix label 'a/b' has invalid interior character");
    assert_eq!(refused("-x"), "name '-x' must begin with an alphanumeric character");
    assert_eq!(refused("x-"), "name 'x-' must end with an alphanumeric character");
    assert_eq!(refused("a b"), "name 'a b' has invalid interior character");
    assert_eq!(refused("com.example/x y"), "name 'x y' has invalid interior character");
    assert_eq!(refused("é"), "name 'é' must begin with an alphanumeric character");
    assert_eq!(refused("aé"), "name 'aé' must end with an alphanumeric character");
}

#[test]
fn parts_of_a_key_are_judged_alone() {
    assert!(validate_meta_label("a").is_ok());
    assert!(validate_meta_label("a-9").is_ok());
    assert_eq!(validate_meta_label("").err().unwrap(), "empty prefix label");
    assert!(validate_meta_name("").is_ok());
    assert!(validate_meta_name("a.b").is_ok());
    assert!(validate_meta_prefix("a.b.c").is_ok());
    assert_eq!(validate_meta_prefix("").err().unwrap(), "prefix before '/' is empty");
    assert_eq!(validate_meta_prefix("a.9").err().unwrap(), "prefix label '9' must start with a letter");
}
