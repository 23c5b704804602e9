use go_codegen::ident::{
    go_exported_field_name, is_go_keyword, procedure_method_name, reducer_method_name,
    table_type_name,
};

#[test]
fn field_names_are_pascal_cased() {
    assert_eq!(go_exported_field_name("hello_world", 0), "HelloWorld");
    assert_eq!(go_exported_field_name("id", 3), "Id");
    assert_eq!(go_exported_field_name("created-at", 1), "CreatedAt");
}

#[test]
fn empty_field_name_gets_positional_placeholder() {
    assert_eq!(go_exported_field_name("", 0), "Field0");
    assert_eq!(go_exported_field_name("", 12), "Field12");
}

#[test]
fn keyword_field_name_gets_suffix() {
    assert_eq!(go_exported_field_name("type", 0), "Type_");
    assert_eq!(go_exported_field_name("func", 5), "Func_");
    assert_eq!(go_exported_field_name("range", 2), "Range_");
}

#[test]
fn sanitized_names_are_valid_identifiers() {
    let nasty = ["", "type", "123abc", "_hidden", "9", "select", "import", "\u{1F600}"];
    for (index, name) in nasty.iter().enumerate() {
        let out = go_exported_field_name(name, index);
        assert!(!out.is_empty());
        let first = out.chars().next().unwrap();
        assert!(first.is_ascii_alphabetic());
        assert!(!is_go_keyword(&out));
    }
}

#[test]
fn keyword_check_matches_exported_spellings() {
    assert!(is_go_keyword("Break"));
    assert!(is_go_keyword("Map"));
    assert!(is_go_keyword("Var"));
    assert!(!is_go_keyword("break"));
    assert!(!is_go_keyword("Breaks"));
    assert!(!is_go_keyword(""));
    assert!(!is_go_keyword("User"));
}

#[test]
fn entity_names_derive_from_accessor_names() {
    assert_eq!(table_type_name("user"), "UserTable");
    assert_eq!(table_type_name("user_profile"), "UserProfileTable");
    assert_eq!(reducer_method_name("create_user"), "CallCreateUser");
    assert_eq!(procedure_method_name("fetch-user"), "CallFetchUser");
}
