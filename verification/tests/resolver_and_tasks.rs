use go_codegen::imports::{GoImports, gather_imports_type, import_list};
use go_codegen::schema::{AlgebraicTypeUse, ModuleDef, PrimitiveType};
use go_codegen::tasks::{go_build_args, is_go_file};

fn empty_module() -> ModuleDef {
    ModuleDef { typespace: vec![], tables: vec![], reducers: vec![], procedures: vec![] }
}

#[test]
fn import_set_is_sorted_and_duplicate_free() {
    // A result carrying a timestamp on one side and wide integers on both
    // sides requires each import once, in ascending order.
    let ty = AlgebraicTypeUse::ResultOf(
        Box::new(AlgebraicTypeUse::ResultOf(
            Box::new(AlgebraicTypeUse::Timestamp),
            Box::new(AlgebraicTypeUse::Primitive(PrimitiveType::U256)),
        )),
        Box::new(AlgebraicTypeUse::Primitive(PrimitiveType::I128)),
    );
    let module = empty_module();
    let needs = gather_imports_type(&module, &ty);
    assert_eq!(needs, GoImports { time: true, big: true });
    let list = import_list(&needs);
    assert_eq!(list, vec!["math/big".to_string(), "time".to_string()]);
    let mut sorted = list.clone();
    sorted.sort();
    sorted.dedup();
    assert_eq!(list, sorted);
}

#[test]
fn plain_shapes_need_no_imports() {
    let module = empty_module();
    let ty = AlgebraicTypeUse::ArrayOf(Box::new(AlgebraicTypeUse::Str));
    let needs = gather_imports_type(&module, &ty);
    assert_eq!(needs, GoImports { time: false, big: false });
    assert!(import_list(&needs).is_empty());
}

#[test]
fn duration_alone_needs_time() {
    let module = empty_module();
    let needs = gather_imports_type(&module, &AlgebraicTypeUse::OptionOf(Box::new(
        AlgebraicTypeUse::TimeDuration,
    )));
    assert_eq!(needs, GoImports { time: true, big: false });
    assert_eq!(import_list(&needs), vec!["time".to_string()]);
}

#[test]
fn release_build_args_trim_paths() {
    let args = go_build_args(false, "build/module.wasm");
    assert_eq!(args, vec!["build", "-trimpath", "-o", "build/module.wasm", "."]);
}

#[test]
fn debug_build_args_skip_trimming() {
    let args = go_build_args(true, "build/module.wasm");
    assert_eq!(args, vec!["build", "-o", "build/module.wasm", "."]);
}

#[test]
fn go_file_filter_checks_extension() {
    assert!(is_go_file("client.go"));
    assert!(is_go_file("a.b.go"));
    assert!(!is_go_file(".go"));
    assert!(!is_go_file("client.rs"));
    assert!(!is_go_file("go"));
    assert!(!is_go_file(""));
    assert!(!is_go_file("client.GO"));
}
