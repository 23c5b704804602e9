use go_codegen::generate::Go;
use go_codegen::schema::{
    AlgebraicTypeDef, AlgebraicTypeUse, ModuleDef, PlainEnumTypeDef, ProcedureDef, ProductTypeDef,
    ReducerDef, SumTypeDef, TableDef, TypeDecl,
};

fn banner() -> String {
    let mut s = String::new();
    s.push_str("// THIS FILE IS AUTOMATICALLY GENERATED BY SPACETIMEDB. EDITS TO THIS FILE\n");
    s.push_str("// WILL NOT BE SAVED. MODIFY TABLES IN YOUR MODULE SOURCE CODE INSTEAD.\n");
    s.push_str("\npackage module_bindings\n\n");
    s
}

fn header(imports: &[&str]) -> String {
    let mut s = banner();
    if imports.is_empty() {
        return s;
    }
    s.push_str("import (\n");
    for import in imports {
        s.push_str(&format!("\t\"{import}\"\n"));
    }
    s.push_str(")\n\n");
    s
}

fn decl(name: &str, def: AlgebraicTypeDef) -> TypeDecl {
    TypeDecl { name_segments: vec![name.to_string()], def }
}

fn product(fields: Vec<(&str, AlgebraicTypeUse)>) -> AlgebraicTypeDef {
    AlgebraicTypeDef::Product(ProductTypeDef {
        elements: fields.into_iter().map(|(n, t)| (n.to_string(), t)).collect(),
    })
}

fn empty_module() -> ModuleDef {
    ModuleDef { typespace: vec![], tables: vec![], reducers: vec![], procedures: vec![] }
}

fn table_module() -> ModuleDef {
    ModuleDef {
        typespace: vec![decl("User", product(vec![("id", AlgebraicTypeUse::Primitive(
            go_codegen::schema::PrimitiveType::U32,
        ))]))],
        tables: vec![TableDef {
            name: "user_table".to_string(),
            accessor_name: "user".to_string(),
            product_type_ref: 0,
        }],
        reducers: vec![ReducerDef {
            name: "create-user".to_string(),
            accessor_name: "create_user".to_string(),
        }],
        procedures: vec![ProcedureDef {
            name: "fetch-user".to_string(),
            accessor_name: "fetch_user".to_string(),
        }],
    }
}

#[test]
fn table_file_text() {
    let module = table_module();
    let file = Go.generate_table_file_from_schema(&module, &module.tables[0]);
    assert_eq!(file.filename, "tables_user.go");
    let expected = format!(
        "{}type UserTable struct {{}}\n\nfunc NewUserTable() UserTable {{\n\treturn UserTable{{}}\n}}\n\nfunc (UserTable) Name() string {{ return \"user_table\" }}\nfunc (UserTable) Accessor() string {{ return \"user\" }}\n\ntype UserTableRow = User\n",
        header(&[])
    );
    assert_eq!(file.code, expected);
}

#[test]
fn table_filename_snake_cases_accessor() {
    let mut module = table_module();
    module.tables[0].accessor_name = "UserProfile".to_string();
    let file = Go.generate_table_file_from_schema(&module, &module.tables[0]);
    assert_eq!(file.filename, "tables_user_profile.go");
}

#[test]
fn empty_product_renders_empty_aggregate() {
    let module = ModuleDef {
        typespace: vec![decl("Empty", product(vec![]))],
        tables: vec![],
        reducers: vec![],
        procedures: vec![],
    };
    let files = Go.generate_type_files(&module, &module.typespace[0]);
    assert_eq!(files.len(), 1);
    assert_eq!(files[0].filename, "types_Empty.go");
    let expected = format!("{}type Empty struct {{\n}}\n", header(&[]));
    assert_eq!(files[0].code, expected);
}

#[test]
fn sum_type_renders_tag_constants() {
    let module = ModuleDef {
        typespace: vec![decl(
            "Status",
            AlgebraicTypeDef::Sum(SumTypeDef {
                variants: vec![
                    ("Active".to_string(), AlgebraicTypeUse::Unit),
                    ("Done".to_string(), AlgebraicTypeUse::Unit),
                ],
            }),
        )],
        tables: vec![],
        reducers: vec![],
        procedures: vec![],
    };
    let files = Go.generate_type_files(&module, &module.typespace[0]);
    assert_eq!(files.len(), 1);
    let expected = format!(
        "{}type StatusTag string\n\nconst (\n\tStatusTagActive StatusTag = \"Active\"\n\tStatusTagDone StatusTag = \"Done\"\n)\n\ntype Status struct {{\n\tTag   StatusTag `json:\"tag\"`\n\tValue any         `json:\"value,omitempty\"`\n}}\n",
        header(&[])
    );
    assert_eq!(files[0].code, expected);
}

#[test]
fn plain_enum_renders_ordinal_constants() {
    let module = ModuleDef {
        typespace: vec![decl(
            "Color",
            AlgebraicTypeDef::PlainEnum(PlainEnumTypeDef {
                variants: vec!["Red".to_string(), "Green".to_string(), "Blue".to_string()],
            }),
        )],
        tables: vec![],
        reducers: vec![],
        procedures: vec![],
    };
    let files = Go.generate_type_files(&module, &module.typespace[0]);
    assert_eq!(files.len(), 1);
    assert_eq!(files[0].filename, "types_Color.go");
    let expected = format!(
        "{}type Color uint8\n\nconst (\n\tColorRed Color = iota\n\tColorGreen\n\tColorBlue\n)\n",
        header(&[])
    );
    assert_eq!(files[0].code, expected);
}

#[test]
fn option_of_array_of_bytes_renders_nullable_sequence() {
    let module = empty_module();
    let ty = AlgebraicTypeUse::OptionOf(Box::new(AlgebraicTypeUse::ArrayOf(Box::new(
        AlgebraicTypeUse::Primitive(go_codegen::schema::PrimitiveType::U8),
    ))));
    let mut out = String::new();
    go_codegen::render::write_type(&module, &mut out, &ty);
    assert_eq!(out, "*[]uint8");
}

#[test]
fn wide_integer_field_maps_to_big_int_and_imports() {
    let module = ModuleDef {
        typespace: vec![decl("Big", product(vec![(
            "amount",
            AlgebraicTypeUse::Primitive(go_codegen::schema::PrimitiveType::I128),
        )]))],
        tables: vec![],
        reducers: vec![],
        procedures: vec![],
    };
    let files = Go.generate_type_files(&module, &module.typespace[0]);
    let expected = format!(
        "{}type Big struct {{\n\tAmount *big.Int `json:\"amount\"`\n}}\n",
        header(&["math/big"])
    );
    assert_eq!(files[0].code, expected);
}

#[test]
fn timestamp_and_duration_import_time() {
    let module = ModuleDef {
        typespace: vec![decl("Event", product(vec![
            ("at", AlgebraicTypeUse::Timestamp),
            ("took", AlgebraicTypeUse::TimeDuration),
        ]))],
        tables: vec![],
        reducers: vec![],
        procedures: vec![],
    };
    let files = Go.generate_type_files(&module, &module.typespace[0]);
    let expected = format!(
        "{}type Event struct {{\n\tAt time.Time `json:\"at\"`\n\tTook time.Duration `json:\"took\"`\n}}\n",
        header(&["time"])
    );
    assert_eq!(files[0].code, expected);
}

#[test]
fn cyclic_type_graph_terminates_and_propagates_imports() {
    // Node and Edge reference each other; Node needs the time import, and
    // Edge inherits it through the cycle. Resolution must terminate.
    let module = ModuleDef {
        typespace: vec![
            decl("Node", product(vec![
                ("next", AlgebraicTypeUse::Ref(1)),
                ("when", AlgebraicTypeUse::Timestamp),
            ])),
            decl("Edge", product(vec![("peer", AlgebraicTypeUse::Ref(0))])),
        ],
        tables: vec![],
        reducers: vec![],
        procedures: vec![],
    };
    let node_files = Go.generate_type_files(&module, &module.typespace[0]);
    let edge_files = Go.generate_type_files(&module, &module.typespace[1]);
    let expected_node = format!(
        "{}type Node struct {{\n\tNext Edge `json:\"next\"`\n\tWhen time.Time `json:\"when\"`\n}}\n",
        header(&["time"])
    );
    let expected_edge = format!(
        "{}type Edge struct {{\n\tPeer Node `json:\"peer\"`\n}}\n",
        header(&["time"])
    );
    assert_eq!(node_files[0].code, expected_node);
    assert_eq!(edge_files[0].code, expected_edge);
}

#[test]
fn self_referential_type_terminates() {
    let module = ModuleDef {
        typespace: vec![decl("Loop", product(vec![("me", AlgebraicTypeUse::Ref(0))]))],
        tables: vec![],
        reducers: vec![],
        procedures: vec![],
    };
    let files = Go.generate_type_files(&module, &module.typespace[0]);
    let expected = format!("{}type Loop struct {{\n\tMe Loop `json:\"me\"`\n}}\n", header(&[]));
    assert_eq!(files[0].code, expected);
}

#[test]
fn reducer_file_generates_one_forwarding_method() {
    let module = table_module();
    let file = Go.generate_reducer_file(&module, &module.reducers[0]);
    assert_eq!(file.filename, "reducers_create_user.go");
    let expected = format!(
        "{}func (c *Client) CallCreateUser(ctx context.Context, args []byte, callback connection.ReducerResultCallback) (uint32, error) {{\n\treturn c.CallReducer(ctx, \"create-user\", args, callback)\n}}\n",
        header(&["context", "github.com/clockworklabs/spacetimedb/sdks/go/connection"])
    );
    assert_eq!(file.code, expected);
    // exactly one generated method in the file
    assert_eq!(file.code.matches("func (c *Client)").count(), 1);
}

#[test]
fn procedure_file_generates_one_forwarding_method() {
    let module = table_module();
    let file = Go.generate_procedure_file(&module, &module.procedures[0]);
    assert_eq!(file.filename, "procedures_fetch_user.go");
    let expected = format!(
        "{}func (c *Client) CallFetchUser(ctx context.Context, args []byte, callback connection.ProcedureResultCallback) (uint32, error) {{\n\treturn c.CallProcedure(ctx, \"fetch-user\", args, callback)\n}}\n",
        header(&["context", "github.com/clockworklabs/spacetimedb/sdks/go/connection"])
    );
    assert_eq!(file.code, expected);
}

#[test]
fn client_checks_cancellation_before_connection_call() {
    // The generated reducer method delegates to CallReducer, whose body
    // returns the context's error on a pre-cancelled context before any
    // connection call is reached.
    let module = table_module();
    let files = Go.generate_global_files(&module);
    let client = &files[0];
    assert_eq!(client.filename, "client.go");
    let reducer_sig = client.code.find("func (c *Client) CallReducer").unwrap();
    let ctx_err = client.code[reducer_sig..].find("return 0, ctx.Err()").unwrap();
    let conn_call = client.code[reducer_sig..].find("c.conn.CallReducer").unwrap();
    assert!(ctx_err < conn_call);
    assert!(client.code.contains("case <-ctx.Done():"));
    assert!(client.code.contains("return 0, errors.New(\"spacetimedb client is not connected\")"));
}

#[test]
fn schema_file_lists_names_in_order() {
    let module = table_module();
    let files = Go.generate_global_files(&module);
    let schema = &files[1];
    assert_eq!(schema.filename, "schema.go");
    let expected = format!(
        "{}var TableAccessors = []string{{\n\t\"user\",\n}}\n\nvar ReducerNames = []string{{\n\t\"create-user\",\n}}\n\nvar ProcedureNames = []string{{\n\t\"fetch-user\",\n}}\n",
        header(&[])
    );
    assert_eq!(schema.code, expected);
}

#[test]
fn regeneration_is_byte_identical() {
    let first = Go.generate_module(&table_module());
    let second = Go.generate_module(&table_module());
    assert_eq!(first.len(), second.len());
    for (a, b) in first.iter().zip(second.iter()) {
        assert_eq!(a.filename, b.filename);
        assert_eq!(a.code, b.code);
    }
}

#[test]
fn empty_module_yields_only_global_files() {
    let files = Go.generate_module(&empty_module());
    let names: Vec<&str> = files.iter().map(|f| f.filename.as_str()).collect();
    assert_eq!(names, vec!["client.go", "schema.go"]);
    let expected_schema = format!(
        "{}var TableAccessors = []string{{\n}}\n\nvar ReducerNames = []string{{\n}}\n\nvar ProcedureNames = []string{{\n}}\n",
        header(&[])
    );
    assert_eq!(files[1].code, expected_schema);
}

#[test]
fn module_output_covers_every_category() {
    let files = Go.generate_module(&table_module());
    let names: Vec<&str> = files.iter().map(|f| f.filename.as_str()).collect();
    assert_eq!(
        names,
        vec![
            "tables_user.go",
            "types_User.go",
            "reducers_create_user.go",
            "procedures_fetch_user.go",
            "client.go",
            "schema.go",
        ]
    );
}
