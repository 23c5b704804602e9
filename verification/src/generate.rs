//! The entity binding generators: one generated file per table, typespace
//! entry, reducer and procedure, plus the module-wide client and schema
//! registry files.

use vstd::prelude::*;

use crate::OutputFile;
use crate::ident::{
    pascal_of, reducer_method_name, procedure_method_name, snake_of, table_type_name,
    to_snake_case,
};
use crate::imports::{
    GoImports, gather_imports_product, gather_imports_sum, import_list, lemma_reach_minimal,
    closed_over, reach_from, spec_def_imports, spec_import_list,
};
use crate::render::{
    import_views, print_go_header, spec_header, spec_pascal_join_upto, spec_plain_enum_text,
    spec_product_type_text, spec_ref_name, spec_sum_type_text, type_ref_name, pascal_join,
    write_plain_enum_type, write_product_type, write_sum_type,
};
use crate::schema::{
    AlgebraicTypeDef, ModuleDef, ProcedureDef, ReducerDef, TableDef, TypeDecl, def_refs_valid,
    module_wf,
};

verus! {

/// The Go backend: renders a resolved module schema to Go client bindings.
#[derive(Clone, Copy, Debug, Default)]
pub struct Go;

/// The filename of a table's generated binding file.
pub open spec fn spec_table_filename(t: TableDef) -> Seq<char> {
    "tables_"@ + snake_of(t.accessor_name@) + ".go"@
}

/// The full text of a table's generated binding file: a zero-field marker
/// type carrying the wire and accessor names as constant-returning methods,
/// plus a row-type alias bound to the row product type's generated name.
pub open spec fn spec_table_code(m: ModuleDef, t: TableDef) -> Seq<char> {
    let tt = pascal_of(t.accessor_name@) + "Table"@;
    spec_header(Seq::empty()) + "type "@ + tt + " struct {}\n"@ + "\n"@ + "func New"@ + tt + "() "@
        + tt + " {\n"@ + "\treturn "@ + tt + "{}\n"@ + "}\n"@ + "\n"@ + "func ("@ + tt
        + ") Name() string { return \""@ + t.name@ + "\" }\n"@ + "func ("@ + tt
        + ") Accessor() string { return \""@ + t.accessor_name@ + "\" }\n"@ + "\n"@ + "type "@ + tt
        + "Row = "@ + spec_ref_name(m, t.product_type_ref as int) + "\n"@
}

/// The underscore-joined concatenation of the first `n` name segments.
pub open spec fn spec_join_underscore_upto(segs: Seq<String>, n: int) -> Seq<char>
    decreases n,
{
    if n <= 0 {
        Seq::empty()
    } else if n == 1 {
        segs[0]@
    } else {
        spec_join_underscore_upto(segs, n - 1) + "_"@ + segs[n - 1]@
    }
}

/// The filename of a typespace entry's generated binding file.
pub open spec fn spec_type_filename(d: TypeDecl) -> Seq<char> {
    "types_"@ + spec_join_underscore_upto(d.name_segments@, d.name_segments@.len() as int)
        + ".go"@
}

/// The generated Go name of a typespace entry.
pub open spec fn spec_decl_name(d: TypeDecl) -> Seq<char> {
    spec_pascal_join_upto(d.name_segments@, d.name_segments@.len() as int)
}

/// The full text of a typespace entry's generated binding file.
pub open spec fn spec_type_code(m: ModuleDef, d: TypeDecl) -> Seq<char> {
    let header = spec_header(spec_import_list(spec_def_imports(m, d.def)));
    match d.def {
        AlgebraicTypeDef::Product(p) => header + spec_product_type_text(m, spec_decl_name(d), p),
        AlgebraicTypeDef::Sum(s) => header + spec_sum_type_text(spec_decl_name(d), s),
        AlgebraicTypeDef::PlainEnum(e) => header + spec_plain_enum_text(spec_decl_name(d), e),
    }
}

impl Go {
    /// Renders the binding file for one table.
    pub fn generate_table_file_from_schema(&self, module: &ModuleDef, table: &TableDef) -> (r:
        OutputFile)
        requires
            table.product_type_ref < module.typespace@.len(),
        ensures
            r.filename@ == spec_table_filename(*table),
            r.code@ == spec_table_code(*module, *table),
    {
        let mut output = String::new();
        let no_imports: Vec<String> = Vec::new();
        proof {
            assert(import_views(no_imports@) =~= Seq::<Seq<char>>::empty());
        }
        print_go_header(&mut output, &no_imports);

        let table_type = table_type_name(table.accessor_name.as_str());
        let row_type = type_ref_name(module, table.product_type_ref);

        output.append("type ");
        output.append(table_type.as_str());
        output.append(" struct {}\n");
        output.append("\n");
        output.append("func New");
        output.append(table_type.as_str());
        output.append("() ");
        output.append(table_type.as_str());
        output.append(" {\n");
        output.append("\treturn ");
        output.append(table_type.as_str());
        output.append("{}\n");
        output.append("}\n");
        output.append("\n");
        output.append("func (");
        output.append(table_type.as_str());
        output.append(") Name() string { return \"");
        output.append(table.name.as_str());
        output.append("\" }\n");
        output.append("func (");
        output.append(table_type.as_str());
        output.append(") Accessor() string { return \"");
        output.append(table.accessor_name.as_str());
        output.append("\" }\n");
        output.append("\n");
        output.append("type ");
        output.append(table_type.as_str());
        output.append("Row = ");
        output.append(row_type.as_str());
        output.append("\n");
        proof {
            assert(output@ =~= spec_table_code(*module, *table));
        }

        let mut filename = String::from_str("tables_");
        let snake = to_snake_case(table.accessor_name.as_str());
        filename.append(snake.as_str());
        filename.append(".go");
        OutputFile { filename, code: output }
    }

    /// Renders the binding file for one typespace entry. Every entry yields
    /// exactly one file.
    pub fn generate_type_files(&self, module: &ModuleDef, typ: &TypeDecl) -> (r: Vec<OutputFile>)
        requires
            module_wf(*module),
            def_refs_valid(typ.def, module.typespace@.len() as int),
        ensures
            r@.len() == 1,
            r@[0].filename@ == spec_type_filename(*typ),
            r@[0].code@ == spec_type_code(*module, *typ),
    {
        let mut output = String::new();
        let ty_name = pascal_join(&typ.name_segments);

        match &typ.def {
            AlgebraicTypeDef::Product(p) => {
                proof {
                    assert(typ.def == AlgebraicTypeDef::Product(*p));
                }
                let imports = gather_imports_product(module, p);
                let import_vec = import_list(&imports);
                print_go_header(&mut output, &import_vec);
                write_product_type(module, &mut output, ty_name.as_str(), p);
                proof {
                    assert(output@ =~= spec_type_code(*module, *typ));
                }
            },
            AlgebraicTypeDef::Sum(s) => {
                proof {
                    assert(typ.def == AlgebraicTypeDef::Sum(*s));
                }
                let imports = gather_imports_sum(module, s);
                let import_vec = import_list(&imports);
                print_go_header(&mut output, &import_vec);
                write_sum_type(&mut output, ty_name.as_str(), s);
                proof {
                    assert(output@ =~= spec_type_code(*module, *typ));
                }
            },
            AlgebraicTypeDef::PlainEnum(e) => {
                let no_needs = GoImports { time: false, big: false };
                proof {
                    let ts = module.typespace@;
                    assert(closed_over(ts, Set::empty(), Set::empty()));
                    lemma_reach_minimal(ts, Set::empty(), Set::empty());
                    assert(spec_def_imports(*module, typ.def) == no_needs) by {
                        if exists|r: int|
                            reach_from(ts, Set::empty()).contains(r) && 0 <= r < ts.len()
                                && crate::imports::def_needs_time((#[trigger] ts[r]).def) {
                            let r = choose|r: int|
                                reach_from(ts, Set::empty()).contains(r) && 0 <= r < ts.len()
                                    && crate::imports::def_needs_time((#[trigger] ts[r]).def);
                            assert(Set::<int>::empty().contains(r));
                        }
                        if exists|r: int|
                            reach_from(ts, Set::empty()).contains(r) && 0 <= r < ts.len()
                                && crate::imports::def_needs_big((#[trigger] ts[r]).def) {
                            let r = choose|r: int|
                                reach_from(ts, Set::empty()).contains(r) && 0 <= r < ts.len()
                                    && crate::imports::def_needs_big((#[trigger] ts[r]).def);
                            assert(Set::<int>::empty().contains(r));
                        }
                    }
                }
                let import_vec = import_list(&no_needs);
                print_go_header(&mut output, &import_vec);
                write_plain_enum_type(&mut output, ty_name.as_str(), e);
                proof {
                    assert(output@ =~= spec_type_code(*module, *typ));
                }
            },
        }

        let mut filename = String::from_str("types_");
        let segs = &typ.name_segments;
        let mut i: usize = 0;
        while i < segs.len()
            invariant
                i <= segs@.len(),
                filename@ == "types_"@ + spec_join_underscore_upto(segs@, i as int),
            decreases segs@.len() - i,
        {
            if i > 0 {
                filename.append("_");
            }
            filename.append(segs[i].as_str());
            i = i + 1;
        }
        filename.append(".go");
        proof {
            assert(filename@ =~= spec_type_filename(*typ));
        }

        let mut files: Vec<OutputFile> = Vec::new();
        files.push(OutputFile { filename, code: output });
        files
    }
}

/// The filename of a reducer's generated binding file.
pub open spec fn spec_reducer_filename(rd: ReducerDef) -> Seq<char> {
    "reducers_"@ + snake_of(rd.accessor_name@) + ".go"@
}

/// The full text of a reducer's generated binding file: one typed client
/// method that forwards to the client's guarded reducer-invocation primitive,
/// passing the reducer's wire name.
pub open spec fn spec_reducer_code(rd: ReducerDef) -> Seq<char> {
    spec_header(
        seq!["context"@, "github.com/clockworklabs/spacetimedb/sdks/go/connection"@],
    ) + "func (c *Client) "@ + "Call"@ + pascal_of(rd.accessor_name@)
        + "(ctx context.Context, args []byte, callback connection.ReducerResultCallback) (uint32, error) {\n"@
        + "\treturn c.CallReducer(ctx, \""@ + rd.name@ + "\", args, callback)\n"@ + "}\n"@
}

/// The filename of a procedure's generated binding file.
pub open spec fn spec_procedure_filename(p: ProcedureDef) -> Seq<char> {
    "procedures_"@ + snake_of(p.accessor_name@) + ".go"@
}

/// The full text of a procedure's generated binding file.
pub open spec fn spec_procedure_code(p: ProcedureDef) -> Seq<char> {
    spec_header(
        seq!["context"@, "github.com/clockworklabs/spacetimedb/sdks/go/connection"@],
    ) + "func (c *Client) "@ + "Call"@ + pascal_of(p.accessor_name@)
        + "(ctx context.Context, args []byte, callback connection.ProcedureResultCallback) (uint32, error) {\n"@
        + "\treturn c.CallProcedure(ctx, \""@ + p.name@ + "\", args, callback)\n"@ + "}\n"@
}

fn context_connection_imports() -> (r: Vec<String>)
    ensures
        import_views(r@) =~= seq![
            "context"@,
            "github.com/clockworklabs/spacetimedb/sdks/go/connection"@,
        ],
{
    let mut imports: Vec<String> = Vec::new();
    imports.push(String::from_str("context"));
    imports.push(String::from_str("github.com/clockworklabs/spacetimedb/sdks/go/connection"));
    proof {
        assert(import_views(imports@) =~= seq![
            "context"@,
            "github.com/clockworklabs/spacetimedb/sdks/go/connection"@,
        ]);
    }
    imports
}

impl Go {
    /// Renders the binding file for one reducer.
    pub fn generate_reducer_file(&self, _module: &ModuleDef, reducer: &ReducerDef) -> (r:
        OutputFile)
        ensures
            r.filename@ == spec_reducer_filename(*reducer),
            r.code@ == spec_reducer_code(*reducer),
    {
        let mut output = String::new();
        let imports = context_connection_imports();
        print_go_header(&mut output, &imports);

        let method_name = reducer_method_name(reducer.accessor_name.as_str());
        output.append("func (c *Client) ");
        output.append(method_name.as_str());
        output.append(
            "(ctx context.Context, args []byte, callback connection.ReducerResultCallback) (uint32, error) {\n",
        );
        output.append("\treturn c.CallReducer(ctx, \"");
        output.append(reducer.name.as_str());
        output.append("\", args, callback)\n");
        output.append("}\n");
        proof {
            assert(output@ =~= spec_reducer_code(*reducer));
        }

        let mut filename = String::from_str("reducers_");
        let snake = to_snake_case(reducer.accessor_name.as_str());
        filename.append(snake.as_str());
        filename.append(".go");
        OutputFile { filename, code: output }
    }

    /// Renders the binding file for one procedure.
    pub fn generate_procedure_file(&self, _module: &ModuleDef, procedure: &ProcedureDef) -> (r:
        OutputFile)
        ensures
            r.filename@ == spec_procedure_filename(*procedure),
            r.code@ == spec_procedure_code(*procedure),
    {
        let mut output = String::new();
        let imports = context_connection_imports();
        print_go_header(&mut output, &imports);

        let method_name = procedure_method_name(procedure.accessor_name.as_str());
        output.append("func (c *Client) ");
        output.append(method_name.as_str());
        output.append(
            "(ctx context.Context, args []byte, callback connection.ProcedureResultCallback) (uint32, error) {\n",
        );
        output.append("\treturn c.CallProcedure(ctx, \"");
        output.append(procedure.name.as_str());
        output.append("\", args, callback)\n");
        output.append("}\n");
        proof {
            assert(output@ =~= spec_procedure_code(*procedure));
        }

        let mut filename = String::from_str("procedures_");
        let snake = to_snake_case(procedure.accessor_name.as_str());
        filename.append(snake.as_str());
        filename.append(".go");
        OutputFile { filename, code: output }
    }
}

/// The guard every client invocation method runs before touching the
/// connection: a nil-client check that returns an explicit error, then a
/// cancelled-context check that returns the context's own error without
/// attempting the call.
pub open spec fn spec_client_guard() -> Seq<char> {
    "\tif c == nil || c.conn == nil {\n"@
        + "\t\treturn 0, errors.New(\"spacetimedb client is not connected\")\n"@ + "\t}\n"@
        + "\tif ctx != nil {\n"@ + "\t\tselect {\n"@ + "\t\tcase <-ctx.Done():\n"@
        + "\t\t\treturn 0, ctx.Err()\n"@ + "\t\tdefault:\n"@ + "\t\t}\n"@ + "\t}\n"@
}

fn append_client_guard(out: &mut String)
    ensures
        final(out)@ == old(out)@ + spec_client_guard(),
{
    out.append("\tif c == nil || c.conn == nil {\n");
    out.append("\t\treturn 0, errors.New(\"spacetimedb client is not connected\")\n");
    out.append("\t}\n");
    out.append("\tif ctx != nil {\n");
    out.append("\t\tselect {\n");
    out.append("\t\tcase <-ctx.Done():\n");
    out.append("\t\t\treturn 0, ctx.Err()\n");
    out.append("\t\tdefault:\n");
    out.append("\t\t}\n");
    out.append("\t}\n");
    proof {
        assert(out@ =~= old(out)@ + spec_client_guard());
    }
}

/// The full text of the generated client file: the module-wide generic
/// two-case result container, the shared schedule-at tagged type, and a thin
/// client wrapping a connection handle with guarded forwarding methods for
/// reducer calls, procedure calls and ad-hoc queries.
pub open spec fn spec_client_code() -> Seq<char> {
    spec_header(
        seq![
            "context"@,
            "errors"@,
            "github.com/clockworklabs/spacetimedb/sdks/go/connection"@,
        ],
    ) + "type Result[T any, E any] struct {\n"@ + "\tOk  *T\n"@ + "\tErr *E\n"@ + "}\n"@ + "\n"@
        + "type ScheduleAt struct {\n"@ + "\tTag   string `json:\"tag\"`\n"@
        + "\tValue any    `json:\"value,omitempty\"`\n"@ + "}\n"@ + "\n"@
        + "type Client struct {\n"@ + "\tconn *connection.Connection\n"@ + "}\n"@ + "\n"@
        + "func NewClient(conn *connection.Connection) *Client {\n"@
        + "\treturn &Client{conn: conn}\n"@ + "}\n"@ + "\n"@
        + "func (c *Client) Connection() *connection.Connection { return c.conn }\n"@ + "\n"@
        + "func (c *Client) CallReducer(ctx context.Context, reducer string, args []byte, callback connection.ReducerResultCallback) (uint32, error) {\n"@
        + spec_client_guard() + "\treturn c.conn.CallReducer(reducer, args, callback)\n"@ + "}\n"@
        + "\n"@
        + "func (c *Client) CallProcedure(ctx context.Context, procedure string, args []byte, callback connection.ProcedureResultCallback) (uint32, error) {\n"@
        + spec_client_guard() + "\treturn c.conn.CallProcedure(procedure, args, callback)\n"@
        + "}\n"@ + "\n"@
        + "func (c *Client) OneOffQuery(ctx context.Context, query string, callback connection.OneOffQueryResultCallback) (uint32, error) {\n"@
        + spec_client_guard() + "\treturn c.conn.OneOffQuery(query, callback)\n"@ + "}\n"@
}

/// One quoted, comma-terminated name line in a schema registry list.
pub open spec fn spec_quoted_line(names: Seq<Seq<char>>, i: int) -> Seq<char> {
    "\t\""@ + names[i] + "\",\n"@
}

pub open spec fn spec_quoted_lines_upto(names: Seq<Seq<char>>, n: int) -> Seq<char>
    decreases n,
{
    if n <= 0 {
        Seq::empty()
    } else {
        spec_quoted_lines_upto(names, n - 1) + spec_quoted_line(names, n - 1)
    }
}

/// The accessor names of a module's tables.
pub open spec fn spec_table_accessor_views(tables: Seq<TableDef>) -> Seq<Seq<char>> {
    tables.map_values(|t: TableDef| t.accessor_name@)
}

/// The wire names of a module's reducers.
pub open spec fn spec_reducer_name_views(reducers: Seq<ReducerDef>) -> Seq<Seq<char>> {
    reducers.map_values(|rd: ReducerDef| rd.name@)
}

/// The wire names of a module's procedures.
pub open spec fn spec_procedure_name_views(procedures: Seq<ProcedureDef>) -> Seq<Seq<char>> {
    procedures.map_values(|p: ProcedureDef| p.name@)
}

/// The full text of the generated schema registry file: three ordered
/// name-lists for reflective discovery by consumers.
pub open spec fn spec_schema_code(m: ModuleDef) -> Seq<char> {
    spec_header(Seq::empty()) + "var TableAccessors = []string{\n"@ + spec_quoted_lines_upto(
        spec_table_accessor_views(m.tables@),
        m.tables@.len() as int,
    ) + "}\n"@ + "\n"@ + "var ReducerNames = []string{\n"@ + spec_quoted_lines_upto(
        spec_reducer_name_views(m.reducers@),
        m.reducers@.len() as int,
    ) + "}\n"@ + "\n"@ + "var ProcedureNames = []string{\n"@ + spec_quoted_lines_upto(
        spec_procedure_name_views(m.procedures@),
        m.procedures@.len() as int,
    ) + "}\n"@
}

impl Go {
    /// Renders the module-wide client and schema registry files.
    pub fn generate_global_files(&self, module: &ModuleDef) -> (r: Vec<OutputFile>)
        ensures
            r@.len() == 2,
            r@[0].filename@ == "client.go"@,
            r@[0].code@ == spec_client_code(),
            r@[1].filename@ == "schema.go"@,
            r@[1].code@ == spec_schema_code(*module),
    {
        let mut client = String::new();
        let mut imports: Vec<String> = Vec::new();
        imports.push(String::from_str("context"));
        imports.push(String::from_str("errors"));
        imports.push(String::from_str("github.com/clockworklabs/spacetimedb/sdks/go/connection"));
        proof {
            assert(import_views(imports@) =~= seq![
                "context"@,
                "errors"@,
                "github.com/clockworklabs/spacetimedb/sdks/go/connection"@,
            ]);
        }
        print_go_header(&mut client, &imports);
        client.append("type Result[T any, E any] struct {\n");
        client.append("\tOk  *T\n");
        client.append("\tErr *E\n");
        client.append("}\n");
        client.append("\n");
        client.append("type ScheduleAt struct {\n");
        client.append("\tTag   string `json:\"tag\"`\n");
        client.append("\tValue any    `json:\"value,omitempty\"`\n");
        client.append("}\n");
        client.append("\n");
        client.append("type Client struct {\n");
        client.append("\tconn *connection.Connection\n");
        client.append("}\n");
        client.append("\n");
        client.append("func NewClient(conn *connection.Connection) *Client {\n");
        client.append("\treturn &Client{conn: conn}\n");
        client.append("}\n");
        client.append("\n");
        client.append("func (c *Client) Connection() *connection.Connection { return c.conn }\n");
        client.append("\n");
        client.append(
            "func (c *Client) CallReducer(ctx context.Context, reducer string, args []byte, callback connection.ReducerResultCallback) (uint32, error) {\n",
        );
        append_client_guard(&mut client);
        client.append("\treturn c.conn.CallReducer(reducer, args, callback)\n");
        client.append("}\n");
        client.append("\n");
        client.append(
            "func (c *Client) CallProcedure(ctx context.Context, procedure string, args []byte, callback connection.ProcedureResultCallback) (uint32, error) {\n",
        );
        append_client_guard(&mut client);
        client.append("\treturn c.conn.CallProcedure(procedure, args, callback)\n");
        client.append("}\n");
        client.append("\n");
        client.append(
            "func (c *Client) OneOffQuery(ctx context.Context, query string, callback connection.OneOffQueryResultCallback) (uint32, error) {\n",
        );
        append_client_guard(&mut client);
        client.append("\treturn c.conn.OneOffQuery(query, callback)\n");
        client.append("}\n");
        proof {
            assert(client@ =~= spec_client_code());
        }

        let mut schema = String::new();
        let no_imports: Vec<String> = Vec::new();
        proof {
            assert(import_views(no_imports@) =~= Seq::<Seq<char>>::empty());
        }
        print_go_header(&mut schema, &no_imports);
        schema.append("var TableAccessors = []string{\n");
        let ghost table_views = spec_table_accessor_views(module.tables@);
        let ghost prefix1 = schema@;
        let mut i: usize = 0;
        while i < module.tables.len()
            invariant
                i <= module.tables@.len(),
                table_views == spec_table_accessor_views(module.tables@),
                schema@ == prefix1 + spec_quoted_lines_upto(table_views, i as int),
            decreases module.tables@.len() - i,
        {
            schema.append("\t\"");
            schema.append(module.tables[i].accessor_name.as_str());
            schema.append("\",\n");
            proof {
                assert(table_views[i as int] == module.tables@[i as int].accessor_name@);
                assert(schema@ =~= prefix1 + spec_quoted_lines_upto(table_views, i + 1));
            }
            i = i + 1;
        }
        schema.append("}\n");
        schema.append("\n");
        schema.append("var ReducerNames = []string{\n");
        let ghost reducer_views = spec_reducer_name_views(module.reducers@);
        let ghost prefix2 = schema@;
        let mut i: usize = 0;
        while i < module.reducers.len()
            invariant
                i <= module.reducers@.len(),
                reducer_views == spec_reducer_name_views(module.reducers@),
                schema@ == prefix2 + spec_quoted_lines_upto(reducer_views, i as int),
            decreases module.reducers@.len() - i,
        {
            schema.append("\t\"");
            schema.append(module.reducers[i].name.as_str());
            schema.append("\",\n");
            proof {
                assert(reducer_views[i as int] == module.reducers@[i as int].name@);
                assert(schema@ =~= prefix2 + spec_quoted_lines_upto(reducer_views, i + 1));
            }
            i = i + 1;
        }
        schema.append("}\n");
        schema.append("\n");
        schema.append("var ProcedureNames = []string{\n");
        let ghost procedure_views = spec_procedure_name_views(module.procedures@);
        let ghost prefix3 = schema@;
        let mut i: usize = 0;
        while i < module.procedures.len()
            invariant
                i <= module.procedures@.len(),
                procedure_views == spec_procedure_name_views(module.procedures@),
                schema@ == prefix3 + spec_quoted_lines_upto(procedure_views, i as int),
            decreases module.procedures@.len() - i,
        {
            schema.append("\t\"");
            schema.append(module.procedures[i].name.as_str());
            schema.append("\",\n");
            proof {
                assert(procedure_views[i as int] == module.procedures@[i as int].name@);
                assert(schema@ =~= prefix3 + spec_quoted_lines_upto(procedure_views, i + 1));
            }
            i = i + 1;
        }
        schema.append("}\n");
        proof {
            assert(schema@ =~= spec_schema_code(*module));
        }

        let mut files: Vec<OutputFile> = Vec::new();
        files.push(OutputFile { filename: String::from_str("client.go"), code: client });
        files.push(OutputFile { filename: String::from_str("schema.go"), code: schema });
        files
    }
}

/// The filename and contents of each output file.
pub open spec fn file_views(files: Seq<OutputFile>) -> Seq<(Seq<char>, Seq<char>)> {
    files.map_values(|f: OutputFile| (f.filename@, f.code@))
}

/// Every output of one generation pass over a module schema, category by
/// category: tables, typespace entries, reducers, procedures, global files.
pub open spec fn spec_module_output(m: ModuleDef) -> Seq<(Seq<char>, Seq<char>)> {
    m.tables@.map_values(|t: TableDef| (spec_table_filename(t), spec_table_code(m, t)))
        + m.typespace@.map_values(|d: TypeDecl| (spec_type_filename(d), spec_type_code(m, d)))
        + m.reducers@.map_values(|rd: ReducerDef| (spec_reducer_filename(rd), spec_reducer_code(rd)))
        + m.procedures@.map_values(
        |p: ProcedureDef| (spec_procedure_filename(p), spec_procedure_code(p)),
    ) + seq![("client.go"@, spec_client_code()), ("schema.go"@, spec_schema_code(m))]
}

impl Go {
    /// Runs one full generation pass: one file per table, typespace entry,
    /// reducer and procedure, then the module-wide files.
    pub fn generate_module(&self, module: &ModuleDef) -> (r: Vec<OutputFile>)
        requires
            module_wf(*module),
        ensures
            file_views(r@) == spec_module_output(*module),
    {
        let ghost m = *module;
        let mut files: Vec<OutputFile> = Vec::new();
        let mut i: usize = 0;
        while i < module.tables.len()
            invariant
                module_wf(m),
                m == *module,
                i <= m.tables@.len(),
                files@.len() == i as int,
                forall|k: int|
                    0 <= k < i ==> ((#[trigger] files@[k]).filename@ == spec_table_filename(
                        m.tables@[k],
                    ) && files@[k].code@ == spec_table_code(m, m.tables@[k])),
            decreases m.tables@.len() - i,
        {
            let f = self.generate_table_file_from_schema(module, &module.tables[i]);
            files.push(f);
            i = i + 1;
        }
        let ghost t_len = m.tables@.len() as int;
        let mut i: usize = 0;
        while i < module.typespace.len()
            invariant
                module_wf(m),
                m == *module,
                i <= m.typespace@.len(),
                files@.len() == t_len + i,
                t_len == m.tables@.len() as int,
                forall|k: int|
                    0 <= k < t_len ==> ((#[trigger] files@[k]).filename@ == spec_table_filename(
                        m.tables@[k],
                    ) && files@[k].code@ == spec_table_code(m, m.tables@[k])),
                forall|k: int|
                    t_len <= k < t_len + i ==> ((#[trigger] files@[k]).filename@
                        == spec_type_filename(m.typespace@[k - t_len]) && files@[k].code@
                        == spec_type_code(m, m.typespace@[k - t_len])),
            decreases m.typespace@.len() - i,
        {
            let mut tf = self.generate_type_files(module, &module.typespace[i]);
            files.append(&mut tf);
            i = i + 1;
        }
        let ghost d_len = t_len + m.typespace@.len() as int;
        let mut i: usize = 0;
        while i < module.reducers.len()
            invariant
                module_wf(m),
                m == *module,
                i <= m.reducers@.len(),
                files@.len() == d_len + i,
                t_len == m.tables@.len() as int,
                d_len == t_len + m.typespace@.len() as int,
                forall|k: int|
                    0 <= k < t_len ==> ((#[trigger] files@[k]).filename@ == spec_table_filename(
                        m.tables@[k],
                    ) && files@[k].code@ == spec_table_code(m, m.tables@[k])),
                forall|k: int|
                    t_len <= k < d_len ==> ((#[trigger] files@[k]).filename@ == spec_type_filename(
                        m.typespace@[k - t_len],
                    ) && files@[k].code@ == spec_type_code(m, m.typespace@[k - t_len])),
                forall|k: int|
                    d_len <= k < d_len + i ==> ((#[trigger] files@[k]).filename@
                        == spec_reducer_filename(m.reducers@[k - d_len]) && files@[k].code@
                        == spec_reducer_code(m.reducers@[k - d_len])),
            decreases m.reducers@.len() - i,
        {
            let f = self.generate_reducer_file(module, &module.reducers[i]);
            files.push(f);
            i = i + 1;
        }
        let ghost r_len = d_len + m.reducers@.len() as int;
        let mut i: usize = 0;
        while i < module.procedures.len()
            invariant
                module_wf(m),
                m == *module,
                i <= m.procedures@.len(),
                files@.len() == r_len + i,
                t_len == m.tables@.len() as int,
                d_len == t_len + m.typespace@.len() as int,
                r_len == d_len + m.reducers@.len() as int,
                forall|k: int|
                    0 <= k < t_len ==> ((#[trigger] files@[k]).filename@ == spec_table_filename(
                        m.tables@[k],
                    ) && files@[k].code@ == spec_table_code(m, m.tables@[k])),
                forall|k: int|
                    t_len <= k < d_len ==> ((#[trigger] files@[k]).filename@ == spec_type_filename(
                        m.typespace@[k - t_len],
                    ) && files@[k].code@ == spec_type_code(m, m.typespace@[k - t_len])),
                forall|k: int|
                    d_len <= k < r_len ==> ((#[trigger] files@[k]).filename@
                        == spec_reducer_filename(m.reducers@[k - d_len]) && files@[k].code@
                        == spec_reducer_code(m.reducers@[k - d_len])),
                forall|k: int|
                    r_len <= k < r_len + i ==> ((#[trigger] files@[k]).filename@
                        == spec_procedure_filename(m.procedures@[k - r_len]) && files@[k].code@
                        == spec_procedure_code(m.procedures@[k - r_len])),
            decreases m.procedures@.len() - i,
        {
            let f = self.generate_procedure_file(module, &module.procedures[i]);
            files.push(f);
            i = i + 1;
        }
        let mut globals = self.generate_global_files(module);
        files.append(&mut globals);
        proof {
            let ghost p_len = r_len + m.procedures@.len() as int;
            assert forall|k: int|
                0 <= k < files@.len() implies file_views(files@)[k] == spec_module_output(m)[k] by {
                assert(file_views(files@)[k] == (files@[k].filename@, files@[k].code@));
                if k < t_len {
                    assert(spec_module_output(m)[k] == (
                        spec_table_filename(m.tables@[k]),
                        spec_table_code(m, m.tables@[k]),
                    ));
                } else if k < d_len {
                    assert(spec_module_output(m)[k] == (
                        spec_type_filename(m.typespace@[k - t_len]),
                        spec_type_code(m, m.typespace@[k - t_len]),
                    ));
                } else if k < r_len {
                    assert(spec_module_output(m)[k] == (
                        spec_reducer_filename(m.reducers@[k - d_len]),
                        spec_reducer_code(m.reducers@[k - d_len]),
                    ));
                } else if k < p_len {
                    assert(spec_module_output(m)[k] == (
                        spec_procedure_filename(m.procedures@[k - r_len]),
                        spec_procedure_code(m.procedures@[k - r_len]),
                    ));
                } else {
                    assert(spec_module_output(m)[k] == seq![
                        ("client.go"@, spec_client_code()),
                        ("schema.go"@, spec_schema_code(m)),
                    ][k - p_len]);
                }
            }
            assert(file_views(files@) =~= spec_module_output(m));
        }
        files
    }
}

/// Generation is a pure function of the schema snapshot: two generation
/// passes over an unmodified module yield the same filenames and the same
/// file contents, byte for byte, headers included.
pub proof fn lemma_generation_deterministic(
    m: ModuleDef,
    first: Seq<OutputFile>,
    second: Seq<OutputFile>,
)
    requires
        file_views(first) == spec_module_output(m),
        file_views(second) == spec_module_output(m),
    ensures
        file_views(first) == file_views(second),
{
}

} // verus!
