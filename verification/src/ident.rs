//! Identifier sanitization: turning domain names into valid, exported Go
//! identifiers, and the casing conversions the naming policy is built on.

use vstd::prelude::*;
use convert_case::Casing;

verus! {

/// The PascalCase conversion of a string, as convert_case computes it.
pub uninterp spec fn pascal_of(s: Seq<char>) -> Seq<char>;

/// The snake_case conversion of a string, as convert_case computes it.
pub uninterp spec fn snake_of(s: Seq<char>) -> Seq<char>;

/// Relies on convert_case's `Casing::to_case` with `Case::Pascal`: a pure
/// conversion whose result depends on the characters of the input alone.
#[verifier::external_body]
pub fn to_pascal_case(s: &str) -> (r: String)
    ensures
        r@ == pascal_of(s@),
{
    s.to_case(convert_case::Case::Pascal)
}

/// Relies on convert_case's `Casing::to_case` with `Case::Snake`: a pure
/// conversion whose result depends on the characters of the input alone.
#[verifier::external_body]
pub fn to_snake_case(s: &str) -> (r: String)
    ensures
        r@ == snake_of(s@),
{
    s.to_case(convert_case::Case::Snake)
}

/// Exec equality of two string slices at the level of their character views.
fn str_eq(a: &str, b: &str) -> (r: bool)
    ensures
        r == (a@ == b@),
{
    let sa = String::from_str(a);
    let sb = String::from_str(b);
    sa == sb
}

/// The exported (capitalized) spellings of Go's reserved keywords.
pub open spec fn spec_is_go_keyword(s: Seq<char>) -> bool {
    ||| s == "Break"@
    ||| s == "Case"@
    ||| s == "Chan"@
    ||| s == "Const"@
    ||| s == "Continue"@
    ||| s == "Default"@
    ||| s == "Defer"@
    ||| s == "Else"@
    ||| s == "Fallthrough"@
    ||| s == "For"@
    ||| s == "Func"@
    ||| s == "Go"@
    ||| s == "Goto"@
    ||| s == "If"@
    ||| s == "Import"@
    ||| s == "Interface"@
    ||| s == "Map"@
    ||| s == "Package"@
    ||| s == "Range"@
    ||| s == "Return"@
    ||| s == "Select"@
    ||| s == "Struct"@
    ||| s == "Switch"@
    ||| s == "Type"@
    ||| s == "Var"@
}

/// Whether `name` collides with the exported spelling of a Go keyword.
pub fn is_go_keyword(name: &str) -> (r: bool)
    ensures
        r == spec_is_go_keyword(name@),
{
    str_eq(name, "Break") || str_eq(name, "Case") || str_eq(name, "Chan")
        || str_eq(name, "Const") || str_eq(name, "Continue") || str_eq(name, "Default")
        || str_eq(name, "Defer") || str_eq(name, "Else") || str_eq(name, "Fallthrough")
        || str_eq(name, "For") || str_eq(name, "Func") || str_eq(name, "Go")
        || str_eq(name, "Goto") || str_eq(name, "If") || str_eq(name, "Import")
        || str_eq(name, "Interface") || str_eq(name, "Map") || str_eq(name, "Package")
        || str_eq(name, "Range") || str_eq(name, "Return") || str_eq(name, "Select")
        || str_eq(name, "Struct") || str_eq(name, "Switch") || str_eq(name, "Type")
        || str_eq(name, "Var")
}

/// The decimal digit `d` as a character, for `d < 10`.
pub open spec fn spec_digit_char(d: nat) -> char {
    if d == 0 {
        '0'
    } else if d == 1 {
        '1'
    } else if d == 2 {
        '2'
    } else if d == 3 {
        '3'
    } else if d == 4 {
        '4'
    } else if d == 5 {
        '5'
    } else if d == 6 {
        '6'
    } else if d == 7 {
        '7'
    } else if d == 8 {
        '8'
    } else {
        '9'
    }
}

/// The decimal representation of `n`, most significant digit first.
pub open spec fn spec_dec_digits(n: nat) -> Seq<char>
    decreases n,
{
    if n < 10 {
        seq![spec_digit_char(n)]
    } else {
        spec_dec_digits(n / 10) + seq![spec_digit_char(n % 10)]
    }
}

/// Appends the single decimal digit `d` to `out`.
fn push_digit(out: &mut String, d: usize)
    requires
        d < 10,
    ensures
        final(out)@ == old(out)@ + seq![spec_digit_char(d as nat)],
{
    proof {
        reveal_strlit("0");
        reveal_strlit("1");
        reveal_strlit("2");
        reveal_strlit("3");
        reveal_strlit("4");
        reveal_strlit("5");
        reveal_strlit("6");
        reveal_strlit("7");
        reveal_strlit("8");
        reveal_strlit("9");
    }
    if d == 0 {
        out.append("0");
        proof { assert("0"@ =~= seq![spec_digit_char(0)]); }
    } else if d == 1 {
        out.append("1");
        proof { assert("1"@ =~= seq![spec_digit_char(1)]); }
    } else if d == 2 {
        out.append("2");
        proof { assert("2"@ =~= seq![spec_digit_char(2)]); }
    } else if d == 3 {
        out.append("3");
        proof { assert("3"@ =~= seq![spec_digit_char(3)]); }
    } else if d == 4 {
        out.append("4");
        proof { assert("4"@ =~= seq![spec_digit_char(4)]); }
    } else if d == 5 {
        out.append("5");
        proof { assert("5"@ =~= seq![spec_digit_char(5)]); }
    } else if d == 6 {
        out.append("6");
        proof { assert("6"@ =~= seq![spec_digit_char(6)]); }
    } else if d == 7 {
        out.append("7");
        proof { assert("7"@ =~= seq![spec_digit_char(7)]); }
    } else if d == 8 {
        out.append("8");
        proof { assert("8"@ =~= seq![spec_digit_char(8)]); }
    } else {
        out.append("9");
        proof { assert("9"@ =~= seq![spec_digit_char(9)]); }
    }
}

/// Appends the decimal representation of `n` to `out`.
fn push_dec_digits(out: &mut String, n: usize)
    ensures
        final(out)@ == old(out)@ + spec_dec_digits(n as nat),
    decreases n,
{
    if n < 10 {
        push_digit(out, n);
    } else {
        push_dec_digits(out, n / 10);
        push_digit(out, n % 10);
        proof {
            assert(old(out)@ + spec_dec_digits((n / 10) as nat) + seq![
                spec_digit_char((n % 10) as nat),
            ] =~= old(out)@ + spec_dec_digits(n as nat));
        }
    }
}

/// Whether `c` is an ASCII alphabetic character.
pub open spec fn is_ascii_alpha_char(c: char) -> bool {
    (65 <= c as u32 && c as u32 <= 90) || (97 <= c as u32 && c as u32 <= 122)
}

/// The identifier sanitization policy, applied to an already case-converted
/// name `s` standing at position `index`: an empty name becomes a positional
/// placeholder, a name with a non-alphabetic first character is prefixed, and
/// a name that collides with a keyword gets a disambiguating suffix.
pub open spec fn spec_sanitized(s: Seq<char>, index: nat) -> Seq<char> {
    let named = if s.len() == 0 {
        "Field"@ + spec_dec_digits(index)
    } else {
        s
    };
    let fronted = if named.len() == 0 || !is_ascii_alpha_char(named[0]) {
        "Field"@ + named
    } else {
        named
    };
    if spec_is_go_keyword(fronted) {
        fronted + "_"@
    } else {
        fronted
    }
}

/// The exported Go field name for the domain field `field_name` at position
/// `index`: its PascalCase conversion, made valid by the sanitization policy.
pub fn go_exported_field_name(field_name: &str, index: usize) -> (r: String)
    ensures
        r@ == spec_sanitized(pascal_of(field_name@), index as nat),
{
    proof {
        reveal_strlit("Field");
    }
    let mut name = to_pascal_case(field_name);
    if name.as_str().is_empty() {
        name = String::from_str("Field");
        push_dec_digits(&mut name, index);
    }
    let first = name.as_str().get_char(0);
    let u = first as u32;
    if !((65 <= u && u <= 90) || (97 <= u && u <= 122)) {
        name = String::from_str("Field").concat(name.as_str());
    }
    if is_go_keyword(name.as_str()) {
        name.append("_");
    }
    name
}

proof fn lemma_keyword_shape(s: Seq<char>)
    requires
        spec_is_go_keyword(s),
    ensures
        s.len() >= 2,
        s[s.len() - 1] != '_',
{
    reveal_strlit("Break");
    reveal_strlit("Case");
    reveal_strlit("Chan");
    reveal_strlit("Const");
    reveal_strlit("Continue");
    reveal_strlit("Default");
    reveal_strlit("Defer");
    reveal_strlit("Else");
    reveal_strlit("Fallthrough");
    reveal_strlit("For");
    reveal_strlit("Func");
    reveal_strlit("Go");
    reveal_strlit("Goto");
    reveal_strlit("If");
    reveal_strlit("Import");
    reveal_strlit("Interface");
    reveal_strlit("Map");
    reveal_strlit("Package");
    reveal_strlit("Range");
    reveal_strlit("Return");
    reveal_strlit("Select");
    reveal_strlit("Struct");
    reveal_strlit("Switch");
    reveal_strlit("Type");
    reveal_strlit("Var");
}

/// Every identifier the sanitizer produces is a valid exported Go
/// identifier: non-empty, with an ASCII alphabetic first character, and
/// distinct from every reserved keyword of the language.
pub proof fn lemma_sanitized_identifier_valid(s: Seq<char>, index: nat)
    ensures
        spec_sanitized(s, index).len() > 0,
        is_ascii_alpha_char(spec_sanitized(s, index)[0]),
        !spec_is_go_keyword(spec_sanitized(s, index)),
{
    reveal_strlit("Field");
    reveal_strlit("_");
    let named = if s.len() == 0 {
        "Field"@ + spec_dec_digits(index)
    } else {
        s
    };
    let fronted = if named.len() == 0 || !is_ascii_alpha_char(named[0]) {
        "Field"@ + named
    } else {
        named
    };
    assert(fronted.len() > 0 && is_ascii_alpha_char(fronted[0]));
    let result = spec_sanitized(s, index);
    assert(result[0] == fronted[0]);
    if spec_is_go_keyword(fronted) {
        assert(result[result.len() - 1] == '_');
        if spec_is_go_keyword(result) {
            lemma_keyword_shape(result);
        }
    }
}

/// The name of the generated zero-field marker type for a table.
pub fn table_type_name(accessor_name: &str) -> (r: String)
    ensures
        r@ == pascal_of(accessor_name@) + "Table"@,
{
    let mut r = to_pascal_case(accessor_name);
    r.append("Table");
    r
}

/// The name of the generated client method for a reducer.
pub fn reducer_method_name(reducer_name: &str) -> (r: String)
    ensures
        r@ == "Call"@ + pascal_of(reducer_name@),
{
    let r = to_pascal_case(reducer_name);
    String::from_str("Call").concat(r.as_str())
}

/// The name of the generated client method for a procedure.
pub fn procedure_method_name(procedure_name: &str) -> (r: String)
    ensures
        r@ == "Call"@ + pascal_of(procedure_name@),
{
    let r = to_pascal_case(procedure_name);
    String::from_str("Call").concat(r.as_str())
}

} // verus!
