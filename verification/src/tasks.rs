//! The decisions of the external build and format tasks: the argument list
//! handed to the Go toolchain, and which files the source formatter touches.
//! Invoking the processes is the caller's business; what is decided here is
//! pure.

use vstd::prelude::*;

verus! {

/// The Go toolchain argument list for cross-compiling a module project to a
/// WASI binary: a release build adds path trimming; the explicit output path
/// and the project root close the list.
pub open spec fn spec_go_build_args(build_debug: bool, output_path: Seq<char>) -> Seq<Seq<char>> {
    if build_debug {
        seq!["build"@, "-o"@, output_path, "."@]
    } else {
        seq!["build"@, "-trimpath"@, "-o"@, output_path, "."@]
    }
}

/// Builds the toolchain argument list for compiling a module project.
pub fn go_build_args(build_debug: bool, output_path: &str) -> (r: Vec<String>)
    ensures
        r@.map_values(|s: String| s@) == spec_go_build_args(build_debug, output_path@),
{
    let mut args: Vec<String> = Vec::new();
    args.push(String::from_str("build"));
    if !build_debug {
        args.push(String::from_str("-trimpath"));
    }
    args.push(String::from_str("-o"));
    args.push(String::from_str(output_path));
    args.push(String::from_str("."));
    proof {
        assert(args@.map_values(|s: String| s@) =~= spec_go_build_args(
            build_debug,
            output_path@,
        ));
    }
    args
}

/// Whether a file name carries the generated-Go extension: at least one
/// character of stem, then `.go`.
pub open spec fn spec_is_go_file(name: Seq<char>) -> bool {
    name.len() >= 4 && name.subrange(name.len() - 3, name.len() as int) == ".go"@
}

/// Decides whether the source formatter should touch the file named `name`.
pub fn is_go_file(name: &str) -> (r: bool)
    ensures
        r == spec_is_go_file(name@),
{
    proof {
        reveal_strlit(".go");
    }
    let n = name.unicode_len();
    if n < 4 {
        return false;
    }
    let c1 = name.get_char(n - 3);
    let c2 = name.get_char(n - 2);
    let c3 = name.get_char(n - 1);
    let r = c1 == '.' && c2 == 'g' && c3 == 'o';
    proof {
        let l = name@.len() as int;
        let sub = name@.subrange(l - 3, l);
        assert(sub.len() == 3);
        assert(sub[0] == name@[l - 3] && sub[1] == name@[l - 2] && sub[2] == name@[l - 1]);
        assert((".go"@)[0] == '.' && (".go"@)[1] == 'g' && (".go"@)[2] == 'o');
        if r {
            assert(sub =~= ".go"@);
        }
    }
    r
}

} // verus!
