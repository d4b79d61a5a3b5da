//! The argument translator: derives the flag set for the auxiliary
//! program's toolchain invocation from the flags the current build step
//! received, and re-extracts the external-binding flags verbatim.

use vstd::prelude::*;
use vstd::string::*;
use crate::strutil::{
    is_prefix, is_suffix, spec_find_char_from, str_eq, str_ends_with, str_starts_with,
    find_char_from, lemma_find_char_from_bounds,
};

verus! {

/// The views of a list of argument strings.
pub open spec fn views(args: Seq<String>) -> Seq<Seq<char>> {
    args.map_values(|s: String| s@)
}

/// An argument that, when kept, takes its following argument with it:
/// these flags describe the current build artifact and are overridden
/// explicitly for the auxiliary program.
pub open spec fn consumes_next(a: Seq<char>) -> bool {
    a == "--crate-type"@ || a == "--crate-name"@ || a == "--extern"@ || a == "-o"@
}

/// An argument dropped on its own: the current step's source file, test
/// mode, the literal toolchain name, or an emission-format flag.
pub open spec fn dropped_alone(a: Seq<char>) -> bool {
    is_suffix(a, ".rs"@) || a == "--test"@ || a == "rustc"@ || is_prefix(a, "--emit"@)
}

/// The flags kept for the auxiliary invocation, scanning from position `i`.
/// `skip` records that the previous argument consumed this one; it starts
/// true so that the leading positional argument (the invoking toolchain's
/// own path) is dropped. A bare `-` is ignored without disturbing `skip`.
pub open spec fn spec_filter_from(args: Seq<Seq<char>>, i: int, skip: bool) -> Seq<Seq<char>>
    decreases args.len() - i when 0 <= i <= args.len()
{
    if i >= args.len() {
        Seq::empty()
    } else {
        let a = args[i];
        if a == "-"@ {
            spec_filter_from(args, i + 1, skip)
        } else if skip {
            spec_filter_from(args, i + 1, false)
        } else if consumes_next(a) {
            spec_filter_from(args, i + 1, true)
        } else if dropped_alone(a) {
            spec_filter_from(args, i + 1, skip)
        } else {
            seq![a] + spec_filter_from(args, i + 1, skip)
        }
    }
}

/// The full translated flag list for an invocation context.
pub open spec fn spec_filter_rustc_args(args: Seq<Seq<char>>) -> Seq<Seq<char>> {
    spec_filter_from(args, 0, true)
}

/// Keeps the flags of the current invocation context that the auxiliary
/// program's toolchain invocation should reuse, dropping the leading
/// positional argument, the flags that name the current build artifact
/// (with their values), the current source file, test-mode flags and
/// emission-format flags.
pub fn filter_rustc_args(args: &Vec<String>) -> (r: Vec<String>)
    ensures
        views(r@) == spec_filter_rustc_args(views(args@)),
{
    let ghost av = views(args@);
    let mut r: Vec<String> = Vec::new();
    let mut skip = true;
    let mut i: usize = 0;
    proof {
        assert(views(r@) + spec_filter_from(av, 0, true) =~= spec_filter_from(av, 0, true));
    }
    while i < args.len()
        invariant
            av == views(args@),
            i <= args.len(),
            views(r@) + spec_filter_from(av, i as int, skip) == spec_filter_rustc_args(av),
        decreases args.len() - i,
    {
        let arg: &String = &args[i];
        proof {
            assert(av[i as int] == arg@);
        }
        let ghost pre = views(r@);
        if str_eq(arg.as_str(), "-") {
            proof {
                assert(pre + spec_filter_from(av, i + 1, skip) =~= spec_filter_rustc_args(av));
            }
        } else if skip {
            skip = false;
            proof {
                assert(pre + spec_filter_from(av, i + 1, false) =~= spec_filter_rustc_args(av));
            }
        } else if str_eq(arg.as_str(), "--crate-type") || str_eq(arg.as_str(), "--crate-name")
            || str_eq(arg.as_str(), "--extern") || str_eq(arg.as_str(), "-o") {
            skip = true;
            proof {
                assert(pre + spec_filter_from(av, i + 1, true) =~= spec_filter_rustc_args(av));
            }
        } else if str_ends_with(arg.as_str(), ".rs") || str_eq(arg.as_str(), "--test")
            || str_eq(arg.as_str(), "rustc") || str_starts_with(arg.as_str(), "--emit") {
            proof {
                assert(pre + spec_filter_from(av, i + 1, skip) =~= spec_filter_rustc_args(av));
            }
        } else {
            r.push(arg.clone());
            proof {
                assert(views(r@) =~= pre + seq![arg@]);
                assert(views(r@) + spec_filter_from(av, i + 1, skip) =~= pre + (seq![arg@]
                    + spec_filter_from(av, i + 1, skip)));
                assert(spec_filter_from(av, i as int, skip) == seq![arg@] + spec_filter_from(
                    av,
                    i + 1,
                    skip,
                ));
            }
        }
        i += 1;
    }
    proof {
        assert(spec_filter_from(av, av.len() as int, skip) =~= Seq::<Seq<char>>::empty());
        assert(views(r@) =~= views(r@) + spec_filter_from(av, av.len() as int, skip));
    }
    r
}

/// The external-binding flags re-emitted for the auxiliary invocation,
/// scanning from position `i`. `found` records that the previous argument
/// was the binding flag itself, whose value is then re-emitted behind a
/// fresh copy of the flag.
pub open spec fn spec_merge_from(args: Seq<Seq<char>>, i: int, found: bool) -> Seq<Seq<char>>
    decreases args.len() - i when 0 <= i <= args.len()
{
    if i >= args.len() {
        Seq::empty()
    } else if found {
        seq!["--extern"@, args[i]] + spec_merge_from(args, i + 1, false)
    } else if args[i] == "--extern"@ {
        spec_merge_from(args, i + 1, true)
    } else {
        spec_merge_from(args, i + 1, false)
    }
}

/// The full re-emitted external-binding flag list.
pub open spec fn spec_merge_externs(args: Seq<Seq<char>>) -> Seq<Seq<char>> {
    spec_merge_from(args, 0, false)
}

/// Extracts every external-library binding `--extern <value>` from the
/// invocation context and re-emits the pair verbatim, so that the
/// auxiliary program resolves the same external libraries as the host.
pub fn merge_externs(args: &Vec<String>) -> (r: Vec<String>)
    ensures
        views(r@) == spec_merge_externs(views(args@)),
{
    let ghost av = views(args@);
    let mut r: Vec<String> = Vec::new();
    let mut found = false;
    let mut i: usize = 0;
    proof {
        assert(views(r@) + spec_merge_from(av, 0, false) =~= spec_merge_from(av, 0, false));
    }
    while i < args.len()
        invariant
            av == views(args@),
            i <= args.len(),
            views(r@) + spec_merge_from(av, i as int, found) == spec_merge_externs(av),
        decreases args.len() - i,
    {
        let arg: &String = &args[i];
        proof {
            assert(av[i as int] == arg@);
        }
        let ghost pre = views(r@);
        if found {
            found = false;
            r.push("--extern".to_owned());
            r.push(arg.clone());
            proof {
                assert(views(r@) =~= pre + seq!["--extern"@, arg@]);
                assert(views(r@) + spec_merge_from(av, i + 1, false) =~= pre + (seq![
                    "--extern"@,
                    arg@,
                ] + spec_merge_from(av, i + 1, false)));
            }
        } else if str_eq(arg.as_str(), "--extern") {
            found = true;
            proof {
                assert(pre + spec_merge_from(av, i + 1, true) =~= spec_merge_externs(av));
            }
        } else {
            proof {
                assert(pre + spec_merge_from(av, i + 1, false) =~= spec_merge_externs(av));
            }
        }
        i += 1;
    }
    proof {
        assert(spec_merge_from(av, av.len() as int, found) =~= Seq::<Seq<char>>::empty());
        assert(views(r@) =~= views(r@) + spec_merge_from(av, av.len() as int, found));
    }
    r
}

/// The text between the first and second `=` of `s` (to the end when
/// there is no second `=`).
pub open spec fn spec_between_eqs(s: Seq<char>) -> Seq<char> {
    let e1 = spec_find_char_from(s, '=', 0);
    if e1 == s.len() {
        Seq::empty()
    } else {
        let e2 = spec_find_char_from(s, '=', e1 + 1);
        s.subrange(e1 + 1, e2)
    }
}

/// The compiler-added suffix for produced artifacts, read from the first
/// argument carrying an `extra-filename=` binding, scanning from `i`;
/// empty when none occurs.
pub open spec fn spec_extra_filename_from(args: Seq<Seq<char>>, i: int) -> Seq<char>
    decreases args.len() - i when 0 <= i <= args.len()
{
    if i >= args.len() {
        Seq::empty()
    } else if is_prefix(args[i], "extra-filename="@) {
        spec_between_eqs(args[i])
    } else {
        spec_extra_filename_from(args, i + 1)
    }
}

/// The compiler-added artifact suffix of an invocation context.
pub open spec fn spec_extra_filename(args: Seq<Seq<char>>) -> Seq<char> {
    spec_extra_filename_from(args, 0)
}

fn between_eqs(s: &str) -> (r: String)
    ensures
        r@ == spec_between_eqs(s@),
{
    let e1 = find_char_from(s, '=', 0);
    proof {
        lemma_find_char_from_bounds(s@, '=', 0);
    }
    if e1 == s.unicode_len() {
        return String::new();
    }
    let e2 = find_char_from(s, '=', e1 + 1);
    let seg = s.substring_char(e1 + 1, e2);
    seg.to_owned()
}

/// Finds the first argument that starts with `extra-filename=` and
/// returns the text between that binding's first and second `=`;
/// returns the empty string when no argument carries the binding.
pub fn extra_filename(args: &Vec<String>) -> (r: String)
    ensures
        r@ == spec_extra_filename(views(args@)),
{
    let ghost av = views(args@);
    let mut i: usize = 0;
    while i < args.len()
        invariant
            av == views(args@),
            i <= args.len(),
            spec_extra_filename_from(av, i as int) == spec_extra_filename(av),
        decreases args.len() - i,
    {
        let arg: &String = &args[i];
        proof {
            assert(av[i as int] == arg@);
        }
        if str_starts_with(arg.as_str(), "extra-filename=") {
            return between_eqs(arg.as_str());
        }
        i += 1;
    }
    proof {
        assert(spec_extra_filename_from(av, av.len() as int) =~= Seq::<char>::empty());
    }
    String::new()
}

} // verus!
