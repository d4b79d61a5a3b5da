//! The program synthesizer and the result splicer: the auxiliary source
//! text that computes and serializes the expression's value, the spliced
//! replacement expression that deserializes it at the host program's own
//! runtime, and the diagnostic messages of the failing exit paths.

use vstd::prelude::*;
use vstd::string::*;

use crate::strutil::{escape_literal, spec_escaped};

verus! {

/// The source text of the auxiliary program for a declared type and a
/// body: a standalone program that evaluates the body as an expression
/// of the declared type, serializes the value with the transport codec,
/// and writes the serialized text to its standard output.
pub open spec fn spec_aux_program(ty: Seq<char>, body: Seq<char>) -> Seq<char> {
    "fn main() {\n    let res: "@ + ty + " =\n"@ + body
        + "\n;\n    let ser = serde_json::to_string(&res).expect(\"serialization failed\");\n    print!(\"{ser}\");\n}\n"@
}

/// Synthesizes the auxiliary program, specified by `spec_aux_program`.
pub fn aux_program(ty: &str, body: &str) -> (r: String)
    ensures
        r@ == spec_aux_program(ty@, body@),
{
    let mut r = String::new();
    r.append("fn main() {\n    let res: ");
    r.append(ty);
    r.append(" =\n");
    r.append(body);
    r.append(
        "\n;\n    let ser = serde_json::to_string(&res).expect(\"serialization failed\");\n    print!(\"{ser}\");\n}\n",
    );
    proof {
        assert(r@ =~= spec_aux_program(ty@, body@));
    }
    r
}

/// The replacement expression for a declared type and a captured output
/// text: it deserializes the text with the transport codec at the host
/// program's runtime and fails fatally, quoting the raw text, if
/// deserialization fails. The captured text stands escaped inside two
/// string literals.
pub open spec fn spec_splice_expr(ty: Seq<char>, captured: Seq<char>) -> Seq<char> {
    "::serde_json::from_str::<"@ + ty + ">(\""@ + spec_escaped(captured)
        + "\").expect(&format!(\"deser of expr ({}) failed (bug in `Deserialize` impl)\", \""@
        + spec_escaped(captured) + "\"))"@
}

/// Builds the replacement expression, specified by `spec_splice_expr`.
pub fn splice_expr(ty: &str, captured: &str) -> (r: String)
    ensures
        r@ == spec_splice_expr(ty@, captured@),
{
    let esc = escape_literal(captured);
    let mut r = String::new();
    r.append("::serde_json::from_str::<");
    r.append(ty);
    r.append(">(\"");
    r.append(esc.as_str());
    r.append("\").expect(&format!(\"deser of expr ({}) failed (bug in `Deserialize` impl)\", \"");
    r.append(esc.as_str());
    r.append("\"))");
    proof {
        assert(r@ =~= spec_splice_expr(ty@, captured@));
    }
    r
}

/// The replacement expression embeds the captured text, escaped, right
/// after the deserialize call's opening quote; with the escaping being
/// lossless (`lemma_escape_round_trip`), the capture survives the
/// embedding unchanged.
pub proof fn lemma_splice_embeds_capture(ty: Seq<char>, captured: Seq<char>)
    ensures
        ({
            let pre = "::serde_json::from_str::<"@.len() + ty.len() + ">(\""@.len();
            spec_splice_expr(ty, captured).subrange(
                pre as int,
                pre as int + spec_escaped(captured).len() as int,
            ) == spec_escaped(captured)
        }),
{
    let pre = "::serde_json::from_str::<"@.len() + ty.len() + ">(\""@.len();
    assert(spec_splice_expr(ty, captured).subrange(
        pre as int,
        pre as int + spec_escaped(captured).len() as int,
    ) =~= spec_escaped(captured));
}

/// The diagnostic for an expression whose declared result type is
/// omitted.
pub open spec fn spec_missing_type_msg() -> Seq<char> {
    "specify return type of closure"@
}

/// The diagnostic for a toolchain invocation that exited nonzero; it
/// carries the captured error stream verbatim.
pub open spec fn spec_compile_failed_msg(stderr: Seq<char>) -> Seq<char> {
    "could not compile comptime expr:\n\n"@ + stderr + "\n"@
}

/// The diagnostic for an auxiliary program run that exited nonzero; it
/// carries the captured error stream verbatim.
pub open spec fn spec_run_failed_msg(stderr: Seq<char>) -> Seq<char> {
    "could not run comptime expr:\n\n"@ + stderr + "\n"@
}

/// The diagnostic for captured output that is not valid text, distinct
/// from the two process-failure diagnostics.
pub open spec fn spec_not_utf8_msg() -> Seq<char> {
    "comptime expr output was not utf8"@
}

/// Builds the compile-failure diagnostic, specified by
/// `spec_compile_failed_msg`.
pub fn compile_failed_msg(stderr: &str) -> (r: String)
    ensures
        r@ == spec_compile_failed_msg(stderr@),
{
    let mut r = String::new();
    r.append("could not compile comptime expr:\n\n");
    r.append(stderr);
    r.append("\n");
    proof {
        assert(r@ =~= spec_compile_failed_msg(stderr@));
    }
    r
}

/// Builds the run-failure diagnostic, specified by
/// `spec_run_failed_msg`.
pub fn run_failed_msg(stderr: &str) -> (r: String)
    ensures
        r@ == spec_run_failed_msg(stderr@),
{
    let mut r = String::new();
    r.append("could not run comptime expr:\n\n");
    r.append(stderr);
    r.append("\n");
    proof {
        assert(r@ =~= spec_run_failed_msg(stderr@));
    }
    r
}

/// The compile-failure diagnostic carries the compiler's error stream
/// verbatim: the text after the fixed preamble starts with the captured
/// stream, character for character.
pub proof fn lemma_compile_diagnostic_carries_stderr(stderr: Seq<char>)
    ensures
        ({
            let p = "could not compile comptime expr:\n\n"@.len() as int;
            spec_compile_failed_msg(stderr).subrange(p, p + stderr.len()) == stderr
        }),
{
    let p = "could not compile comptime expr:\n\n"@.len() as int;
    assert(spec_compile_failed_msg(stderr).subrange(p, p + stderr.len()) =~= stderr);
}

} // verus!
