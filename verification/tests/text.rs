use edg::hashing::{content_hash, staged_path};
use edg::strutil::{escape_literal, str_eq, str_ends_with, str_starts_with, u64_to_dec};
use edg::synth::{aux_program, splice_expr};

#[test]
fn str_eq_agrees_with_eq() {
    assert!(str_eq("abc", "abc"));
    assert!(!str_eq("abc", "abd"));
    assert!(!str_eq("abc", "abcd"));
    assert!(str_eq("", ""));
}

#[test]
fn prefix_and_suffix_tests() {
    assert!(str_starts_with("--emit=metadata", "--emit"));
    assert!(!str_starts_with("--e", "--emit"));
    assert!(str_ends_with("lib.rs", ".rs"));
    assert!(!str_ends_with("rs", ".rs"));
}

#[test]
fn decimal_rendering() {
    assert_eq!(u64_to_dec(0), "0");
    assert_eq!(u64_to_dec(42), "42");
    assert_eq!(u64_to_dec(10_000_000_019), "10000000019");
    assert_eq!(u64_to_dec(u64::MAX), "18446744073709551615");
}

#[test]
fn escaping_quotes_and_backslashes() {
    assert_eq!(escape_literal("plain"), "plain");
    assert_eq!(escape_literal("say \"hi\""), "say \\\"hi\\\"");
    assert_eq!(escape_literal("a\\b"), "a\\\\b");
    assert_eq!(escape_literal("{\"k\":\"v\"}"), "{\\\"k\\\":\\\"v\\\"}");
}

#[test]
fn hashing_is_deterministic_and_content_addressed() {
    assert_eq!(content_hash("i32", "7 * 6"), content_hash("i32", "7 * 6"));
    let a = staged_path("target", "i32", "7 * 6");
    let b = staged_path("target", "i32", "7 * 6");
    assert_eq!(a, b);
    assert!(a.starts_with("target/edg-"));
    assert!(a.ends_with(".rs"));
}

#[test]
fn declared_type_is_part_of_the_staging_key() {
    let a = staged_path("target", "i32", "7 * 6");
    let b = staged_path("target", "u64", "7 * 6");
    assert_ne!(a, b);
}

#[test]
fn aux_program_wraps_body_and_serializes() {
    let src = aux_program("i32", "7 * 6");
    assert_eq!(
        src,
        "fn main() {\n    let res: i32 =\n7 * 6\n;\n    let ser = serde_json::to_string(&res).expect(\"serialization failed\");\n    print!(\"{ser}\");\n}\n"
    );
}

#[test]
fn splice_expr_embeds_escaped_capture_twice() {
    let expr = splice_expr("String", "\"hi\"");
    assert_eq!(
        expr,
        "::serde_json::from_str::<String>(\"\\\"hi\\\"\").expect(&format!(\"deser of expr ({}) failed (bug in `Deserialize` impl)\", \"\\\"hi\\\"\"))"
    );
}
