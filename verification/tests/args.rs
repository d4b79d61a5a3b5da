use edg::args::{extra_filename, filter_rustc_args, merge_externs};

fn strings(xs: &[&str]) -> Vec<String> {
    xs.iter().map(|s| s.to_string()).collect()
}

#[test]
fn filter_drops_leading_positional() {
    let args = strings(&["/toolchain/rustc", "--edition=2021"]);
    assert_eq!(filter_rustc_args(&args), strings(&["--edition=2021"]));
}

#[test]
fn filter_drops_current_artifact_flags_with_values() {
    let args = strings(&[
        "rustc-path",
        "--crate-name",
        "host",
        "--crate-type",
        "lib",
        "-o",
        "out/host",
        "--extern",
        "serde=libserde.rlib",
        "-O",
    ]);
    assert_eq!(filter_rustc_args(&args), strings(&["-O"]));
}

#[test]
fn filter_drops_source_test_and_emit_flags() {
    let args = strings(&[
        "rustc-path",
        "src/lib.rs",
        "--emit=dep-info,metadata",
        "--test",
        "rustc",
        "--cfg",
        "feature=\"extra\"",
    ]);
    assert_eq!(filter_rustc_args(&args), strings(&["--cfg", "feature=\"extra\""]));
}

#[test]
fn filter_ignores_bare_dash_without_disturbing_skip() {
    let args = strings(&["rustc-path", "--extern", "-", "serde=libserde.rlib", "-O"]);
    assert_eq!(filter_rustc_args(&args), strings(&["-O"]));
}

#[test]
fn filter_keeps_target_and_search_paths() {
    let args = strings(&[
        "rustc-path",
        "--target",
        "x86_64-unknown-linux-gnu",
        "-L",
        "dependency=target/debug/deps",
    ]);
    assert_eq!(
        filter_rustc_args(&args),
        strings(&["--target", "x86_64-unknown-linux-gnu", "-L", "dependency=target/debug/deps"])
    );
}

#[test]
fn merge_reemits_each_extern_pair() {
    let args = strings(&[
        "rustc-path",
        "--extern",
        "serde=libserde.rlib",
        "-O",
        "--extern",
        "quote=libquote.rlib",
    ]);
    assert_eq!(
        merge_externs(&args),
        strings(&["--extern", "serde=libserde.rlib", "--extern", "quote=libquote.rlib"])
    );
}

#[test]
fn merge_returns_empty_without_externs() {
    let args = strings(&["rustc-path", "-O", "--edition=2021"]);
    assert_eq!(merge_externs(&args), Vec::<String>::new());
}

#[test]
fn merge_takes_following_extern_as_value_even_if_it_is_the_flag() {
    let args = strings(&["--extern", "--extern", "x"]);
    assert_eq!(merge_externs(&args), strings(&["--extern", "--extern"]));
}

#[test]
fn extra_filename_reads_between_first_and_second_eq() {
    let args = strings(&["rustc-path", "-C", "extra-filename=-4fe8d1c8a7a2b011", "-O"]);
    assert_eq!(extra_filename(&args), "-4fe8d1c8a7a2b011");
}

#[test]
fn extra_filename_stops_at_second_eq() {
    let args = strings(&["extra-filename=-abc=tail"]);
    assert_eq!(extra_filename(&args), "-abc");
}

#[test]
fn extra_filename_empty_when_absent() {
    let args = strings(&["rustc-path", "-O"]);
    assert_eq!(extra_filename(&args), "");
}
