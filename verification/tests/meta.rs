use playground::meta::build_info;

#[test]
fn build_meta_contents() {
    let description =
        String::from("artichoke 0.1.0-pre.0 (2021-08-27 revision 4731) [x86_64-unknown-linux-gnu]");
    let compiler = String::from("rustc 1.54.0 (a178d0322 2021-07-26) on x86_64-unknown-linux-gnu");
    let meta = build_info(Some(description), Some(compiler));
    assert!(meta.starts_with("artichoke 0.1.0-pre.0 ("));
    assert_eq!(meta.lines().count(), 2);
    let compiler_meta = meta.lines().nth(1).unwrap();
    assert!(compiler_meta.starts_with("[rustc 1.54.0 (a178d0322 2021-07-26) on "));
}

#[test]
fn build_info_puts_compiler_in_brackets_on_second_line() {
    let meta = build_info(Some(String::from("ruby")), Some(String::from("rustc")));
    assert_eq!(meta, "ruby\n[rustc]");
}

#[test]
fn build_info_without_answers_is_empty_brackets() {
    assert_eq!(build_info(None, None), "\n[]");
    assert_eq!(build_info(Some(String::from("ruby")), None), "ruby\n[]");
    assert_eq!(build_info(None, Some(String::from("rustc"))), "\n[rustc]");
}
