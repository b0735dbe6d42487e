use playground::REPL_FILENAME;

#[test]
fn repl_filename_does_not_contain_nul_byte() {
    let contains_nul_byte = REPL_FILENAME.iter().copied().any(|b| b == b'\0');
    assert!(!contains_nul_byte);
}

#[test]
fn repl_filename_is_playground_in_parentheses() {
    assert_eq!(&REPL_FILENAME[..], &b"(playground)"[..]);
}
