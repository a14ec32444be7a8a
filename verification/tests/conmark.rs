use bonaventure::conmark::confmt;
use bonaventure::conmark::conwrap;

#[test]
fn test_conwrap() {
    // textwrap has its own tests; the real question is whether we get output.
    assert_eq!(conwrap("ab cd", 80), "ab cd");
}

#[test]
fn test_confmt_trim() {
    assert_eq!(confmt("  abcd  "), "abcd");
}

#[test]
fn test_confmt_flatten() {
    assert_eq!(confmt("ab\ncd"), "ab cd");
}

#[test]
fn test_confmt_newline() {
    assert_eq!(confmt("ab|cd"), "ab\ncd");
}

#[test]
fn conwrap_breaks_long_lines() {
    assert_eq!(conwrap("ab cd ef", 5), "ab cd\nef");
}

#[test]
fn confmt_leaves_inner_blanks() {
    assert_eq!(confmt(" a  b|| c "), "a  b\n\n c");
}
