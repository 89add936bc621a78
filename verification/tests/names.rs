use deft_quick_js::cstring::{make_cstring, CString};
use deft_quick_js::error::{NulErrorOf, ValueError};
use deft_quick_js::path::normalize;

fn resolved(base: &str, name: &str) -> String {
    String::from_utf8(normalize(base.as_bytes(), name.as_bytes())).unwrap()
}

#[test]
fn a_bare_name_stands_for_itself() {
    assert_eq!(resolved("a/b.js", "fib"), "fib");
    assert_eq!(resolved("a/b.js", "/abs/x.js"), "/abs/x.js");
    assert_eq!(resolved("a/b.js", ""), "");
    assert_eq!(resolved("a/b.js", "sys://fib"), "sys://fib");
}

#[test]
fn a_sibling_is_taken_from_the_directory() {
    assert_eq!(resolved("main.js", "./native_module"), "native_module");
    assert_eq!(resolved("test/main.js", "./util.js"), "test/util.js");
    assert_eq!(resolved("a/b/c.js", "././x"), "a/b/x");
    assert_eq!(resolved("a/b/c.js", "./"), "a/b/");
}

#[test]
fn a_parent_takes_elements_off() {
    assert_eq!(resolved("a/b/c.js", "../x"), "a/x");
    assert_eq!(resolved("a/b/c.js", "../../x"), "x");
    assert_eq!(resolved("a/b/c.js", ".././x"), "a/x");
    assert_eq!(resolved("a/b/c.js", "./../x"), "a/x");
    assert_eq!(resolved("/a/b.js", "../x"), "x");
}

#[test]
fn a_parent_that_is_not_there_stays() {
    assert_eq!(resolved("c.js", "../x"), "../x");
    assert_eq!(resolved("a/c.js", "../../x"), "../x");
    assert_eq!(resolved("../c.js", "../x"), "../../x");
    assert_eq!(resolved("./c.js", "../x"), "./../x");
    assert_eq!(resolved("a/../c.js", "../x"), "a/../../x");
}

#[test]
fn dots_that_are_no_prefix_stay() {
    assert_eq!(resolved("a/c.js", "."), "a/.");
    assert_eq!(resolved("a/c.js", ".."), "a/..");
    assert_eq!(resolved("a/c.js", ".hidden"), "a/.hidden");
    assert_eq!(resolved("a/c.js", "...x/y"), "a/...x/y");
    assert_eq!(resolved("...x/c.js", "../y"), "y");
}

#[test]
fn a_full_name_fits_its_block() {
    for (base, dir_len, name) in [
        ("a/b/c.js", 3, "./x"),
        ("a/b/c.js", 3, ".x"),
        ("c.js", 0, "./x"),
        ("a/b/c.js", 3, "../../../x"),
    ] {
        assert!(resolved(base, name).len() + 1 <= dir_len + name.len() + 2);
    }
    assert_eq!(resolved("a/b/c.js", ".x").len() + 1, 3 + 2 + 2);
}

#[test]
fn bytes_without_zero_are_taken() {
    let text = make_cstring(b"abc".to_vec()).unwrap();
    assert_eq!(text.as_bytes(), b"abc");
    assert_eq!(text.duplicate(), text);
    assert_eq!(make_cstring(Vec::new()).unwrap(), CString::empty());
}

#[test]
fn the_first_zero_byte_is_reported() {
    assert_eq!(
        make_cstring(vec![65, 66, 0, 67, 0]),
        Err(ValueError::StringWithZeroBytes(NulErrorOf {
            position: 2,
            bytes: vec![65, 66, 0, 67, 0],
        }))
    );
    assert_eq!(
        make_cstring(vec![0]),
        Err(ValueError::StringWithZeroBytes(NulErrorOf { position: 0, bytes: vec![0] }))
    );
}
