use htmd_py::handlers::{find_attribute, image_answer, image_prefix_of, link_answer, Response};
use htmd_py::text::{chars_of, prefix_before, replace_chars, trim_str, white_space};

#[test]
fn trims_unicode_whitespace() {
    assert_eq!(trim_str("  a b \n\t"), "a b");
    assert_eq!(trim_str("\u{3000}x\u{a0}"), "x");
    assert_eq!(trim_str(" \n "), "");
    assert_eq!(trim_str("abc"), "abc");
}

#[test]
fn whitespace_agrees_with_std() {
    for c in ['\t', '\n', ' ', '\u{85}', '\u{a0}', '\u{1680}', '\u{2000}', '\u{200a}', '\u{2028}', '\u{202f}', '\u{205f}', '\u{3000}', 'a', '\u{200b}', '\u{180e}', '0'] {
        assert_eq!(white_space(c), c.is_whitespace(), "{:?}", c);
    }
}

#[test]
fn replaces_every_occurrence() {
    let s = chars_of("a{alt}b{alt}{alt");
    let p = chars_of("{alt}");
    assert_eq!(replace_chars(&s, &p, "X"), "aXbX{alt");
    assert_eq!(replace_chars(&chars_of("none"), &p, "X"), "none");
}

#[test]
fn prefix_before_marker() {
    let p = chars_of("{alt}");
    assert_eq!(prefix_before(&chars_of("[img: {alt}]"), &p), "[img: ");
    assert_eq!(prefix_before(&chars_of("no marker"), &p), "no marker");
    assert_eq!(prefix_before(&chars_of("{alt} first"), &p), "");
}

#[test]
fn image_prefix_defaults_to_markdown_marker() {
    assert_eq!(image_prefix_of(&None), "![");
    assert_eq!(image_prefix_of(&Some("<<{alt}>>".to_string())), "<<");
}

#[test]
fn first_attribute_wins() {
    let attrs = vec![
        ("src".to_string(), "x".to_string()),
        ("alt".to_string(), "one".to_string()),
        ("alt".to_string(), "two".to_string()),
    ];
    assert_eq!(find_attribute(&attrs, "alt"), "one");
    assert_eq!(find_attribute(&attrs, "title"), "");
}

#[test]
fn image_answers() {
    let template = Some("({alt})".to_string());
    let with_alt = vec![("alt".to_string(), "  cat ".to_string())];
    let blank_alt = vec![("alt".to_string(), "   ".to_string())];
    assert_eq!(image_answer(&template, true, &with_alt), Response::Emit("(cat)".to_string()));
    assert_eq!(image_answer(&template, true, &Vec::new()), Response::Emit(String::new()));
    assert_eq!(image_answer(&template, true, &blank_alt), Response::Emit(String::new()));
    assert_eq!(image_answer(&template, false, &Vec::new()), Response::Emit("()".to_string()));
    assert_eq!(image_answer(&None, true, &with_alt), Response::Fallback);
    assert_eq!(image_answer(&None, true, &blank_alt), Response::Emit(String::new()));
    assert_eq!(image_answer(&None, false, &blank_alt), Response::Fallback);
}

#[test]
fn link_answers() {
    let prefix = "![".to_string();
    let inner = " ![a](b.png) ".to_string();
    assert_eq!(link_answer(&prefix, &inner), Response::Emit(inner.clone()));
    assert_eq!(link_answer(&prefix, &"text".to_string()), Response::Fallback);
    assert_eq!(link_answer(&prefix, &"  ".to_string()), Response::Emit("  ".to_string()));
    assert_eq!(link_answer(&String::new(), &"text".to_string()), Response::Fallback);
}
