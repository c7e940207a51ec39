use htmd_py::error::HtmdError;
use htmd_py::footnote::{
    footnote_regex, postprocess_footnote_markers, rewrite_footnote_markers,
    try_postprocess_footnote_markers, FOOTNOTE_PATTERN,
};
use htmd_py::preprocess::preprocess_selectors;

#[test]
fn drops_matched_elements() {
    let out = preprocess_selectors(
        "<div><p>keep</p><nav class=\"navbox\">menu <b>x</b></nav></div>",
        vec!["nav".to_string()],
    )
    .unwrap();
    assert_eq!(out, "<div><p>keep</p></div>");
}

#[test]
fn drops_by_attribute_substring() {
    let out = preprocess_selectors(
        "<p>a</p><span class=\"mw-editsection\">[edit]</span><p>b</p>",
        vec!["p.none".to_string(), "[class*=\"editsection\"]".to_string()],
    )
    .unwrap();
    assert_eq!(out, "<p>a</p><p>b</p>");
}

#[test]
fn no_selectors_leave_html_unchanged() {
    let html = "<p>a <i>b</i></p>";
    assert_eq!(preprocess_selectors(html, Vec::new()).unwrap(), html);
}

#[test]
fn first_invalid_selector_reported() {
    let res = preprocess_selectors(
        "<p>a</p>",
        vec!["p".to_string(), "[[[".to_string(), "##".to_string()],
    );
    match res {
        Err(HtmdError::InvalidSelector { selector, reason }) => {
            assert_eq!(selector, "[[[");
            assert!(!reason.is_empty());
        }
        other => panic!("unexpected result {:?}", other),
    }
}

#[test]
fn footnote_markers_rewritten() {
    let md = "Fact.[\\[1\\]](#cite_note-foo-1) More.[&#91;23&#93;](#cite_note-bar) End.";
    assert_eq!(postprocess_footnote_markers(md), "Fact.[^1] More.[^23] End.");
}

#[test]
fn other_links_untouched() {
    let md = "[\\[1\\]](#other) [text](#cite_note-x) [\\[a\\]](#cite_note-y)";
    assert_eq!(postprocess_footnote_markers(md), md);
}

#[test]
fn try_postprocess_agrees() {
    let md = "x[\\[7\\]](#cite_note-7)";
    assert_eq!(try_postprocess_footnote_markers(md), Some("x[^7]".to_string()));
}

#[test]
fn compiled_once_and_reused() {
    let re = footnote_regex().unwrap();
    assert_eq!(re.source(), FOOTNOTE_PATTERN);
    assert_eq!(rewrite_footnote_markers(&re, "a[&#91;3&#93;](#cite_note-c)"), "a[^3]");
    assert_eq!(rewrite_footnote_markers(&re, "b[\\[4\\]](#cite_note-d)"), "b[^4]");
}
