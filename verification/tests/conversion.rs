use htmd_py::convert_html;
use htmd_py::create_options_with_skip_tags;
use htmd_py::error::HtmdError;
use htmd_py::options::PyOptions;

#[test]
fn converts_heading_with_default_options() {
    assert_eq!(convert_html("<h1>Hello</h1>", None).unwrap(), "# Hello");
}

#[test]
fn default_options_convert_as_no_options() {
    let html = "<h1>Title</h1><p>Some <b>bold</b> text and <a href=\"/x\">a link</a>.</p><hr/><ul><li>one</li></ul>";
    let with = convert_html(html, Some(PyOptions::new())).unwrap();
    let without = convert_html(html, None).unwrap();
    assert_eq!(with, without);
}

#[test]
fn hr_style_by_name() {
    let mut o = PyOptions::new();
    assert_eq!(convert_html("Hi <hr/> there", Some(o.clone())).unwrap(), "Hi\n\n* * *\n\nthere");
    o.hr_style = "dashes".to_string();
    assert_eq!(convert_html("Hi <hr/> there", Some(o.clone())).unwrap(), "Hi\n\n- - -\n\nthere");
    o.hr_style = "underscores".to_string();
    assert_eq!(convert_html("Hi <hr/> there", Some(o)).unwrap(), "Hi\n\n_ _ _\n\nthere");
}

#[test]
fn unknown_style_name_falls_back_to_default() {
    let mut o = PyOptions::new();
    o.hr_style = "wavy".to_string();
    assert_eq!(convert_html("Hi <hr/> there", Some(o)).unwrap(), "Hi\n\n* * *\n\nthere");
}

#[test]
fn br_style_backslash() {
    let mut o = PyOptions::new();
    o.br_style = "backslash".to_string();
    assert_eq!(convert_html("Hi<br>there", Some(o)).unwrap(), "Hi\\\nthere");
    assert_eq!(convert_html("Hi<br>there", None).unwrap(), "Hi  \nthere");
}

#[test]
fn skip_tags_leave_elements_out() {
    let o = create_options_with_skip_tags(vec!["img".to_string()]).unwrap();
    assert_eq!(o.skip_tags, vec!["img".to_string()]);
    assert_eq!(o.heading_style, "atx");
    assert_eq!(
        convert_html("<img src=\"https://example.com\">", Some(o)).unwrap(),
        ""
    );
}

#[test]
fn empty_skip_tags_change_nothing() {
    let o = create_options_with_skip_tags(Vec::new()).unwrap();
    let html = "<p>a <img src=\"x.png\" alt=\"pic\"> b</p>";
    assert_eq!(convert_html(html, Some(o)).unwrap(), convert_html(html, None).unwrap());
}

#[test]
fn image_placeholder_substitutes_trimmed_alt() {
    let mut o = PyOptions::new();
    o.image_placeholder = Some("[image: {alt}]".to_string());
    assert_eq!(
        convert_html("<p><img src=\"a.png\" alt=\" cat \"></p>", Some(o)).unwrap(),
        "[image: cat]"
    );
}

#[test]
fn drop_empty_alt_images_with_default_rendering() {
    let mut o = PyOptions::new();
    o.drop_empty_alt_images = true;
    assert_eq!(
        convert_html("<p>a<img src=\"x.png\">b</p>", Some(o.clone())).unwrap(),
        "ab"
    );
    assert_eq!(
        convert_html("<p><img src=\"x.png\" alt=\"pic\"></p>", Some(o)).unwrap(),
        "![pic](x.png)"
    );
}

#[test]
fn drop_empty_alt_images_with_placeholder() {
    let mut o = PyOptions::new();
    o.drop_empty_alt_images = true;
    o.image_placeholder = Some("<{alt}>".to_string());
    assert_eq!(
        convert_html("<p>a<img src=\"x.png\" alt=\"  \">b<img src=\"y.png\" alt=\"dog\"></p>", Some(o)).unwrap(),
        "ab<dog>"
    );
}

#[test]
fn image_only_links_unwrapped() {
    let html = "<p><a href=\"/x\"><img src=\"i.png\" alt=\"pic\"></a></p>";
    assert_eq!(convert_html(html, None).unwrap(), "[![pic](i.png)](/x)");
    let mut o = PyOptions::new();
    o.drop_image_only_links = true;
    assert_eq!(convert_html(html, Some(o)).unwrap(), "![pic](i.png)");
}

#[test]
fn text_links_kept_when_unwrapping_image_links() {
    let mut o = PyOptions::new();
    o.drop_image_only_links = true;
    assert_eq!(
        convert_html("<p><a href=\"/x\">text</a></p>", Some(o)).unwrap(),
        "[text](/x)"
    );
}

#[test]
fn image_only_links_unwrapped_with_placeholder() {
    let mut o = PyOptions::new();
    o.drop_image_only_links = true;
    o.image_placeholder = Some("[img {alt}]".to_string());
    assert_eq!(
        convert_html("<p><a href=\"/x\"><img src=\"i.png\" alt=\"pic\"></a></p>", Some(o)).unwrap(),
        "[img pic]"
    );
}

#[test]
fn error_messages() {
    assert_eq!(HtmdError::Conversion("bad".to_string()).message(), "Conversion error: bad");
    assert_eq!(
        HtmdError::InvalidSelector { selector: "[[".to_string(), reason: "oops".to_string() }.message(),
        "invalid CSS selector '[[': oops"
    );
    assert_eq!(HtmdError::Rewrite("x".to_string()).message(), "lol_html rewrite failed: x");
}
