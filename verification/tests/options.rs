use htmd_py::converter::default_markdown_options;
use htmd_py::options::PyOptions;
use htmd_py::style::{
    BrStyle, BulletListMarker, CodeBlockFence, CodeBlockStyle, HeadingStyle, HrStyle,
    LinkReferenceStyle, LinkStyle, MarkdownOptions, TranslationMode,
};

fn defaults() -> MarkdownOptions {
    MarkdownOptions {
        heading_style: HeadingStyle::Atx,
        hr_style: HrStyle::Asterisks,
        br_style: BrStyle::TwoSpaces,
        link_style: LinkStyle::Inlined,
        link_reference_style: LinkReferenceStyle::Full,
        code_block_style: CodeBlockStyle::Fenced,
        code_block_fence: CodeBlockFence::Backticks,
        bullet_list_marker: BulletListMarker::Asterisk,
        ul_bullet_spacing: 3,
        ol_number_spacing: 2,
        preformatted_code: false,
        translation_mode: TranslationMode::Pure,
    }
}

#[test]
fn htmd_defaults_read() {
    assert_eq!(default_markdown_options(), defaults());
}

#[test]
fn new_names_the_defaults() {
    let o = PyOptions::new();
    assert_eq!(o.heading_style, "atx");
    assert_eq!(o.hr_style, "asterisks");
    assert_eq!(o.br_style, "two_spaces");
    assert_eq!(o.link_style, "inlined");
    assert_eq!(o.link_reference_style, "full");
    assert_eq!(o.code_block_style, "fenced");
    assert_eq!(o.code_block_fence, "backticks");
    assert_eq!(o.bullet_list_marker, "asterisk");
    assert!(!o.preformatted_code);
    assert!(o.skip_tags.is_empty());
    assert_eq!(o.image_placeholder, None);
    assert!(!o.drop_empty_alt_images);
    assert!(!o.drop_image_only_links);
}

#[test]
fn default_names_round_trip() {
    assert_eq!(PyOptions::new().to_htmd_options(), defaults());
}

#[test]
fn every_name_chooses_its_style() {
    let mut o = PyOptions::new();
    o.heading_style = "setex".to_string();
    o.hr_style = "dashes".to_string();
    o.br_style = "backslash".to_string();
    o.link_style = "referenced".to_string();
    o.link_reference_style = "shortcut".to_string();
    o.code_block_style = "indented".to_string();
    o.code_block_fence = "tildes".to_string();
    o.bullet_list_marker = "dash".to_string();
    o.preformatted_code = true;
    let m = o.to_htmd_options();
    assert_eq!(m.heading_style, HeadingStyle::Setex);
    assert_eq!(m.hr_style, HrStyle::Dashes);
    assert_eq!(m.br_style, BrStyle::Backslash);
    assert_eq!(m.link_style, LinkStyle::Referenced);
    assert_eq!(m.link_reference_style, LinkReferenceStyle::Shortcut);
    assert_eq!(m.code_block_style, CodeBlockStyle::Indented);
    assert_eq!(m.code_block_fence, CodeBlockFence::Tildes);
    assert_eq!(m.bullet_list_marker, BulletListMarker::Dash);
    assert!(m.preformatted_code);
    assert_eq!(m.ul_bullet_spacing, 3);
    assert_eq!(m.ol_number_spacing, 2);
    assert_eq!(m.translation_mode, TranslationMode::Pure);
    o.hr_style = "underscores".to_string();
    o.link_reference_style = "collapsed".to_string();
    let m = o.to_htmd_options();
    assert_eq!(m.hr_style, HrStyle::Underscores);
    assert_eq!(m.link_reference_style, LinkReferenceStyle::Collapsed);
}

#[test]
fn unrecognised_names_choose_defaults() {
    let mut o = PyOptions::new();
    o.heading_style = "SETEX".to_string();
    o.hr_style = "".to_string();
    o.br_style = "two spaces".to_string();
    o.link_style = "inlined_prefer_autolinks".to_string();
    o.link_reference_style = "x".to_string();
    o.code_block_style = "indent".to_string();
    o.code_block_fence = "tilde".to_string();
    o.bullet_list_marker = "-".to_string();
    assert_eq!(o.to_htmd_options(), defaults());
}
