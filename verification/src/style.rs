//! The library's model of htmd's conversion options: one enum per style
//! option, the option record, and the string names by which options are
//! chosen.
use vstd::prelude::*;

verus! {

/// How headings are written.
#[derive(Clone, Copy, Debug, PartialEq, Eq)]
pub enum HeadingStyle {
    Atx,
    Setex,
}

/// How thematic breaks are written.
#[derive(Clone, Copy, Debug, PartialEq, Eq)]
pub enum HrStyle {
    Dashes,
    Asterisks,
    Underscores,
}

/// How hard line breaks are written.
#[derive(Clone, Copy, Debug, PartialEq, Eq)]
pub enum BrStyle {
    TwoSpaces,
    Backslash,
}

/// How links are written.
#[derive(Clone, Copy, Debug, PartialEq, Eq)]
pub enum LinkStyle {
    Inlined,
    InlinedPreferAutolinks,
    Referenced,
}

/// How link references are written.
#[derive(Clone, Copy, Debug, PartialEq, Eq)]
pub enum LinkReferenceStyle {
    Full,
    Collapsed,
    Shortcut,
}

/// How code blocks are written.
#[derive(Clone, Copy, Debug, PartialEq, Eq)]
pub enum CodeBlockStyle {
    Indented,
    Fenced,
}

/// Which fence surrounds a fenced code block.
#[derive(Clone, Copy, Debug, PartialEq, Eq)]
pub enum CodeBlockFence {
    Tildes,
    Backticks,
}

/// Which marker starts an unordered list item.
#[derive(Clone, Copy, Debug, PartialEq, Eq)]
pub enum BulletListMarker {
    Asterisk,
    Dash,
}

/// Whether HTML that Markdown cannot express is dropped or kept.
#[derive(Clone, Copy, Debug, PartialEq, Eq)]
pub enum TranslationMode {
    Pure,
    Faithful,
}

/// Every option of htmd's converter, as plain values.
#[derive(Clone, Copy, Debug, PartialEq, Eq)]
pub struct MarkdownOptions {
    pub heading_style: HeadingStyle,
    pub hr_style: HrStyle,
    pub br_style: BrStyle,
    pub link_style: LinkStyle,
    pub link_reference_style: LinkReferenceStyle,
    pub code_block_style: CodeBlockStyle,
    pub code_block_fence: CodeBlockFence,
    pub bullet_list_marker: BulletListMarker,
    pub ul_bullet_spacing: u8,
    pub ol_number_spacing: u8,
    pub preformatted_code: bool,
    pub translation_mode: TranslationMode,
}

// The name each style is chosen by.

pub open spec fn heading_style_name(s: HeadingStyle) -> Seq<char> {
    match s {
        HeadingStyle::Atx => "atx"@,
        HeadingStyle::Setex => "setex"@,
    }
}

pub open spec fn hr_style_name(s: HrStyle) -> Seq<char> {
    match s {
        HrStyle::Dashes => "dashes"@,
        HrStyle::Asterisks => "asterisks"@,
        HrStyle::Underscores => "underscores"@,
    }
}

pub open spec fn br_style_name(s: BrStyle) -> Seq<char> {
    match s {
        BrStyle::TwoSpaces => "two_spaces"@,
        BrStyle::Backslash => "backslash"@,
    }
}

/// The autolink-preferring variant is named like plain inlined links.
pub open spec fn link_style_name(s: LinkStyle) -> Seq<char> {
    match s {
        LinkStyle::Inlined => "inlined"@,
        LinkStyle::InlinedPreferAutolinks => "inlined"@,
        LinkStyle::Referenced => "referenced"@,
    }
}

pub open spec fn link_reference_style_name(s: LinkReferenceStyle) -> Seq<char> {
    match s {
        LinkReferenceStyle::Full => "full"@,
        LinkReferenceStyle::Collapsed => "collapsed"@,
        LinkReferenceStyle::Shortcut => "shortcut"@,
    }
}

pub open spec fn code_block_style_name(s: CodeBlockStyle) -> Seq<char> {
    match s {
        CodeBlockStyle::Indented => "indented"@,
        CodeBlockStyle::Fenced => "fenced"@,
    }
}

pub open spec fn code_block_fence_name(s: CodeBlockFence) -> Seq<char> {
    match s {
        CodeBlockFence::Tildes => "tildes"@,
        CodeBlockFence::Backticks => "backticks"@,
    }
}

pub open spec fn bullet_list_marker_name(s: BulletListMarker) -> Seq<char> {
    match s {
        BulletListMarker::Asterisk => "asterisk"@,
        BulletListMarker::Dash => "dash"@,
    }
}

// The style a name chooses; a name that is not recognised chooses the
// style that htmd uses by default.

pub open spec fn heading_style_named(name: Seq<char>) -> HeadingStyle {
    if name == "setex"@ {
        HeadingStyle::Setex
    } else {
        HeadingStyle::Atx
    }
}

pub open spec fn hr_style_named(name: Seq<char>) -> HrStyle {
    if name == "dashes"@ {
        HrStyle::Dashes
    } else if name == "underscores"@ {
        HrStyle::Underscores
    } else {
        HrStyle::Asterisks
    }
}

pub open spec fn br_style_named(name: Seq<char>) -> BrStyle {
    if name == "backslash"@ {
        BrStyle::Backslash
    } else {
        BrStyle::TwoSpaces
    }
}

pub open spec fn link_style_named(name: Seq<char>) -> LinkStyle {
    if name == "referenced"@ {
        LinkStyle::Referenced
    } else {
        LinkStyle::Inlined
    }
}

pub open spec fn link_reference_style_named(name: Seq<char>) -> LinkReferenceStyle {
    if name == "collapsed"@ {
        LinkReferenceStyle::Collapsed
    } else if name == "shortcut"@ {
        LinkReferenceStyle::Shortcut
    } else {
        LinkReferenceStyle::Full
    }
}

pub open spec fn code_block_style_named(name: Seq<char>) -> CodeBlockStyle {
    if name == "indented"@ {
        CodeBlockStyle::Indented
    } else {
        CodeBlockStyle::Fenced
    }
}

pub open spec fn code_block_fence_named(name: Seq<char>) -> CodeBlockFence {
    if name == "tildes"@ {
        CodeBlockFence::Tildes
    } else {
        CodeBlockFence::Backticks
    }
}

pub open spec fn bullet_list_marker_named(name: Seq<char>) -> BulletListMarker {
    if name == "dash"@ {
        BulletListMarker::Dash
    } else {
        BulletListMarker::Asterisk
    }
}

/// Whether `s` holds exactly the characters of `lit`.
fn is_named(s: &String, lit: &str) -> (res: bool)
    ensures
        res == (s@ == lit@),
{
    let l = String::from_str(lit);
    *s == l
}

pub fn heading_style_from_name(name: &String) -> (res: HeadingStyle)
    ensures
        res == heading_style_named(name@),
{
    if is_named(name, "setex") {
        HeadingStyle::Setex
    } else {
        HeadingStyle::Atx
    }
}

pub fn hr_style_from_name(name: &String) -> (res: HrStyle)
    ensures
        res == hr_style_named(name@),
{
    if is_named(name, "dashes") {
        HrStyle::Dashes
    } else if is_named(name, "underscores") {
        HrStyle::Underscores
    } else {
        HrStyle::Asterisks
    }
}

pub fn br_style_from_name(name: &String) -> (res: BrStyle)
    ensures
        res == br_style_named(name@),
{
    if is_named(name, "backslash") {
        BrStyle::Backslash
    } else {
        BrStyle::TwoSpaces
    }
}

pub fn link_style_from_name(name: &String) -> (res: LinkStyle)
    ensures
        res == link_style_named(name@),
{
    if is_named(name, "referenced") {
        LinkStyle::Referenced
    } else {
        LinkStyle::Inlined
    }
}

pub fn link_reference_style_from_name(name: &String) -> (res: LinkReferenceStyle)
    ensures
        res == link_reference_style_named(name@),
{
    if is_named(name, "collapsed") {
        LinkReferenceStyle::Collapsed
    } else if is_named(name, "shortcut") {
        LinkReferenceStyle::Shortcut
    } else {
        LinkReferenceStyle::Full
    }
}

pub fn code_block_style_from_name(name: &String) -> (res: CodeBlockStyle)
    ensures
        res == code_block_style_named(name@),
{
    if is_named(name, "indented") {
        CodeBlockStyle::Indented
    } else {
        CodeBlockStyle::Fenced
    }
}

pub fn code_block_fence_from_name(name: &String) -> (res: CodeBlockFence)
    ensures
        res == code_block_fence_named(name@),
{
    if is_named(name, "tildes") {
        CodeBlockFence::Tildes
    } else {
        CodeBlockFence::Backticks
    }
}

pub fn bullet_list_marker_from_name(name: &String) -> (res: BulletListMarker)
    ensures
        res == bullet_list_marker_named(name@),
{
    if is_named(name, "dash") {
        BulletListMarker::Dash
    } else {
        BulletListMarker::Asterisk
    }
}

pub fn heading_style_to_name(s: HeadingStyle) -> (res: String)
    ensures
        res@ == heading_style_name(s),
{
    match s {
        HeadingStyle::Atx => String::from_str("atx"),
        HeadingStyle::Setex => String::from_str("setex"),
    }
}

pub fn hr_style_to_name(s: HrStyle) -> (res: String)
    ensures
        res@ == hr_style_name(s),
{
    match s {
        HrStyle::Dashes => String::from_str("dashes"),
        HrStyle::Asterisks => String::from_str("asterisks"),
        HrStyle::Underscores => String::from_str("underscores"),
    }
}

pub fn br_style_to_name(s: BrStyle) -> (res: String)
    ensures
        res@ == br_style_name(s),
{
    match s {
        BrStyle::TwoSpaces => String::from_str("two_spaces"),
        BrStyle::Backslash => String::from_str("backslash"),
    }
}

pub fn link_style_to_name(s: LinkStyle) -> (res: String)
    ensures
        res@ == link_style_name(s),
{
    match s {
        LinkStyle::Inlined => String::from_str("inlined"),
        LinkStyle::Referenced => String::from_str("referenced"),
        LinkStyle::InlinedPreferAutolinks => String::from_str("inlined"),
    }
}

pub fn link_reference_style_to_name(s: LinkReferenceStyle) -> (res: String)
    ensures
        res@ == link_reference_style_name(s),
{
    match s {
        LinkReferenceStyle::Full => String::from_str("full"),
        LinkReferenceStyle::Collapsed => String::from_str("collapsed"),
        LinkReferenceStyle::Shortcut => String::from_str("shortcut"),
    }
}

pub fn code_block_style_to_name(s: CodeBlockStyle) -> (res: String)
    ensures
        res@ == code_block_style_name(s),
{
    match s {
        CodeBlockStyle::Indented => String::from_str("indented"),
        CodeBlockStyle::Fenced => String::from_str("fenced"),
    }
}

pub fn code_block_fence_to_name(s: CodeBlockFence) -> (res: String)
    ensures
        res@ == code_block_fence_name(s),
{
    match s {
        CodeBlockFence::Tildes => String::from_str("tildes"),
        CodeBlockFence::Backticks => String::from_str("backticks"),
    }
}

pub fn bullet_list_marker_to_name(s: BulletListMarker) -> (res: String)
    ensures
        res@ == bullet_list_marker_name(s),
{
    match s {
        BulletListMarker::Asterisk => String::from_str("asterisk"),
        BulletListMarker::Dash => String::from_str("dash"),
    }
}

/// Each style's name chooses that style again; the one exception is the
/// autolink-preferring link style, whose name chooses plain inlined links.
pub proof fn lemma_names_choose_their_style(
    h: HeadingStyle,
    hr: HrStyle,
    br: BrStyle,
    l: LinkStyle,
    lr: LinkReferenceStyle,
    cs: CodeBlockStyle,
    cf: CodeBlockFence,
    b: BulletListMarker,
)
    ensures
        heading_style_named(heading_style_name(h)) == h,
        hr_style_named(hr_style_name(hr)) == hr,
        br_style_named(br_style_name(br)) == br,
        l != LinkStyle::InlinedPreferAutolinks ==> link_style_named(link_style_name(l)) == l,
        link_style_named(link_style_name(LinkStyle::InlinedPreferAutolinks)) == LinkStyle::Inlined,
        link_reference_style_named(link_reference_style_name(lr)) == lr,
        code_block_style_named(code_block_style_name(cs)) == cs,
        code_block_fence_named(code_block_fence_name(cf)) == cf,
        bullet_list_marker_named(bullet_list_marker_name(b)) == b,
{
    reveal_strlit("atx");
    reveal_strlit("setex");
    reveal_strlit("dashes");
    reveal_strlit("asterisks");
    reveal_strlit("underscores");
    reveal_strlit("two_spaces");
    reveal_strlit("backslash");
    reveal_strlit("inlined");
    reveal_strlit("referenced");
    reveal_strlit("full");
    reveal_strlit("collapsed");
    reveal_strlit("shortcut");
    reveal_strlit("indented");
    reveal_strlit("fenced");
    reveal_strlit("tildes");
    reveal_strlit("backticks");
    reveal_strlit("asterisk");
    reveal_strlit("dash");
    assert("atx"@ != "setex"@) by { assert("atx"@.len() != "setex"@.len()); }
    assert("asterisks"@ != "dashes"@) by { assert("asterisks"@.len() != "dashes"@.len()); }
    assert("asterisks"@ != "underscores"@) by { assert("asterisks"@.len() != "underscores"@.len()); }
    assert("underscores"@ != "dashes"@) by { assert("underscores"@.len() != "dashes"@.len()); }
    assert("two_spaces"@ != "backslash"@) by { assert("two_spaces"@[0] != "backslash"@[0]); }
    assert("inlined"@ != "referenced"@) by { assert("inlined"@.len() != "referenced"@.len()); }
    assert("full"@ != "collapsed"@) by { assert("full"@.len() != "collapsed"@.len()); }
    assert("full"@ != "shortcut"@) by { assert("full"@.len() != "shortcut"@.len()); }
    assert("shortcut"@ != "collapsed"@) by { assert("shortcut"@[0] != "collapsed"@[0]); }
    assert("fenced"@ != "indented"@) by { assert("fenced"@.len() != "indented"@.len()); }
    assert("backticks"@ != "tildes"@) by { assert("backticks"@.len() != "tildes"@.len()); }
    assert("asterisk"@ != "dash"@) by { assert("asterisk"@.len() != "dash"@.len()); }
}

} // verus!
