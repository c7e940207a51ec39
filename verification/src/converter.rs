//! htmd's converter and its builder, as the library drives them: the
//! configuration a builder holds, the calls that change it, and the
//! conversion of HTML under it.
use vstd::prelude::*;

use htmd::element_handler::{HandlerResult, Handlers};
use htmd::options::{
    BrStyle as HtmdBrStyle, BulletListMarker as HtmdBulletListMarker,
    CodeBlockFence as HtmdCodeBlockFence, CodeBlockStyle as HtmdCodeBlockStyle,
    HeadingStyle as HtmdHeadingStyle, HrStyle as HtmdHrStyle,
    LinkReferenceStyle as HtmdLinkReferenceStyle, LinkStyle as HtmdLinkStyle,
    Options as HtmdOptions, TranslationMode as HtmdTranslationMode,
};
use htmd::{Element, HtmlToMarkdown, HtmlToMarkdownBuilder};

use crate::handlers::{image_answer, link_answer, option_view, Response};
use crate::style::{
    BrStyle, BulletListMarker, CodeBlockFence, CodeBlockStyle, HeadingStyle, HrStyle,
    LinkReferenceStyle, LinkStyle, MarkdownOptions, TranslationMode,
};

verus! {

/// htmd's `HtmlToMarkdownBuilder`, opaque.
#[verifier::external_type_specification]
#[verifier::external_body]
pub struct ExHtmlToMarkdownBuilder(HtmlToMarkdownBuilder);

/// htmd's `HtmlToMarkdown` converter, opaque.
#[verifier::external_type_specification]
#[verifier::external_body]
pub struct ExHtmlToMarkdown(HtmlToMarkdown);

/// htmd's `options::Options`, opaque.
#[verifier::external_type_specification]
#[verifier::external_body]
pub struct ExHtmdOptions(HtmdOptions);

/// A handler registered on a builder for a group of tags.
pub enum HandlerModel {
    /// The handler that `skip_tags` registers: the element is left out.
    Skip,
    /// The library's `<img>` handler: it answers
    /// `image_response(template, drop_empty, attributes)` from the
    /// element's attributes alone; its only call on htmd's handlers is the
    /// fallback, made where that answer is `Fallback`.
    Image { template: Option<Seq<char>>, drop_empty: bool },
    /// The library's `<a>` handler: it renders the element's children and
    /// answers `link_response(prefix, rendered children)`; where that
    /// answer is `Fallback` it falls back to the handler registered before.
    ImageOnlyLink { prefix: Seq<char> },
}

/// Everything that decides how a converter turns HTML into Markdown: its
/// options, the handlers registered on top of htmd's built-in ones (each
/// with its tags, later ones taking precedence), and whether scripting is
/// enabled when HTML is parsed.
pub struct ConverterConfig {
    pub options: MarkdownOptions,
    pub handlers: Seq<(Seq<Seq<char>>, HandlerModel)>,
    pub scripting_enabled: bool,
}

/// The options that `htmd::options::Options::default()` returns.
pub open spec fn htmd_default_options() -> MarkdownOptions {
    MarkdownOptions {
        heading_style: HeadingStyle::Atx,
        hr_style: HrStyle::Asterisks,
        br_style: BrStyle::TwoSpaces,
        link_style: LinkStyle::Inlined,
        link_reference_style: LinkReferenceStyle::Full,
        code_block_style: CodeBlockStyle::Fenced,
        code_block_fence: CodeBlockFence::Backticks,
        bullet_list_marker: BulletListMarker::Asterisk,
        ul_bullet_spacing: 3,
        ol_number_spacing: 2,
        preformatted_code: false,
        translation_mode: TranslationMode::Pure,
    }
}

/// The configuration of a fresh builder, and of `HtmlToMarkdown::new()`:
/// default options, no added handlers, scripting enabled.
pub open spec fn initial_config() -> ConverterConfig {
    ConverterConfig {
        options: htmd_default_options(),
        handlers: Seq::empty(),
        scripting_enabled: true,
    }
}

pub open spec fn tag_views(tags: Seq<String>) -> Seq<Seq<char>> {
    tags.map_values(|t: String| t@)
}

/// `config` with `handler` registered for `tags`.
pub open spec fn with_handler(
    config: ConverterConfig,
    tags: Seq<Seq<char>>,
    handler: HandlerModel,
) -> ConverterConfig {
    ConverterConfig { handlers: config.handlers.push((tags, handler)), ..config }
}

/// The configuration a builder holds.
pub uninterp spec fn builder_config(builder: HtmlToMarkdownBuilder) -> ConverterConfig;

/// The configuration a converter was built with.
pub uninterp spec fn converter_config(converter: HtmlToMarkdown) -> ConverterConfig;

/// The Markdown that a converter with configuration `config` renders
/// `html` to.
pub uninterp spec fn markdown_of(html: Seq<char>, config: ConverterConfig) -> Seq<char>;

/// `htmd::options::Options::default()`, converted field by field. The
/// contract states the values that htmd's `Default` impl writes.
#[verifier::external_body]
pub fn default_markdown_options() -> (res: MarkdownOptions)
    ensures
        res == htmd_default_options(),
{
    let d = HtmdOptions::default();
    MarkdownOptions {
        heading_style: heading_style_of(&d), hr_style: hr_style_of(&d), br_style: br_style_of(&d),
        link_style: link_style_of(&d),
        link_reference_style: link_reference_style_of(&d),
        code_block_style: code_block_style_of(&d),
        code_block_fence: code_block_fence_of(&d),
        bullet_list_marker: bullet_list_marker_of(&d),
        ul_bullet_spacing: d.ul_bullet_spacing,
        ol_number_spacing: d.ol_number_spacing,
        preformatted_code: d.preformatted_code,
        translation_mode: translation_mode_of(&d),
    }
}

/// `HtmlToMarkdown::builder()`: a builder holding the initial
/// configuration (htmd's `HtmlToMarkdownBuilder::new` installs the default
/// options, only the built-in handlers, and enables scripting).
#[verifier::external_body]
pub fn new_builder() -> (res: HtmlToMarkdownBuilder)
    ensures
        builder_config(res) == initial_config(),
{
    HtmlToMarkdown::builder()
}

/// `HtmlToMarkdownBuilder::options`: replaces the options and keeps the
/// rest of the configuration.
#[verifier::external_body]
pub fn builder_with_options(builder: HtmlToMarkdownBuilder, options: &MarkdownOptions) -> (res:
    HtmlToMarkdownBuilder)
    ensures
        builder_config(res) == (ConverterConfig { options: *options, ..builder_config(builder) }),
{
    let mut o = HtmdOptions::default();
    set_heading_and_rules(&mut o, options);
    set_links(&mut o, options);
    set_blocks(&mut o, options);
    o.ul_bullet_spacing = options.ul_bullet_spacing;
    o.ol_number_spacing = options.ol_number_spacing;
    o.preformatted_code = options.preformatted_code;
    builder.options(o)
}

/// `HtmlToMarkdownBuilder::skip_tags`: registers, after the handlers
/// already there, a handler for `tags` that leaves such elements out.
/// htmd panics on an empty tag list, which `requires` excludes.
#[verifier::external_body]
pub fn builder_skip_tags(builder: HtmlToMarkdownBuilder, tags: &Vec<String>) -> (res:
    HtmlToMarkdownBuilder)
    requires
        tags.len() > 0,
    ensures
        builder_config(res) == with_handler(
            builder_config(builder),
            tag_views(tags@),
            HandlerModel::Skip,
        ),
{
    builder.skip_tags(tags.iter().map(|t| t.as_str()).collect())
}

/// `HtmlToMarkdownBuilder::add_handler` with the library's `<img>`
/// handler: registers it, after the handlers already there, for `tags`.
/// The handler reads the element's attributes, hands them to
/// `image_answer` and emits its answer, or falls back to the handler
/// registered before it; it makes no other call on htmd's handlers. htmd
/// panics on an empty tag list, which `requires` excludes.
#[verifier::external_body]
pub fn builder_add_image_handler(
    builder: HtmlToMarkdownBuilder,
    tags: &Vec<String>,
    template: Option<String>,
    drop_empty: bool,
) -> (res: HtmlToMarkdownBuilder)
    requires
        tags.len() > 0,
    ensures
        builder_config(res) == with_handler(
            builder_config(builder),
            tag_views(tags@),
            HandlerModel::Image { template: option_view(template), drop_empty },
        ),
{
    let tags: Vec<&str> = tags.iter().map(|t| t.as_str()).collect();
    builder.add_handler(tags, move |h: &dyn Handlers, el: Element| -> Option<HandlerResult> {
        let attrs: Vec<(String, String)> =
            el.attrs.iter().map(|a| (a.name.local.to_string(), a.value.to_string())).collect();
        match image_answer(&template, drop_empty, &attrs) {
            Response::Emit(s) => Some(HandlerResult::from(s)),
            Response::Fallback => h.fallback(el),
        }
    })
}

/// `HtmlToMarkdownBuilder::add_handler` with the library's `<a>` handler:
/// registers it, after the handlers already there, for `tags`. The handler
/// renders the element's children (`Handlers::walk_children`), hands the
/// Markdown to `link_answer` and emits its answer, or falls back to the
/// handler registered before it. htmd panics on an empty tag list, which
/// `requires` excludes.
#[verifier::external_body]
pub fn builder_add_link_handler(
    builder: HtmlToMarkdownBuilder,
    tags: &Vec<String>,
    prefix: String,
) -> (res: HtmlToMarkdownBuilder)
    requires
        tags.len() > 0,
    ensures
        builder_config(res) == with_handler(
            builder_config(builder),
            tag_views(tags@),
            HandlerModel::ImageOnlyLink { prefix: prefix@ },
        ),
{
    let tags: Vec<&str> = tags.iter().map(|t| t.as_str()).collect();
    builder.add_handler(tags, move |h: &dyn Handlers, el: Element| -> Option<HandlerResult> {
        let inner = h.walk_children(el.node).content;
        match link_answer(&prefix, &inner) {
            Response::Emit(s) => Some(HandlerResult::from(s)),
            Response::Fallback => h.fallback(el),
        }
    })
}

/// `HtmlToMarkdownBuilder::build`: a converter with the builder's
/// configuration.
#[verifier::external_body]
pub fn build_converter(builder: HtmlToMarkdownBuilder) -> (res: HtmlToMarkdown)
    ensures
        converter_config(res) == builder_config(builder),
{
    builder.build()
}

/// `HtmlToMarkdown::convert`. In htmd's source this never fails (parsing
/// the tree always yields `Ok`), and the Markdown depends on the HTML and
/// the converter's configuration alone.
#[verifier::external_body]
pub fn convert_with(converter: &HtmlToMarkdown, html: &str) -> (res: Result<String, String>)
    ensures
        res is Ok,
        res->Ok_0@ == markdown_of(html@, converter_config(*converter)),
{
    converter.convert(html).map_err(|e| e.to_string())
}

/// `htmd::convert`, which htmd defines as `HtmlToMarkdown::new().convert`:
/// the conversion under the initial configuration.
#[verifier::external_body]
pub fn convert_default(html: &str) -> (res: Result<String, String>)
    ensures
        res is Ok,
        res->Ok_0@ == markdown_of(html@, initial_config()),
{
    htmd::convert(html).map_err(|e| e.to_string())
}

/// Reads the field `heading_style` of htmd's `Options` into the library's enum,
/// one arm per variant; nothing is claimed of it.
#[verifier::external_body]
fn heading_style_of(o: &HtmdOptions) -> HeadingStyle {
    match o.heading_style {
        HtmdHeadingStyle::Atx => HeadingStyle::Atx,
        HtmdHeadingStyle::Setex => HeadingStyle::Setex,
    }
}

/// Reads the field `hr_style` of htmd's `Options` into the library's enum,
/// one arm per variant; nothing is claimed of it.
#[verifier::external_body]
fn hr_style_of(o: &HtmdOptions) -> HrStyle {
    match o.hr_style {
        HtmdHrStyle::Dashes => HrStyle::Dashes,
        HtmdHrStyle::Asterisks => HrStyle::Asterisks,
        HtmdHrStyle::Underscores => HrStyle::Underscores,
    }
}

/// Reads the field `br_style` of htmd's `Options` into the library's enum,
/// one arm per variant; nothing is claimed of it.
#[verifier::external_body]
fn br_style_of(o: &HtmdOptions) -> BrStyle {
    match o.br_style {
        HtmdBrStyle::TwoSpaces => BrStyle::TwoSpaces,
        HtmdBrStyle::Backslash => BrStyle::Backslash,
    }
}

/// Reads the field `link_style` of htmd's `Options` into the library's enum,
/// one arm per variant; nothing is claimed of it.
#[verifier::external_body]
fn link_style_of(o: &HtmdOptions) -> LinkStyle {
    match o.link_style {
        HtmdLinkStyle::Inlined => LinkStyle::Inlined,
        HtmdLinkStyle::InlinedPreferAutolinks => LinkStyle::InlinedPreferAutolinks,
        HtmdLinkStyle::Referenced => LinkStyle::Referenced,
    }
}

/// Reads the field `link_reference_style` of htmd's `Options` into the library's enum,
/// one arm per variant; nothing is claimed of it.
#[verifier::external_body]
fn link_reference_style_of(o: &HtmdOptions) -> LinkReferenceStyle {
    match o.link_reference_style {
        HtmdLinkReferenceStyle::Full => LinkReferenceStyle::Full,
        HtmdLinkReferenceStyle::Collapsed => LinkReferenceStyle::Collapsed,
        HtmdLinkReferenceStyle::Shortcut => LinkReferenceStyle::Shortcut,
    }
}

/// Reads the field `code_block_style` of htmd's `Options` into the library's enum,
/// one arm per variant; nothing is claimed of it.
#[verifier::external_body]
fn code_block_style_of(o: &HtmdOptions) -> CodeBlockStyle {
    match o.code_block_style {
        HtmdCodeBlockStyle::Indented => CodeBlockStyle::Indented,
        HtmdCodeBlockStyle::Fenced => CodeBlockStyle::Fenced,
    }
}

/// Reads the field `code_block_fence` of htmd's `Options` into the library's enum,
/// one arm per variant; nothing is claimed of it.
#[verifier::external_body]
fn code_block_fence_of(o: &HtmdOptions) -> CodeBlockFence {
    match o.code_block_fence {
        HtmdCodeBlockFence::Tildes => CodeBlockFence::Tildes,
        HtmdCodeBlockFence::Backticks => CodeBlockFence::Backticks,
    }
}

/// Reads the field `bullet_list_marker` of htmd's `Options` into the library's enum,
/// one arm per variant; nothing is claimed of it.
#[verifier::external_body]
fn bullet_list_marker_of(o: &HtmdOptions) -> BulletListMarker {
    match o.bullet_list_marker {
        HtmdBulletListMarker::Asterisk => BulletListMarker::Asterisk,
        HtmdBulletListMarker::Dash => BulletListMarker::Dash,
    }
}

/// Reads the field `translation_mode` of htmd's `Options` into the library's enum,
/// one arm per variant; nothing is claimed of it.
#[verifier::external_body]
fn translation_mode_of(o: &HtmdOptions) -> TranslationMode {
    match o.translation_mode {
        HtmdTranslationMode::Pure => TranslationMode::Pure,
        HtmdTranslationMode::Faithful => TranslationMode::Faithful,
    }
}

/// Writes `heading_style`, `hr_style` and `br_style` of htmd's `Options`
/// from the library's enums, one arm per variant; nothing is claimed of it.
#[verifier::external_body]
fn set_heading_and_rules(o: &mut HtmdOptions, from: &MarkdownOptions) {
    o.heading_style = match from.heading_style {
        HeadingStyle::Atx => HtmdHeadingStyle::Atx,
        HeadingStyle::Setex => HtmdHeadingStyle::Setex,
    };
    o.hr_style = match from.hr_style {
        HrStyle::Dashes => HtmdHrStyle::Dashes,
        HrStyle::Asterisks => HtmdHrStyle::Asterisks,
        HrStyle::Underscores => HtmdHrStyle::Underscores,
    };
    o.br_style = match from.br_style {
        BrStyle::TwoSpaces => HtmdBrStyle::TwoSpaces,
        BrStyle::Backslash => HtmdBrStyle::Backslash,
    };
}

/// Writes `link_style`, `link_reference_style` and `translation_mode` of
/// htmd's `Options` from the library's enums, one arm per variant; nothing
/// is claimed of it.
#[verifier::external_body]
fn set_links(o: &mut HtmdOptions, from: &MarkdownOptions) {
    o.link_style = match from.link_style {
        LinkStyle::Inlined => HtmdLinkStyle::Inlined,
        LinkStyle::InlinedPreferAutolinks => HtmdLinkStyle::InlinedPreferAutolinks,
        LinkStyle::Referenced => HtmdLinkStyle::Referenced,
    };
    o.link_reference_style = match from.link_reference_style {
        LinkReferenceStyle::Full => HtmdLinkReferenceStyle::Full,
        LinkReferenceStyle::Collapsed => HtmdLinkReferenceStyle::Collapsed,
        LinkReferenceStyle::Shortcut => HtmdLinkReferenceStyle::Shortcut,
    };
    o.translation_mode = match from.translation_mode {
        TranslationMode::Pure => HtmdTranslationMode::Pure,
        TranslationMode::Faithful => HtmdTranslationMode::Faithful,
    };
}

/// Writes `code_block_style`, `code_block_fence` and `bullet_list_marker`
/// of htmd's `Options` from the library's enums, one arm per variant;
/// nothing is claimed of it.
#[verifier::external_body]
fn set_blocks(o: &mut HtmdOptions, from: &MarkdownOptions) {
    o.code_block_style = match from.code_block_style {
        CodeBlockStyle::Indented => HtmdCodeBlockStyle::Indented,
        CodeBlockStyle::Fenced => HtmdCodeBlockStyle::Fenced,
    };
    o.code_block_fence = match from.code_block_fence {
        CodeBlockFence::Tildes => HtmdCodeBlockFence::Tildes,
        CodeBlockFence::Backticks => HtmdCodeBlockFence::Backticks,
    };
    o.bullet_list_marker = match from.bullet_list_marker {
        BulletListMarker::Asterisk => HtmdBulletListMarker::Asterisk,
        BulletListMarker::Dash => HtmdBulletListMarker::Dash,
    };
}

} // verus!
