//! Properties that hold across the library's functions.
use vstd::prelude::*;

use crate::conversion;
use crate::converter::{
    htmd_default_options, initial_config, markdown_of, ConverterConfig, HandlerModel,
};
use crate::error::ErrorModel;
use crate::footnote::{footnote_markers, regex_replaced, FOOTNOTE_PATTERN, FOOTNOTE_REPLACEMENT};
use crate::handlers::{
    attribute_value, image_prefix, image_response, link_response, option_view, ResponseModel,
};
use crate::options::PyOptions;
use crate::preprocess::{first_invalid, preprocessed, rewritten_without, selector_error};
use crate::style::{
    lemma_names_choose_their_style, BrStyle, BulletListMarker, CodeBlockFence, CodeBlockStyle,
    HeadingStyle, HrStyle, LinkReferenceStyle, LinkStyle,
};
use crate::text::{
    before_first, is_white_space, lemma_occurs_in_suffix, lemma_replace_absent,
    lemma_replace_keeps_prefix, lemma_replace_single, occurs_at, replace_all, trimmed,
};

verus! {

/// Options that name htmd's defaults choose htmd's default options.
pub proof fn lemma_default_names_choose_default_options(o: PyOptions)
    requires
        o.has_default_settings(),
    ensures
        o.markdown_options() == htmd_default_options(),
{
    lemma_names_choose_their_style(
        HeadingStyle::Atx,
        HrStyle::Asterisks,
        BrStyle::TwoSpaces,
        LinkStyle::Inlined,
        LinkReferenceStyle::Full,
        CodeBlockStyle::Fenced,
        CodeBlockFence::Backticks,
        BulletListMarker::Asterisk,
    );
}

/// Converting with default options (as `PyOptions::new` makes them)
/// renders the same Markdown as converting with no options at all.
pub proof fn lemma_default_options_convert_as_no_options(o: PyOptions, html: Seq<char>)
    requires
        o.is_default(),
    ensures
        conversion(html, Some(o)) == conversion(html, None),
{
    lemma_default_names_choose_default_options(o);
    let c = o.configure(initial_config());
    assert(o.handlers() =~= Seq::<(Seq<Seq<char>>, HandlerModel)>::empty());
    assert(c.handlers =~= initial_config().handlers);
    assert(c == initial_config());
}

/// Without a placeholder and without dropping empty-alt images, no `<img>`
/// handler is registered, so htmd renders images itself.
pub proof fn lemma_no_image_handler_by_default(o: PyOptions)
    requires
        o.image_placeholder is None,
        !o.drop_empty_alt_images,
    ensures
        forall|i: int|
            0 <= i < o.handlers().len() ==> !((#[trigger] o.handlers()[i]).1 matches HandlerModel::Image { .. }),
{
}

/// With empty-alt images dropped, an `<img>` whose alt attribute is
/// missing, empty or whitespace renders to nothing, placeholder or not.
pub proof fn lemma_empty_alt_images_dropped(
    template: Option<Seq<char>>,
    attrs: Seq<(String, String)>,
)
    requires
        trimmed(attribute_value(attrs, "alt"@)).len() == 0,
    ensures
        image_response(template, true, attrs) == ResponseModel::Emit(Seq::empty()),
{
}

/// Without a placeholder, an `<img>` that is not dropped is left to htmd's
/// own image handler.
pub proof fn lemma_image_without_placeholder_falls_back(
    drop_empty: bool,
    attrs: Seq<(String, String)>,
)
    requires
        !drop_empty || trimmed(attribute_value(attrs, "alt"@)).len() > 0,
    ensures
        image_response(None, drop_empty, attrs) == ResponseModel::Fallback,
{
}

/// A placeholder `before + "{alt}" + after`, with `{alt}` occurring there
/// once, renders an image that is not dropped as `before`, the trimmed alt
/// text, then `after`.
pub proof fn lemma_placeholder_substitutes_alt(
    before: Seq<char>,
    after: Seq<char>,
    drop_empty: bool,
    attrs: Seq<(String, String)>,
)
    requires
        forall|i: int|
            i != before.len() ==> !#[trigger] occurs_at(before + "{alt}"@ + after, i, "{alt}"@),
        !drop_empty || trimmed(attribute_value(attrs, "alt"@)).len() > 0,
    ensures
        image_response(Some(before + "{alt}"@ + after), drop_empty, attrs) == ResponseModel::Emit(
            before + trimmed(attribute_value(attrs, "alt"@)) + after,
        ),
{
    reveal_strlit("{alt}");
    let t = before + "{alt}"@ + after;
    let alt = trimmed(attribute_value(attrs, "alt"@));
    assert(t.subrange(before.len() as int, before.len() as int + 5) =~= "{alt}"@);
    lemma_replace_single(t, "{alt}"@, alt, before.len() as int);
    assert(t.subrange(0, before.len() as int) =~= before);
    assert(t.subrange(before.len() as int + 5, t.len() as int) =~= after);
}

/// A placeholder without `{alt}` replaces every image that is not dropped
/// by the placeholder itself.
pub proof fn lemma_placeholder_without_marker(
    template: Seq<char>,
    drop_empty: bool,
    attrs: Seq<(String, String)>,
)
    requires
        forall|i: int| !#[trigger] occurs_at(template, i, "{alt}"@),
        !drop_empty || trimmed(attribute_value(attrs, "alt"@)).len() > 0,
    ensures
        image_response(Some(template), drop_empty, attrs) == ResponseModel::Emit(template),
{
    lemma_replace_absent(template, "{alt}"@, trimmed(attribute_value(attrs, "alt"@)));
}

/// The `<a>` handler recognises what the `<img>` handler emits: where the
/// placeholder has text before `{alt}`, a link whose content, trimmed, is
/// a placeholder rendering is unwrapped to its content.
pub proof fn lemma_link_around_placeholder_image_unwrapped(
    template: Seq<char>,
    alt: Seq<char>,
    inner: Seq<char>,
)
    requires
        before_first(template, "{alt}"@).len() > 0,
        trimmed(inner) == replace_all(template, "{alt}"@, alt),
    ensures
        link_response(image_prefix(Some(template)), inner) == ResponseModel::Emit(inner),
{
    reveal_strlit("{alt}");
    lemma_replace_keeps_prefix(template, "{alt}"@, alt);
}

/// A link whose content is only whitespace is unwrapped, whatever the
/// prefix.
pub proof fn lemma_blank_link_unwrapped(prefix: Seq<char>, inner: Seq<char>)
    requires
        trimmed(inner).len() == 0,
    ensures
        link_response(prefix, inner) == ResponseModel::Emit(inner),
{
}

/// Preprocessing reports the first selector that does not parse, whatever
/// the HTML, and rewrites nothing.
pub proof fn lemma_first_invalid_selector_reported(
    html: Seq<char>,
    selectors: Seq<Seq<char>>,
    k: int,
)
    requires
        0 <= k < selectors.len(),
        selector_error(selectors[k]) is Some,
        forall|i: int| 0 <= i < k ==> selector_error(#[trigger] selectors[i]) is None,
    ensures
        preprocessed(html, selectors) == Err::<Seq<char>, ErrorModel>(
            ErrorModel::InvalidSelector {
                selector: selectors[k],
                reason: selector_error(selectors[k])->Some_0,
            },
        ),
    decreases k,
{
    if k > 0 {
        let rest = selectors.drop_first();
        assert forall|i: int| 0 <= i < k - 1 implies selector_error(#[trigger] rest[i]) is None by {
            assert(rest[i] == selectors[i + 1]);
        }
        lemma_first_invalid_selector_reported(html, rest, k - 1);
        assert(selector_error(selectors[0]) is None);
    }
}

/// Where every selector parses, preprocessing is the rewriter run with all
/// the selectors, in their order, and nothing else.
pub proof fn lemma_valid_selectors_all_applied(html: Seq<char>, selectors: Seq<Seq<char>>)
    requires
        forall|i: int| 0 <= i < selectors.len() ==> selector_error(#[trigger] selectors[i]) is None,
    ensures
        preprocessed(html, selectors) == match rewritten_without(html, selectors) {
            Ok(out) => Ok::<Seq<char>, ErrorModel>(out),
            Err(m) => Err::<Seq<char>, ErrorModel>(ErrorModel::Rewrite(m)),
        },
{
    lemma_all_valid_none_invalid(selectors);
}

proof fn lemma_all_valid_none_invalid(selectors: Seq<Seq<char>>)
    requires
        forall|i: int| 0 <= i < selectors.len() ==> selector_error(#[trigger] selectors[i]) is None,
    ensures
        first_invalid(selectors) is None,
    decreases selectors.len(),
{
    if selectors.len() > 0 {
        let rest = selectors.drop_first();
        assert forall|i: int| 0 <= i < rest.len() implies selector_error(#[trigger] rest[i]) is None by {
            assert(rest[i] == selectors[i + 1]);
        }
        lemma_all_valid_none_invalid(rest);
        assert(selector_error(selectors[0]) is None);
    }
}

/// Footnote rewriting is `Regex::replace_all` with the citation-link
/// pattern, whose link target is any text up to `)` after `#cite_note-`,
/// and the replacement `[^$1]`, the captured number as a footnote marker.
pub proof fn lemma_footnotes_use_citation_pattern(md: Seq<char>)
    ensures
        FOOTNOTE_PATTERN@ == r"\[(?:\\\[|&#91;)(\d+)(?:\\\]|&#93;)\]\(#cite_note-[^)]*\)"@,
        FOOTNOTE_REPLACEMENT@ == "[^$1]"@,
        footnote_markers(md) == regex_replaced(
            r"\[(?:\\\[|&#91;)(\d+)(?:\\\]|&#93;)\]\(#cite_note-[^)]*\)"@,
            md,
            "[^$1]"@,
        ),
{
}

/// Applying options keeps the base's handlers and scripting setting,
/// replaces the options by the ones the names choose, and registers, after
/// the base's handlers: a skip handler for exactly all the tags to skip
/// (when there are any), then the `<img>` handler for `img` (when a
/// placeholder is set or empty-alt images are dropped), then the `<a>`
/// handler for `a` (when image-only links are unwrapped), and nothing else.
pub proof fn lemma_options_register_handlers(o: PyOptions, base: ConverterConfig)
    ensures
        ({
            let c = o.configure(base);
            let b = base.handlers.len();
            let s: int = if o.skip_tags@.len() > 0 { 1 } else { 0 };
            let g: int = if o.image_placeholder is Some || o.drop_empty_alt_images { 1 } else { 0 };
            let l: int = if o.drop_image_only_links { 1 } else { 0 };
            &&& c.options == o.markdown_options()
            &&& c.scripting_enabled == base.scripting_enabled
            &&& c.handlers.len() == b + s + g + l
            &&& forall|i: int| 0 <= i < b ==> c.handlers[i] == base.handlers[i]
            &&& o.skip_tags@.len() > 0 ==> {
                &&& c.handlers[b as int].1 is Skip
                &&& c.handlers[b as int].0.len() == o.skip_tags@.len()
                &&& forall|i: int|
                    0 <= i < o.skip_tags@.len() ==> c.handlers[b as int].0[i]
                        == (#[trigger] o.skip_tags@[i])@
            }
            &&& forall|i: int| b + s <= i < c.handlers.len() ==> !(c.handlers[i].1 is Skip)
            &&& g == 1 ==> c.handlers[b + s] == (
                seq!["img"@],
                HandlerModel::Image {
                    template: option_view(o.image_placeholder),
                    drop_empty: o.drop_empty_alt_images,
                },
            )
            &&& l == 1 ==> c.handlers[b + s + g] == (
                seq!["a"@],
                HandlerModel::ImageOnlyLink { prefix: image_prefix(option_view(o.image_placeholder)) },
            )
        }),
{
    let c = o.configure(base);
    let b = base.handlers.len();
    let h = o.handlers();
    assert(c.handlers == base.handlers + h);
    if o.skip_tags@.len() > 0 {
        assert(c.handlers[b as int] == h[0]);
    }
}

/// Each name chooses its option, compared letter for letter; any other
/// text chooses htmd's default for that option. The spacing options and
/// the translation mode are htmd's defaults, and `preformatted_code` is
/// taken as it is.
pub proof fn lemma_names_choose_options(o: PyOptions)
    ensures
        o.markdown_options().heading_style == (if o.heading_style@ == "setex"@ {
            HeadingStyle::Setex
        } else {
            HeadingStyle::Atx
        }),
        o.markdown_options().hr_style == (if o.hr_style@ == "dashes"@ {
            HrStyle::Dashes
        } else if o.hr_style@ == "underscores"@ {
            HrStyle::Underscores
        } else {
            HrStyle::Asterisks
        }),
        o.markdown_options().br_style == (if o.br_style@ == "backslash"@ {
            BrStyle::Backslash
        } else {
            BrStyle::TwoSpaces
        }),
        o.markdown_options().link_style == (if o.link_style@ == "referenced"@ {
            LinkStyle::Referenced
        } else {
            LinkStyle::Inlined
        }),
        o.markdown_options().link_reference_style == (if o.link_reference_style@ == "collapsed"@ {
            LinkReferenceStyle::Collapsed
        } else if o.link_reference_style@ == "shortcut"@ {
            LinkReferenceStyle::Shortcut
        } else {
            LinkReferenceStyle::Full
        }),
        o.markdown_options().code_block_style == (if o.code_block_style@ == "indented"@ {
            CodeBlockStyle::Indented
        } else {
            CodeBlockStyle::Fenced
        }),
        o.markdown_options().code_block_fence == (if o.code_block_fence@ == "tildes"@ {
            CodeBlockFence::Tildes
        } else {
            CodeBlockFence::Backticks
        }),
        o.markdown_options().bullet_list_marker == (if o.bullet_list_marker@ == "dash"@ {
            BulletListMarker::Dash
        } else {
            BulletListMarker::Asterisk
        }),
        o.markdown_options().ul_bullet_spacing == htmd_default_options().ul_bullet_spacing,
        o.markdown_options().ol_number_spacing == htmd_default_options().ol_number_spacing,
        o.markdown_options().preformatted_code == o.preformatted_code,
        o.markdown_options().translation_mode == htmd_default_options().translation_mode,
{
}

/// Converting with options converts under exactly the options the names
/// choose, with the options' handlers on top of htmd's built-in ones and
/// scripting enabled; converting without options converts under htmd's
/// defaults with no added handlers.
pub proof fn lemma_conversion_uses_chosen_options(o: PyOptions, html: Seq<char>)
    ensures
        conversion(html, Some(o)) == markdown_of(
            html,
            ConverterConfig {
                options: o.markdown_options(),
                handlers: o.handlers(),
                scripting_enabled: true,
            },
        ),
        conversion(html, None) == markdown_of(
            html,
            ConverterConfig {
                options: htmd_default_options(),
                handlers: Seq::empty(),
                scripting_enabled: true,
            },
        ),
{
    let c = o.configure(initial_config());
    assert(c.handlers =~= o.handlers());
    assert(c == ConverterConfig {
        options: o.markdown_options(),
        handlers: o.handlers(),
        scripting_enabled: true,
    });
}

/// A link is unwrapped to its content exactly when its trimmed content is
/// empty, or the prefix is not empty and the trimmed content begins with
/// it; every other link, for example one with text before the image, is
/// left to htmd's own handler.
pub proof fn lemma_link_unwrapped_exactly_when_image_only(prefix: Seq<char>, inner: Seq<char>)
    ensures
        link_response(prefix, inner) == (if trimmed(inner).len() == 0 || (prefix.len() > 0
            && prefix.len() <= trimmed(inner).len() && trimmed(inner).subrange(
            0,
            prefix.len() as int,
        ) == prefix) {
            ResponseModel::Emit(inner)
        } else {
            ResponseModel::Fallback
        }),
{
}

/// The image prefix is `![` without a placeholder, and otherwise the
/// placeholder's text before its first `{alt}`, or the whole placeholder
/// where `{alt}` does not occur.
pub proof fn lemma_image_prefix_is_text_before_marker(t: Seq<char>, k: int)
    ensures
        image_prefix(None) == "!["@,
        (occurs_at(t, k, "{alt}"@) && forall|i: int| 0 <= i < k ==> !#[trigger] occurs_at(t, i, "{alt}"@))
            ==> image_prefix(Some(t)) == t.subrange(0, k),
        (forall|i: int| !#[trigger] occurs_at(t, i, "{alt}"@)) ==> image_prefix(Some(t)) == t,
{
    if occurs_at(t, k, "{alt}"@) && forall|i: int| 0 <= i < k ==> !#[trigger] occurs_at(t, i, "{alt}"@) {
        lemma_before_first_at(t, "{alt}"@, k);
    }
    if forall|i: int| !#[trigger] occurs_at(t, i, "{alt}"@) {
        lemma_before_first_absent(t, "{alt}"@);
    }
}

proof fn lemma_before_first_at(s: Seq<char>, pat: Seq<char>, k: int)
    requires
        occurs_at(s, k, pat),
        forall|i: int| 0 <= i < k ==> !#[trigger] occurs_at(s, i, pat),
    ensures
        before_first(s, pat) == s.subrange(0, k),
    decreases s.len(),
{
    if k == 0 {
        assert(s.subrange(0, 0) =~= Seq::<char>::empty());
    } else {
        let t = s.drop_first();
        assert(t =~= s.subrange(1, s.len() as int));
        assert(!occurs_at(s, 0, pat));
        lemma_occurs_in_suffix(s, 1, k - 1, pat);
        assert forall|i: int| 0 <= i < k - 1 implies !#[trigger] occurs_at(t, i, pat) by {
            lemma_occurs_in_suffix(s, 1, i, pat);
        }
        lemma_before_first_at(t, pat, k - 1);
        assert(seq![s[0]] + t.subrange(0, k - 1) =~= s.subrange(0, k));
    }
}

proof fn lemma_before_first_absent(s: Seq<char>, pat: Seq<char>)
    requires
        forall|i: int| !#[trigger] occurs_at(s, i, pat),
    ensures
        before_first(s, pat) == s,
    decreases s.len(),
{
    if s.len() > 0 {
        let t = s.drop_first();
        assert(t =~= s.subrange(1, s.len() as int));
        assert(!occurs_at(s, 0, pat));
        assert forall|i: int| !#[trigger] occurs_at(t, i, pat) by {
            if i >= 0 {
                lemma_occurs_in_suffix(s, 1, i, pat);
            }
        }
        lemma_before_first_absent(t, pat);
        assert(seq![s[0]] + t =~= s);
    } else {
        assert(!occurs_at(s, 0, pat) || pat.len() == 0);
    }
}

/// The alt text read is the value of the first attribute with that name,
/// and empty where no attribute has it.
pub proof fn lemma_first_attribute_read(attrs: Seq<(String, String)>, name: Seq<char>, k: int)
    ensures
        (0 <= k < attrs.len() && attrs[k].0@ == name && forall|i: int|
            0 <= i < k ==> (#[trigger] attrs[i]).0@ != name) ==> attribute_value(attrs, name)
            == attrs[k].1@,
        (forall|i: int| 0 <= i < attrs.len() ==> (#[trigger] attrs[i]).0@ != name)
            ==> attribute_value(attrs, name) == Seq::<char>::empty(),
    decreases attrs.len(),
{
    if attrs.len() > 0 {
        let rest = attrs.drop_first();
        lemma_first_attribute_read(rest, name, k - 1);
        if 0 < k < attrs.len() && attrs[k].0@ == name && forall|i: int|
            0 <= i < k ==> (#[trigger] attrs[i]).0@ != name {
            assert(attrs[0].0@ != name);
            assert(rest[k - 1] == attrs[k]);
            assert forall|i: int| 0 <= i < k - 1 implies (#[trigger] rest[i]).0@ != name by {
                assert(rest[i] == attrs[i + 1]);
            }
        }
        if forall|i: int| 0 <= i < attrs.len() ==> (#[trigger] attrs[i]).0@ != name {
            assert(attrs[0].0@ != name);
            assert forall|i: int| 0 <= i < rest.len() implies (#[trigger] rest[i]).0@ != name by {
                assert(rest[i] == attrs[i + 1]);
            }
        }
    }
}

/// Whitespace is the Unicode `White_Space` set: tab, line feed, vertical
/// tab, form feed, carriage return, space, next line, no-break space,
/// ogham space mark, the spaces from en quad to hair space, line and
/// paragraph separators, narrow no-break space, medium mathematical space
/// and ideographic space.
pub proof fn lemma_white_space_set(c: char)
    ensures
        is_white_space(c) <==> (c == '\t' || c == '\n' || c == '\u{0B}' || c == '\u{0C}' || c
            == '\r' || c == ' ' || c == '\u{85}' || c == '\u{A0}' || c == '\u{1680}' || ('\u{2000}'
            <= c && c <= '\u{200A}') || c == '\u{2028}' || c == '\u{2029}' || c == '\u{202F}' || c
            == '\u{205F}' || c == '\u{3000}'),
{
}

} // verus!
