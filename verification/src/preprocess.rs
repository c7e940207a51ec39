//! Dropping every element that a CSS selector matches, with lol_html's
//! streaming rewriter, before the HTML is converted.
use vstd::prelude::*;

use lol_html::html_content::Element as LolElement;
use lol_html::{rewrite_str, ElementContentHandlers, RewriteStrSettings, Selector};

use crate::error::{result_view, ErrorModel, HtmdError};

verus! {

/// lol_html's `Selector`, opaque.
#[verifier::external_type_specification]
#[verifier::external_body]
pub struct ExSelector(Selector);

/// A parsed CSS selector together with the text it was parsed from.
pub struct CssSelector {
    text: String,
    parsed: Selector,
}

impl CssSelector {
    /// The text the selector was parsed from.
    pub closed spec fn text(&self) -> Seq<char> {
        self.text@
    }
}

/// Why lol_html refuses `selector`, or `None` where it parses it.
pub uninterp spec fn selector_error(selector: Seq<char>) -> Option<Seq<char>>;

/// What lol_html's `rewrite_str` makes of `html` with a handler, for each
/// selector in `selectors`, that removes the matched element and its
/// content: the rewritten HTML, or the rewriter's error message.
pub uninterp spec fn rewritten_without(html: Seq<char>, selectors: Seq<Seq<char>>) -> Result<
    Seq<char>,
    Seq<char>,
>;

pub open spec fn selector_texts(selectors: Seq<CssSelector>) -> Seq<Seq<char>> {
    selectors.map_values(|s: CssSelector| s.text())
}

/// The first selector that does not parse, with the reason.
pub open spec fn first_invalid(selectors: Seq<Seq<char>>) -> Option<(Seq<char>, Seq<char>)>
    decreases selectors.len(),
{
    if selectors.len() == 0 {
        None
    } else {
        match selector_error(selectors[0]) {
            Some(reason) => Some((selectors[0], reason)),
            None => first_invalid(selectors.drop_first()),
        }
    }
}

/// The outcome of dropping what `selectors` match from `html`: the first
/// invalid selector is reported before any rewriting; otherwise the
/// rewriter's result.
pub open spec fn preprocessed(html: Seq<char>, selectors: Seq<Seq<char>>) -> Result<
    Seq<char>,
    ErrorModel,
> {
    match first_invalid(selectors) {
        Some((selector, reason)) => Err(ErrorModel::InvalidSelector { selector, reason }),
        None => match rewritten_without(html, selectors) {
            Ok(out) => Ok(out),
            Err(m) => Err(ErrorModel::Rewrite(m)),
        },
    }
}

/// `str::parse::<lol_html::Selector>`: the parsed selector with its text,
/// or lol_html's error, rendered as text.
#[verifier::external_body]
fn parse_selector(text: &String) -> (res: Result<CssSelector, String>)
    ensures
        match res {
            Ok(s) => selector_error(text@) is None && s.text() == text@,
            Err(reason) => selector_error(text@) == Some(reason@),
        },
{
    match text.parse::<Selector>() {
        Ok(parsed) => Ok(CssSelector { text: text.clone(), parsed }),
        Err(e) => Err(e.to_string()),
    }
}

/// `lol_html::rewrite_str` with one element handler per selector, in
/// order, each removing the matched element and its content (the handler
/// calls lol_html's `Element::remove`); the rewriter's error is rendered
/// as text.
#[verifier::external_body]
fn rewrite_without(html: &str, selectors: Vec<CssSelector>) -> (res: Result<String, String>)
    ensures
        match res {
            Ok(out) => rewritten_without(html@, selector_texts(selectors@)) == Ok::<
                Seq<char>,
                Seq<char>,
            >(out@),
            Err(m) => rewritten_without(html@, selector_texts(selectors@)) == Err::<
                Seq<char>,
                Seq<char>,
            >(m@),
        },
{
    let mut settings = RewriteStrSettings::new();
    for s in selectors {
        let handlers = ElementContentHandlers::default().element(|el: &mut LolElement| {
            el.remove();
            Ok(())
        });
        settings = settings.append_element_content_handler((std::borrow::Cow::Owned(s.parsed), handlers));
    }
    rewrite_str(html, settings).map_err(|e| e.to_string())
}

/// Drops every element matched by one of `drop_selectors`, with its
/// content, from `html`. Every selector is parsed first: the first that
/// does not parse is reported, and no rewriting is done.
pub fn preprocess_selectors(html: &str, drop_selectors: Vec<String>) -> (res: Result<
    String,
    HtmdError,
>)
    ensures
        result_view(res) == preprocessed(html@, drop_selectors@.map_values(|s: String| s@)),
{
    let ghost texts = drop_selectors@.map_values(|s: String| s@);
    let mut parsed: Vec<CssSelector> = Vec::new();
    let mut i: usize = 0;
    assert(texts.skip(0) =~= texts);
    while i < drop_selectors.len()
        invariant
            i <= drop_selectors.len(),
            texts == drop_selectors@.map_values(|s: String| s@),
            first_invalid(texts) == first_invalid(texts.skip(i as int)),
            selector_texts(parsed@) =~= texts.take(i as int),
        decreases drop_selectors.len() - i,
    {
        assert(texts.skip(i as int).drop_first() =~= texts.skip(i + 1));
        assert(texts.skip(i as int)[0] == drop_selectors@[i as int]@);
        match parse_selector(&drop_selectors[i]) {
            Ok(s) => {
                parsed.push(s);
                assert(texts.take(i as int).push(texts[i as int]) =~= texts.take(i + 1));
            },
            Err(reason) => {
                let selector = drop_selectors[i].clone();
                return Err(HtmdError::InvalidSelector { selector, reason });
            },
        }
        i = i + 1;
    }
    assert(texts.take(i as int) =~= texts);
    assert(texts.skip(i as int) =~= Seq::<Seq<char>>::empty());
    match rewrite_without(html, parsed) {
        Ok(out) => Ok(out),
        Err(m) => Err(HtmdError::Rewrite(m)),
    }
}

} // verus!
