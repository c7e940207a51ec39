//! Rewriting citation links, as htmd renders MediaWiki references, into
//! footnote markers.
use vstd::prelude::*;

use regex::Regex;

verus! {

/// The `regex` crate's `Regex`, opaque.
#[verifier::external_type_specification]
#[verifier::external_body]
pub struct ExRegex(Regex);

/// The pattern of a citation link: `[` then `\[` or `&#91;`, a number,
/// `\]` or `&#93;`, `]`, then a link target starting with `#cite_note-`.
pub const FOOTNOTE_PATTERN: &'static str = r"\[(?:\\\[|&#91;)(\d+)(?:\\\]|&#93;)\]\(#cite_note-[^)]*\)";

/// What a citation link is rewritten to: a footnote marker around the
/// number that the pattern captured.
pub const FOOTNOTE_REPLACEMENT: &'static str = "[^$1]";

/// A compiled regular expression together with its pattern.
pub struct CompiledRegex {
    pattern: String,
    regex: Regex,
}

impl CompiledRegex {
    /// The pattern the expression was compiled from.
    pub closed spec fn pattern(&self) -> Seq<char> {
        self.pattern@
    }

    /// The pattern the expression was compiled from.
    pub fn source(&self) -> (res: &str)
        ensures
            res@ == self.pattern(),
    {
        self.pattern.as_str()
    }
}

/// Why the `regex` crate refuses `pattern`, or `None` where it compiles it.
pub uninterp spec fn regex_error(pattern: Seq<char>) -> Option<Seq<char>>;

/// What `Regex::replace_all` makes of `haystack` with the expression
/// compiled from `pattern` and the replacement `replacement`.
pub uninterp spec fn regex_replaced(
    pattern: Seq<char>,
    haystack: Seq<char>,
    replacement: Seq<char>,
) -> Seq<char>;

/// `md` with every citation link rewritten to a footnote marker.
pub open spec fn footnote_markers(md: Seq<char>) -> Seq<char> {
    regex_replaced(FOOTNOTE_PATTERN@, md, FOOTNOTE_REPLACEMENT@)
}

/// `Regex::new`: the compiled expression with its pattern, or the
/// compiler's error, rendered as text.
#[verifier::external_body]
fn compile_regex(pattern: &str) -> (res: Result<CompiledRegex, String>)
    ensures
        match res {
            Ok(r) => regex_error(pattern@) is None && r.pattern() == pattern@,
            Err(reason) => regex_error(pattern@) == Some(reason@),
        },
{
    match Regex::new(pattern) {
        Ok(regex) => Ok(CompiledRegex { pattern: pattern.to_string(), regex }),
        Err(e) => Err(e.to_string()),
    }
}

/// `Regex::replace_all`, its result taken as an owned string.
#[verifier::external_body]
fn replace_all_matches(re: &CompiledRegex, haystack: &str, replacement: &str) -> (res: String)
    ensures
        res@ == regex_replaced(re.pattern(), haystack@, replacement@),
{
    re.regex.replace_all(haystack, replacement).into_owned()
}

/// The expression that recognises citation links.
pub fn footnote_regex() -> (res: Result<CompiledRegex, String>)
    ensures
        match res {
            Ok(r) => regex_error(FOOTNOTE_PATTERN@) is None && r.pattern() == FOOTNOTE_PATTERN@,
            Err(reason) => regex_error(FOOTNOTE_PATTERN@) == Some(reason@),
        },
{
    compile_regex(FOOTNOTE_PATTERN)
}

/// Rewrites every citation link in `md`, `[\[N\]](#cite_note-...)` or
/// `[&#91;N&#93;](#cite_note-...)`, to the footnote marker `[^N]`, with an
/// expression compiled once from the citation-link pattern.
pub fn rewrite_footnote_markers(re: &CompiledRegex, md: &str) -> (res: String)
    requires
        re.pattern() == FOOTNOTE_PATTERN@,
    ensures
        res@ == footnote_markers(md@),
{
    replace_all_matches(re, md, FOOTNOTE_REPLACEMENT)
}

/// Rewrites every citation link in `md` to a footnote marker, compiling the
/// pattern. The pattern is expected to compile; where it would not, the
/// rewriting cannot be done, which `requires` excludes.
pub fn postprocess_footnote_markers(md: &str) -> (res: String)
    requires
        regex_error(FOOTNOTE_PATTERN@) is None,
    ensures
        res@ == footnote_markers(md@),
{
    match footnote_regex() {
        Ok(re) => rewrite_footnote_markers(&re, md),
        Err(_) => {
            assert(false);
            String::new()
        },
    }
}

/// Rewrites the citation links in `md` where the pattern compiles, and
/// answers `None` where it does not.
pub fn try_postprocess_footnote_markers(md: &str) -> (res: Option<String>)
    ensures
        res is Some <==> regex_error(FOOTNOTE_PATTERN@) is None,
        res matches Some(out) ==> out@ == footnote_markers(md@),
{
    match footnote_regex() {
        Ok(_) => Some(postprocess_footnote_markers(md)),
        Err(_) => None,
    }
}

} // verus!
