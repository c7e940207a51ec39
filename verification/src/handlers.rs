//! The custom element handlers that the options install: what an `<img>`
//! or `<a>` element is rendered as, decided from its attributes and from
//! the Markdown its children render to.
use vstd::prelude::*;

use crate::text::{
    before_first, begins_with, chars_of, prefix_before, replace_all, replace_chars, starts_with,
    trim_chars, trim_str, trimmed,
};

verus! {

pub open spec fn option_view(o: Option<String>) -> Option<Seq<char>> {
    match o {
        Some(s) => Some(s@),
        None => None,
    }
}

/// What a handler answers for an element.
#[derive(Clone, Debug, PartialEq, Eq)]
pub enum Response {
    /// Emit this Markdown in place of the element.
    Emit(String),
    /// Leave the element to the handler registered before this one.
    Fallback,
}

/// The model of a [`Response`].
pub enum ResponseModel {
    Emit(Seq<char>),
    Fallback,
}

impl View for Response {
    type V = ResponseModel;

    open spec fn view(&self) -> ResponseModel {
        match self {
            Response::Emit(s) => ResponseModel::Emit(s@),
            Response::Fallback => ResponseModel::Fallback,
        }
    }
}

/// The value of the first attribute named `name`, or the empty text where
/// there is none.
pub open spec fn attribute_value(attrs: Seq<(String, String)>, name: Seq<char>) -> Seq<char>
    decreases attrs.len(),
{
    if attrs.len() == 0 {
        Seq::empty()
    } else if attrs[0].0@ == name {
        attrs[0].1@
    } else {
        attribute_value(attrs.drop_first(), name)
    }
}

/// The placeholder's text before the first `{alt}`, or the Markdown image
/// marker `![` where there is no placeholder: how an image's rendering
/// begins.
pub open spec fn image_prefix(template: Option<Seq<char>>) -> Seq<char> {
    match template {
        Some(t) => before_first(t, "{alt}"@),
        None => "!["@,
    }
}

/// What an `<img>` with attributes `attrs` is rendered as.
pub open spec fn image_response(
    template: Option<Seq<char>>,
    drop_empty: bool,
    attrs: Seq<(String, String)>,
) -> ResponseModel {
    let alt = trimmed(attribute_value(attrs, "alt"@));
    if alt.len() == 0 && drop_empty {
        ResponseModel::Emit(Seq::empty())
    } else {
        match template {
            Some(t) => ResponseModel::Emit(replace_all(t, "{alt}"@, alt)),
            None => ResponseModel::Fallback,
        }
    }
}

/// Whether a link whose children render to `inner` holds only an image.
pub open spec fn is_image_only(prefix: Seq<char>, inner: Seq<char>) -> bool {
    let t = trimmed(inner);
    t.len() == 0 || (prefix.len() > 0 && starts_with(t, prefix))
}

/// What an `<a>` whose children render to `inner` is rendered as.
pub open spec fn link_response(prefix: Seq<char>, inner: Seq<char>) -> ResponseModel {
    if is_image_only(prefix, inner) {
        ResponseModel::Emit(inner)
    } else {
        ResponseModel::Fallback
    }
}

/// The value of the first attribute named `name`.
pub fn find_attribute(attrs: &Vec<(String, String)>, name: &str) -> (res: String)
    ensures
        res@ == attribute_value(attrs@, name@),
{
    let wanted = String::from_str(name);
    let mut i: usize = 0;
    assert(attrs@.skip(0) =~= attrs@);
    while i < attrs.len()
        invariant
            i <= attrs.len(),
            wanted@ == name@,
            attribute_value(attrs@, name@) == attribute_value(attrs@.skip(i as int), name@),
        decreases attrs.len() - i,
    {
        assert(attrs@.skip(i as int).drop_first() =~= attrs@.skip(i + 1));
        if attrs[i].0 == wanted {
            return attrs[i].1.clone();
        }
        i = i + 1;
    }
    String::new()
}

/// The placeholder's text before the first `{alt}`, or `![`.
pub fn image_prefix_of(template: &Option<String>) -> (res: String)
    ensures
        res@ == image_prefix(option_view(*template)),
{
    match template {
        Some(t) => {
            let chars = chars_of(t.as_str());
            let marker = chars_of("{alt}");
            prefix_before(&chars, &marker)
        },
        None => String::from_str("!["),
    }
}

/// What the `<img>` handler answers, from the element's attributes alone:
/// nothing where empty-alt images are dropped and the trimmed alt text is
/// empty, the placeholder with `{alt}` replaced by the trimmed alt text
/// where there is one, and otherwise a fallback to htmd's own handler.
pub fn image_answer(
    template: &Option<String>,
    drop_empty: bool,
    attrs: &Vec<(String, String)>,
) -> (res: Response)
    ensures
        res@ == image_response(option_view(*template), drop_empty, attrs@),
{
    let raw = find_attribute(attrs, "alt");
    let alt = trim_str(raw.as_str());
    let alt_chars = chars_of(alt.as_str());
    if alt_chars.len() == 0 && drop_empty {
        return Response::Emit(String::new());
    }
    match template {
        Some(t) => {
            let chars = chars_of(t.as_str());
            let marker = chars_of("{alt}");
            proof {
                reveal_strlit("{alt}");
            }
            Response::Emit(replace_chars(&chars, &marker, alt.as_str()))
        },
        None => Response::Fallback,
    }
}

/// What the `<a>` handler answers, from the Markdown the link's children
/// render to: that Markdown itself where the link holds only an image
/// (its trimmed content is empty or begins with a non-empty `prefix`),
/// and otherwise a fallback to htmd's own handler.
pub fn link_answer(prefix: &String, inner: &String) -> (res: Response)
    ensures
        res@ == link_response(prefix@, inner@),
{
    let content = chars_of(inner.as_str());
    let t = trim_chars(&content);
    let t_chars = chars_of(t.as_str());
    let p = chars_of(prefix.as_str());
    if t_chars.len() == 0 || (p.len() > 0 && begins_with(&t_chars, &p)) {
        Response::Emit(inner.clone())
    } else {
        Response::Fallback
    }
}

} // verus!
