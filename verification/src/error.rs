//! The errors the library reports, and the messages that describe them.
use vstd::prelude::*;

verus! {

/// What went wrong.
#[derive(Clone, Debug, PartialEq, Eq)]
pub enum HtmdError {
    /// htmd could not convert the HTML.
    Conversion(String),
    /// A CSS selector did not parse; `reason` is lol_html's account of why.
    InvalidSelector { selector: String, reason: String },
    /// lol_html's rewriter failed.
    Rewrite(String),
}

/// The model of an [`HtmdError`].
pub enum ErrorModel {
    Conversion(Seq<char>),
    InvalidSelector { selector: Seq<char>, reason: Seq<char> },
    Rewrite(Seq<char>),
}

impl View for HtmdError {
    type V = ErrorModel;

    open spec fn view(&self) -> ErrorModel {
        match self {
            HtmdError::Conversion(m) => ErrorModel::Conversion(m@),
            HtmdError::InvalidSelector { selector, reason } => ErrorModel::InvalidSelector {
                selector: selector@,
                reason: reason@,
            },
            HtmdError::Rewrite(m) => ErrorModel::Rewrite(m@),
        }
    }
}

/// The message that describes an error.
pub open spec fn message_of(e: ErrorModel) -> Seq<char> {
    match e {
        ErrorModel::Conversion(m) => "Conversion error: "@ + m,
        ErrorModel::InvalidSelector { selector, reason } => "invalid CSS selector '"@ + selector
            + "': "@ + reason,
        ErrorModel::Rewrite(m) => "lol_html rewrite failed: "@ + m,
    }
}

/// A result of the library, by views.
pub open spec fn result_view(r: Result<String, HtmdError>) -> Result<Seq<char>, ErrorModel> {
    match r {
        Ok(s) => Ok(s@),
        Err(e) => Err(e@),
    }
}

impl HtmdError {
    /// The message that describes this error.
    pub fn message(&self) -> (res: String)
        ensures
            res@ == message_of(self@),
    {
        match self {
            HtmdError::Conversion(m) => {
                let mut s = String::from_str("Conversion error: ");
                s.append(m.as_str());
                s
            },
            HtmdError::InvalidSelector { selector, reason } => {
                let mut s = String::from_str("invalid CSS selector '");
                s.append(selector.as_str());
                s.append("': ");
                s.append(reason.as_str());
                s
            },
            HtmdError::Rewrite(m) => {
                let mut s = String::from_str("lol_html rewrite failed: ");
                s.append(m.as_str());
                s
            },
        }
    }
}

} // verus!
