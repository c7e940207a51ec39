//! HTML to Markdown conversion around the `htmd` converter, with option
//! handling, selector-based preprocessing and footnote postprocessing.
pub mod converter;
pub mod error;
pub mod footnote;
pub mod handlers;
pub mod laws;
pub mod options;
pub mod preprocess;
pub mod style;
pub mod text;

use vstd::prelude::*;

use crate::converter::{
    build_converter, convert_default, convert_with, initial_config, markdown_of, new_builder,
};
use crate::error::HtmdError;
use crate::options::PyOptions;

verus! {

/// The Markdown that `convert_html` renders `html` to: under the options
/// applied to a fresh builder, or under htmd's defaults where there are
/// none.
pub open spec fn conversion(html: Seq<char>, options: Option<PyOptions>) -> Seq<char> {
    match options {
        Some(o) => markdown_of(html, o.configure(initial_config())),
        None => markdown_of(html, initial_config()),
    }
}

/// Converts an HTML string to Markdown, with the given options or htmd's
/// defaults.
pub fn convert_html(html: &str, options: Option<PyOptions>) -> (res: Result<String, HtmdError>)
    ensures
        res is Ok,
        res->Ok_0@ == conversion(html@, options),
{
    match options {
        Some(py_opts) => {
            let builder = new_builder();
            let builder = py_opts.apply_to_builder(builder);
            let converter = build_converter(builder);
            match convert_with(&converter, html) {
                Ok(markdown) => Ok(markdown),
                Err(e) => Err(HtmdError::Conversion(e)),
            }
        },
        None => match convert_default(html) {
            Ok(markdown) => Ok(markdown),
            Err(e) => Err(HtmdError::Conversion(e)),
        },
    }
}

/// Default options, except that elements with one of `tags` are skipped.
pub fn create_options_with_skip_tags(tags: Vec<String>) -> (res: Result<PyOptions, HtmdError>)
    ensures
        res is Ok,
        res->Ok_0.has_default_settings(),
        res->Ok_0.skip_tags@ == tags@,
{
    let mut options = PyOptions::new();
    options.skip_tags = tags;
    Ok(options)
}

} // verus!
