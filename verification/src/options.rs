//! The options object that callers fill in: htmd's options chosen by name,
//! tags to skip, and the text-only image and link handlers.
use vstd::prelude::*;

use htmd::HtmlToMarkdownBuilder;

use crate::converter::{
    builder_add_image_handler, builder_add_link_handler, builder_config, builder_skip_tags, builder_with_options,
    default_markdown_options, htmd_default_options, tag_views, ConverterConfig,
    HandlerModel,
};
use crate::handlers::{image_prefix, image_prefix_of, option_view};
use crate::style::{
    br_style_from_name, br_style_name, br_style_named, br_style_to_name,
    bullet_list_marker_from_name, bullet_list_marker_name, bullet_list_marker_named,
    bullet_list_marker_to_name, code_block_fence_from_name, code_block_fence_name,
    code_block_fence_named, code_block_fence_to_name, code_block_style_from_name,
    code_block_style_name, code_block_style_named, code_block_style_to_name,
    heading_style_from_name, heading_style_name, heading_style_named, heading_style_to_name,
    hr_style_from_name, hr_style_name, hr_style_named, hr_style_to_name,
    link_reference_style_from_name, link_reference_style_name, link_reference_style_named,
    link_reference_style_to_name, link_style_from_name, link_style_name, link_style_named,
    link_style_to_name, MarkdownOptions,
};

verus! {

/// Conversion options, each style given by its name.
#[derive(Clone, Debug)]
pub struct PyOptions {
    pub heading_style: String,
    pub hr_style: String,
    pub br_style: String,
    pub link_style: String,
    pub link_reference_style: String,
    pub code_block_style: String,
    pub code_block_fence: String,
    pub bullet_list_marker: String,
    pub preformatted_code: bool,
    /// Tags whose elements are left out of the Markdown.
    pub skip_tags: Vec<String>,
    /// When set, `<img>` elements are replaced with this text after
    /// substituting `{alt}` for the trimmed alt attribute's value.
    pub image_placeholder: Option<String>,
    /// When true, `<img>` elements whose alt attribute is empty or missing
    /// are dropped.
    pub drop_empty_alt_images: bool,
    /// When true, `<a>` elements whose content is a single image rendering
    /// are unwrapped.
    pub drop_image_only_links: bool,
}

impl PyOptions {
    /// The htmd options these names choose; the options that names do not
    /// reach keep htmd's defaults.
    pub open spec fn markdown_options(&self) -> MarkdownOptions {
        let d = htmd_default_options();
        MarkdownOptions {
            heading_style: heading_style_named(self.heading_style@),
            hr_style: hr_style_named(self.hr_style@),
            br_style: br_style_named(self.br_style@),
            link_style: link_style_named(self.link_style@),
            link_reference_style: link_reference_style_named(self.link_reference_style@),
            code_block_style: code_block_style_named(self.code_block_style@),
            code_block_fence: code_block_fence_named(self.code_block_fence@),
            bullet_list_marker: bullet_list_marker_named(self.bullet_list_marker@),
            ul_bullet_spacing: d.ul_bullet_spacing,
            ol_number_spacing: d.ol_number_spacing,
            preformatted_code: self.preformatted_code,
            translation_mode: d.translation_mode,
        }
    }

    /// Holds the names of htmd's default options and no image or link
    /// handling; the tags to skip may be any.
    pub open spec fn has_default_settings(&self) -> bool {
        let d = htmd_default_options();
        &&& self.heading_style@ == heading_style_name(d.heading_style)
        &&& self.hr_style@ == hr_style_name(d.hr_style)
        &&& self.br_style@ == br_style_name(d.br_style)
        &&& self.link_style@ == link_style_name(d.link_style)
        &&& self.link_reference_style@ == link_reference_style_name(d.link_reference_style)
        &&& self.code_block_style@ == code_block_style_name(d.code_block_style)
        &&& self.code_block_fence@ == code_block_fence_name(d.code_block_fence)
        &&& self.bullet_list_marker@ == bullet_list_marker_name(d.bullet_list_marker)
        &&& self.preformatted_code == d.preformatted_code
        &&& self.image_placeholder is None
        &&& !self.drop_empty_alt_images
        &&& !self.drop_image_only_links
    }

    /// Holds the names of htmd's default options, no tags to skip and no
    /// image or link handling.
    pub open spec fn is_default(&self) -> bool {
        self.has_default_settings() && self.skip_tags@.len() == 0
    }

    /// Whether an `<img>` handler is installed.
    pub open spec fn wants_image_handler(&self) -> bool {
        self.image_placeholder is Some || self.drop_empty_alt_images
    }

    /// The handlers these options register, in order: the skip handler
    /// when there are tags to skip, the `<img>` handler when a placeholder
    /// is set or empty-alt images are dropped, and the `<a>` handler when
    /// image-only links are unwrapped.
    pub open spec fn handlers(&self) -> Seq<(Seq<Seq<char>>, HandlerModel)> {
        let skip = if self.skip_tags@.len() > 0 {
            seq![(tag_views(self.skip_tags@), HandlerModel::Skip)]
        } else {
            Seq::empty()
        };
        let image = if self.wants_image_handler() {
            seq![
                (
                    seq!["img"@],
                    HandlerModel::Image {
                        template: option_view(self.image_placeholder),
                        drop_empty: self.drop_empty_alt_images,
                    },
                ),
            ]
        } else {
            Seq::empty()
        };
        let link = if self.drop_image_only_links {
            seq![
                (
                    seq!["a"@],
                    HandlerModel::ImageOnlyLink {
                        prefix: image_prefix(option_view(self.image_placeholder)),
                    },
                ),
            ]
        } else {
            Seq::empty()
        };
        skip + image + link
    }

    /// `base` with these options applied: the options replaced, these
    /// options' handlers registered after the ones already there.
    pub open spec fn configure(&self, base: ConverterConfig) -> ConverterConfig {
        ConverterConfig {
            options: self.markdown_options(),
            handlers: base.handlers + self.handlers(),
            scripting_enabled: base.scripting_enabled,
        }
    }

    /// Options that name htmd's defaults, skip no tags and install no
    /// image or link handling.
    pub fn new() -> (res: Self)
        ensures
            res.is_default(),
    {
        let d = default_markdown_options();
        PyOptions {
            heading_style: heading_style_to_name(d.heading_style),
            hr_style: hr_style_to_name(d.hr_style),
            br_style: br_style_to_name(d.br_style),
            link_style: link_style_to_name(d.link_style),
            link_reference_style: link_reference_style_to_name(d.link_reference_style),
            code_block_style: code_block_style_to_name(d.code_block_style),
            code_block_fence: code_block_fence_to_name(d.code_block_fence),
            bullet_list_marker: bullet_list_marker_to_name(d.bullet_list_marker),
            preformatted_code: d.preformatted_code,
            skip_tags: Vec::new(),
            image_placeholder: None,
            drop_empty_alt_images: false,
            drop_image_only_links: false,
        }
    }

    /// The htmd options these names choose.
    pub fn to_htmd_options(&self) -> (res: MarkdownOptions)
        ensures
            res == self.markdown_options(),
    {
        let d = default_markdown_options();
        MarkdownOptions {
            heading_style: heading_style_from_name(&self.heading_style),
            hr_style: hr_style_from_name(&self.hr_style),
            br_style: br_style_from_name(&self.br_style),
            link_style: link_style_from_name(&self.link_style),
            link_reference_style: link_reference_style_from_name(&self.link_reference_style),
            code_block_style: code_block_style_from_name(&self.code_block_style),
            code_block_fence: code_block_fence_from_name(&self.code_block_fence),
            bullet_list_marker: bullet_list_marker_from_name(&self.bullet_list_marker),
            ul_bullet_spacing: d.ul_bullet_spacing,
            ol_number_spacing: d.ol_number_spacing,
            preformatted_code: self.preformatted_code,
            translation_mode: d.translation_mode,
        }
    }

    /// Applies the options to a builder: sets htmd's options, then
    /// registers the skip, `<img>` and `<a>` handlers that the options ask
    /// for.
    pub fn apply_to_builder(&self, builder: HtmlToMarkdownBuilder) -> (res: HtmlToMarkdownBuilder)
        ensures
            builder_config(res) == self.configure(builder_config(builder)),
    {
        let ghost base = builder_config(builder);
        let options = self.to_htmd_options();
        let mut builder = builder_with_options(builder, &options);
        let ghost mut handlers: Seq<(Seq<Seq<char>>, HandlerModel)> = Seq::empty();

        if self.skip_tags.len() > 0 {
            builder = builder_skip_tags(builder, &self.skip_tags);
            proof {
                handlers = handlers.push((tag_views(self.skip_tags@), HandlerModel::Skip));
            }
        }
        assert(builder_config(builder).handlers =~= base.handlers + handlers);

        if self.image_placeholder.is_some() || self.drop_empty_alt_images {
            let template = self.image_placeholder.clone();
            let mut tags: Vec<String> = Vec::new();
            tags.push(String::from_str("img"));
            builder = builder_add_image_handler(
                builder,
                &tags,
                template,
                self.drop_empty_alt_images,
            );
            proof {
                assert(tag_views(tags@) =~= seq!["img"@]);
                handlers = handlers.push(
                    (
                        tag_views(tags@),
                        HandlerModel::Image {
                            template: option_view(self.image_placeholder),
                            drop_empty: self.drop_empty_alt_images,
                        },
                    ),
                );
            }
        }
        assert(builder_config(builder).handlers =~= base.handlers + handlers);

        if self.drop_image_only_links {
            let prefix = image_prefix_of(&self.image_placeholder);
            let ghost prefix_view = prefix@;
            let mut tags: Vec<String> = Vec::new();
            tags.push(String::from_str("a"));
            builder = builder_add_link_handler(builder, &tags, prefix);
            proof {
                assert(tag_views(tags@) =~= seq!["a"@]);
                handlers = handlers.push(
                    (tag_views(tags@), HandlerModel::ImageOnlyLink { prefix: prefix_view }),
                );
            }
        }
        assert(builder_config(builder).handlers =~= base.handlers + handlers);
        assert(handlers =~= self.handlers());
        builder
    }
}

} // verus!
