//! HTML to Markdown conversion, with optional cleanup passes.
//!
//! The rendering itself is the html2md engine's; its result is a named
//! function of the input (see `markdown_of`).  The cleanup passes are
//! rewrites by fixed patterns, named over the regex engine's
//! replacement function.

use vstd::prelude::*;
use vstd::string::StringExecFns;

verus! {

/// What html2md::parse_html renders for a document; a function of the
/// input text alone.
pub uninterp spec fn markdown_of(html: Seq<char>) -> Seq<char>;

/// Relies on html2md::parse_html: the Markdown rendering of the
/// document, depending on the input text alone.
#[verifier::external_body]
fn parse_html(html: &str) -> (r: String)
    ensures
        r@ == markdown_of(html@),
{
    html2md::parse_html(html)
}

/// What regex::Regex::replace_all yields for a valid pattern: the text
/// with every non-overlapping match replaced; a function of the three
/// texts alone.
pub uninterp spec fn regex_replaced(
    pattern: Seq<char>,
    text: Seq<char>,
    rep: Seq<char>,
) -> Seq<char>;

/// Relies on regex::Regex::new and Regex::replace_all: every
/// non-overlapping match of the pattern is replaced; a pattern that does
/// not compile leaves the text unchanged.
#[verifier::external_body]
fn regex_replace_all(pattern: &str, text: &str, rep: &str) -> (r: String)
    ensures
        crate::discovery::registry::regex_valid(pattern@) ==> r@ == regex_replaced(
            pattern@,
            text@,
            rep@,
        ),
        !crate::discovery::registry::regex_valid(pattern@) ==> r@ == text@,
{
    match regex::Regex::new(pattern) {
        Ok(re) => re.replace_all(text, rep).to_string(),
        Err(_) => text.to_string(),
    }
}

/// What a conversion keeps or strips.
#[derive(Clone, Copy, Debug)]
pub struct ConversionOptions {
    pub include_code_blocks: bool,
    pub preserve_links: bool,
    pub include_tables: bool,
    pub strip_images: bool,
}

impl Default for ConversionOptions {
    /// Keep everything, strip nothing.
    fn default() -> (c: ConversionOptions)
        ensures
            c.include_code_blocks,
            c.preserve_links,
            c.include_tables,
            !c.strip_images,
    {
        ConversionOptions {
            include_code_blocks: true,
            preserve_links: true,
            include_tables: true,
            strip_images: false,
        }
    }
}

/// The image-stripping pass: Markdown image references removed.
pub open spec fn spec_strip_images(md: Seq<char>) -> Seq<char> {
    regex_replaced("!\\[.*?\\]\\([^)]*\\)"@, md, Seq::empty())
}

/// The whitespace pass: runs of three or more newlines squeezed to two.
pub open spec fn spec_normalize_whitespace(md: Seq<char>) -> Seq<char> {
    regex_replaced("\\n{3,}"@, md, "\n\n"@)
}

/// Remove Markdown image references.
pub fn strip_images(markdown: &str) -> (r: String)
    ensures
        crate::discovery::registry::regex_valid("!\\[.*?\\]\\([^)]*\\)"@) ==> r@
            == spec_strip_images(markdown@),
{
    proof {
        reveal_strlit("");
    }
    let r = regex_replace_all("!\\[.*?\\]\\([^)]*\\)", markdown, "");
    proof {
        assert(""@ =~= Seq::<char>::empty());
    }
    r
}

/// Squeeze runs of blank lines.
pub fn normalize_whitespace(markdown: &str) -> (r: String)
    ensures
        crate::discovery::registry::regex_valid("\\n{3,}"@) ==> r@ == spec_normalize_whitespace(
            markdown@,
        ),
{
    regex_replace_all("\\n{3,}", markdown, "\n\n")
}

/// Converts HTML documents to Markdown.
#[derive(Clone, Copy, Debug)]
pub struct Converter {
    pub options: ConversionOptions,
}

impl Default for Converter {
    fn default() -> (c: Converter)
        ensures
            !c.options.strip_images,
    {
        Converter::new()
    }
}

impl Converter {
    pub fn new() -> (c: Converter)
        ensures
            c.options.include_code_blocks,
            c.options.preserve_links,
            c.options.include_tables,
            !c.options.strip_images,
    {
        Converter { options: ConversionOptions::default() }
    }

    pub fn with_options(options: ConversionOptions) -> (c: Converter)
        ensures
            c.options == options,
    {
        Converter { options }
    }

    /// The plain rendering of a document.
    pub fn convert(&self, html: &str) -> (r: Result<String, String>)
        ensures
            r matches Ok(md) && md@ == markdown_of(html@),
    {
        Ok(parse_html(html))
    }

    /// Render, strip images when asked, and squeeze blank lines.
    pub fn convert_with_cleanup(&self, html: &str) -> (r: Result<String, String>)
        ensures
            r is Ok,
            (r matches Ok(md) && crate::discovery::registry::regex_valid(
                "!\\[.*?\\]\\([^)]*\\)"@,
            ) && crate::discovery::registry::regex_valid("\\n{3,}"@)) ==> (
            r matches Ok(md) && md@ == spec_normalize_whitespace(
                if self.options.strip_images {
                    spec_strip_images(markdown_of(html@))
                } else {
                    markdown_of(html@)
                },
            )),
    {
        let markdown = parse_html(html);
        let result = if self.options.strip_images {
            strip_images(markdown.as_str())
        } else {
            markdown
        };
        Ok(normalize_whitespace(result.as_str()))
    }

    /// Render and strip images unconditionally.
    pub fn strip_images_only(&self, html: &str) -> (r: Result<String, String>)
        ensures
            r is Ok,
            crate::discovery::registry::regex_valid("!\\[.*?\\]\\([^)]*\\)"@) ==> (
            r matches Ok(md) && md@ == spec_strip_images(markdown_of(html@))),
    {
        let markdown = parse_html(html);
        Ok(strip_images(markdown.as_str()))
    }
}

} // verus!
