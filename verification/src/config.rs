//! Border presets and cell padding.

use crate::frame::{
    restyled, restyled_bare, style_ascii, style_ascii_rounded, style_blank, style_dots,
    style_empty, style_extended, style_markdown, style_markdown_bare, style_modern,
    style_modern_rounded, style_psql, style_psql_bare, style_re_structured_text,
    style_re_structured_text_bare, style_rounded, style_rounded_bare, style_sharp,
    style_sharp_bare,
};
use tabled::Table;
use vstd::prelude::*;

verus! {

/// The border presets a table can be drawn with.
#[derive(Debug, Clone, Copy, PartialEq, Eq)]
pub enum TableStyle {
    Ascii,
    AsciiRounded,
    Blank,
    Dots,
    Empty,
    Extended,
    Markdown,
    Modern,
    ModernRounded,
    Psql,
    ReStructuredText,
    Rounded,
    Sharp,
}

/// Blank columns put to the left and to the right of every cell's text.
pub struct TablePadding {
    pub left: usize,
    pub right: usize,
}

/// How a table is drawn: its border preset and its cell padding.
pub struct RenderConfig {
    pub style: TableStyle,
    pub padding: TablePadding,
}

impl TableStyle {
    /// Whether the preset rules a line under the first row and nowhere else
    /// between rows, which sets a header apart from the body.
    pub open spec fn has_rule(self) -> bool {
        match self {
            TableStyle::Markdown
            | TableStyle::Psql
            | TableStyle::ReStructuredText
            | TableStyle::Rounded
            | TableStyle::Sharp => true,
            _ => false,
        }
    }

    /// Gives the table the borders of this preset, but not the line that the
    /// preset would rule under the first row. For a table of a single row,
    /// where that line would stand in the place of the bottom border.
    pub fn apply_bare_to(self, data: &mut Table)
        ensures
            restyled_bare(*old(data), *final(data), self),
    {
        match self {
            TableStyle::Markdown => style_markdown_bare(data),
            TableStyle::Psql => style_psql_bare(data),
            TableStyle::ReStructuredText => style_re_structured_text_bare(data),
            TableStyle::Rounded => style_rounded_bare(data),
            TableStyle::Sharp => style_sharp_bare(data),
            _ => {
                self.apply_to(data);
            },
        }
    }

    /// Gives the table the borders of this preset in place of those it had.
    /// Its rows and its padding stay as they were.
    pub fn apply_to(self, data: &mut Table) -> (out: &mut Table)
        ensures
            restyled(*old(data), *out, self),
            *final(out) == *final(data),
    {
        match self {
            TableStyle::Ascii => style_ascii(data),
            TableStyle::AsciiRounded => style_ascii_rounded(data),
            TableStyle::Blank => style_blank(data),
            TableStyle::Dots => style_dots(data),
            TableStyle::Empty => style_empty(data),
            TableStyle::Extended => style_extended(data),
            TableStyle::Markdown => style_markdown(data),
            TableStyle::Modern => style_modern(data),
            TableStyle::ModernRounded => style_modern_rounded(data),
            TableStyle::Psql => style_psql(data),
            TableStyle::ReStructuredText => style_re_structured_text(data),
            TableStyle::Rounded => style_rounded(data),
            TableStyle::Sharp => style_sharp(data),
        }
        data
    }
}

} // verus!
