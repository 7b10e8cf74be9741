//! The `tabled` crate as this library sees it.
//!
//! Nothing in this file is proved. Each function states what the `tabled`
//! source shows of the one call it makes, over the cells that a builder or a
//! table holds and the drawing settings that a table carries.

use crate::config::{RenderConfig, TablePadding, TableStyle};
use crate::grid::{drawable, padded, widened, Grid, Row};
use tabled::builder::Builder;
use tabled::settings::{Alignment, Padding, Style};
use tabled::Table;
use vstd::prelude::*;

verus! {

#[verifier::external_type_specification]
#[verifier::external_body]
pub struct ExBuilder(Builder);

#[verifier::external_type_specification]
#[verifier::external_body]
pub struct ExTable(Table);

/// The rows a builder holds.
pub uninterp spec fn builder_rows(b: Builder) -> Grid;

/// The number of columns a builder has grown to.
pub uninterp spec fn builder_width(b: Builder) -> nat;

/// The rows a table holds.
pub uninterp spec fn table_rows(t: Table) -> Grid;

/// The drawing settings of a table, where they are exactly these: text aligned
/// to the left, the borders of one preset, with or without the line that some
/// presets rule under the first row, blanks as left and right padding, and
/// everything else as `Builder::build` leaves it. `None` for a table set up in
/// any other way.
pub uninterp spec fn table_look(t: Table) -> Option<RenderConfig>;

/// Whether the table's settings hold a line of their own for the place under
/// the first row, as the presets `markdown`, `psql`, `re_structured_text`,
/// `rounded` and `sharp` bring one.
pub uninterp spec fn table_ruled(t: Table) -> bool;

/// The text that `tabled` draws for a table of the given rows and settings,
/// with or without the line under the first row.
pub uninterp spec fn table_text(rows: Grid, look: RenderConfig, ruled: bool) -> Seq<char>;

/// The settings of a table fresh from `Builder::build`.
pub open spec fn fresh_look() -> RenderConfig {
    RenderConfig { style: TableStyle::Ascii, padding: TablePadding { left: 1, right: 1 } }
}

/// What `Builder::push_record` leaves in a builder that held `rows` in `width`
/// columns: the builder grows to the longer of `width` and the record, the rows
/// it held gain as many empty cells as it grew by, and the record, lengthened
/// by empty cells to the new width, becomes the last row.
pub open spec fn with_record(rows: Grid, width: nat, record: Row) -> Grid {
    if record.len() > width {
        widened(rows, record.len() - width).push(record)
    } else {
        rows.push(padded(record, width - record.len()))
    }
}

/// What applying a border preset does to a table: the rows stay, the borders
/// and lines it had are replaced by the preset's, and settings that were plain
/// keep their padding.
pub open spec fn restyled(before: Table, after: Table, style: TableStyle) -> bool {
    &&& table_rows(after) == table_rows(before)
    &&& table_look(before) matches Some(look) ==> table_look(after) == Some(
        RenderConfig { style, padding: look.padding },
    )
    &&& table_ruled(after) == style.has_rule()
}

/// What applying a border preset without its horizontal lines does to a table:
/// as `restyled`, but no line is left for the place under the first row.
pub open spec fn restyled_bare(before: Table, after: Table, style: TableStyle) -> bool {
    &&& table_rows(after) == table_rows(before)
    &&& table_look(before) matches Some(look) ==> table_look(after) == Some(
        RenderConfig { style, padding: look.padding },
    )
    &&& !table_ruled(after)
}

/// `Builder::default`: a builder with no rows and no columns.
#[verifier::external_body]
pub(crate) fn new_builder() -> (b: Builder)
    ensures
        builder_rows(b) == Seq::<Row>::empty(),
        builder_width(b) == 0,
{
    Builder::default()
}

/// `Builder::push_record`: appends the record as the last row, keeping all
/// rows equally long as `with_record` describes.
#[verifier::external_body]
pub(crate) fn push_record(b: &mut Builder, record: &Vec<String>)
    ensures
        builder_rows(*final(b)) == with_record(
            builder_rows(*old(b)),
            builder_width(*old(b)),
            record.deep_view(),
        ),
        builder_width(*final(b)) == if record.len() > builder_width(*old(b)) {
            record.len() as nat
        } else {
            builder_width(*old(b))
        },
{
    b.push_record(record);
}

/// `Builder::build`: a table of the builder's rows, with the settings that
/// `tabled` starts from: left alignment, the `ascii` borders, one blank of
/// padding on either side.
#[verifier::external_body]
pub(crate) fn build(b: Builder) -> (t: Table)
    ensures
        table_rows(t) == builder_rows(b),
        table_look(t) == Some(fresh_look()),
        !table_ruled(t),
{
    b.build()
}

/// `Table::count_rows`: the number of rows the table holds.
#[verifier::external_body]
pub(crate) fn count_rows(t: &Table) -> (n: usize)
    ensures
        n == table_rows(*t).len(),
{
    t.count_rows()
}

/// `Table::with` of `Alignment::left`: sets the horizontal alignment of all
/// cells to the left, which plain settings have already.
#[verifier::external_body]
pub(crate) fn align_left(t: &mut Table)
    ensures
        table_rows(*final(t)) == table_rows(*old(t)),
        table_look(*old(t)) is Some ==> table_look(*final(t)) == table_look(*old(t)),
        table_ruled(*final(t)) == table_ruled(*old(t)),
{
    t.with(Alignment::left());
}

/// `Table::with` of `Padding::new`: sets the left and right padding of all
/// cells to that many blanks, and the top and bottom padding to none.
#[verifier::external_body]
pub(crate) fn set_padding(t: &mut Table, left: usize, right: usize)
    ensures
        table_rows(*final(t)) == table_rows(*old(t)),
        table_look(*old(t)) matches Some(look) ==> table_look(*final(t)) == Some(
            RenderConfig { style: look.style, padding: TablePadding { left, right } },
        ),
        table_ruled(*final(t)) == table_ruled(*old(t)),
{
    t.with(Padding::new(left, right, 0, 0));
}

/// `Table::with` of `Style::ascii`.
#[verifier::external_body]
pub(crate) fn style_ascii(t: &mut Table)
    ensures
        restyled(*old(t), *final(t), TableStyle::Ascii),
{
    t.with(Style::ascii());
}

/// `Table::with` of `Style::ascii_rounded`.
#[verifier::external_body]
pub(crate) fn style_ascii_rounded(t: &mut Table)
    ensures
        restyled(*old(t), *final(t), TableStyle::AsciiRounded),
{
    t.with(Style::ascii_rounded());
}

/// `Table::with` of `Style::blank`.
#[verifier::external_body]
pub(crate) fn style_blank(t: &mut Table)
    ensures
        restyled(*old(t), *final(t), TableStyle::Blank),
{
    t.with(Style::blank());
}

/// `Table::with` of `Style::dots`.
#[verifier::external_body]
pub(crate) fn style_dots(t: &mut Table)
    ensures
        restyled(*old(t), *final(t), TableStyle::Dots),
{
    t.with(Style::dots());
}

/// `Table::with` of `Style::empty`.
#[verifier::external_body]
pub(crate) fn style_empty(t: &mut Table)
    ensures
        restyled(*old(t), *final(t), TableStyle::Empty),
{
    t.with(Style::empty());
}

/// `Table::with` of `Style::extended`.
#[verifier::external_body]
pub(crate) fn style_extended(t: &mut Table)
    ensures
        restyled(*old(t), *final(t), TableStyle::Extended),
{
    t.with(Style::extended());
}

/// `Table::with` of `Style::markdown`.
#[verifier::external_body]
pub(crate) fn style_markdown(t: &mut Table)
    ensures
        restyled(*old(t), *final(t), TableStyle::Markdown),
{
    t.with(Style::markdown());
}

/// `Table::with` of `Style::modern`.
#[verifier::external_body]
pub(crate) fn style_modern(t: &mut Table)
    ensures
        restyled(*old(t), *final(t), TableStyle::Modern),
{
    t.with(Style::modern());
}

/// `Table::with` of `Style::modern_rounded`.
#[verifier::external_body]
pub(crate) fn style_modern_rounded(t: &mut Table)
    ensures
        restyled(*old(t), *final(t), TableStyle::ModernRounded),
{
    t.with(Style::modern_rounded());
}

/// `Table::with` of `Style::psql`.
#[verifier::external_body]
pub(crate) fn style_psql(t: &mut Table)
    ensures
        restyled(*old(t), *final(t), TableStyle::Psql),
{
    t.with(Style::psql());
}

/// `Table::with` of `Style::re_structured_text`.
#[verifier::external_body]
pub(crate) fn style_re_structured_text(t: &mut Table)
    ensures
        restyled(*old(t), *final(t), TableStyle::ReStructuredText),
{
    t.with(Style::re_structured_text());
}

/// `Table::with` of `Style::rounded`.
#[verifier::external_body]
pub(crate) fn style_rounded(t: &mut Table)
    ensures
        restyled(*old(t), *final(t), TableStyle::Rounded),
{
    t.with(Style::rounded());
}

/// `Table::with` of `Style::sharp`.
#[verifier::external_body]
pub(crate) fn style_sharp(t: &mut Table)
    ensures
        restyled(*old(t), *final(t), TableStyle::Sharp),
{
    t.with(Style::sharp());
}

/// `Table::with` of `Style::markdown` after `Style::remove_horizontals`.
#[verifier::external_body]
pub(crate) fn style_markdown_bare(t: &mut Table)
    ensures
        restyled_bare(*old(t), *final(t), TableStyle::Markdown),
{
    t.with(Style::markdown().remove_horizontals());
}

/// `Table::with` of `Style::psql` after `Style::remove_horizontals`.
#[verifier::external_body]
pub(crate) fn style_psql_bare(t: &mut Table)
    ensures
        restyled_bare(*old(t), *final(t), TableStyle::Psql),
{
    t.with(Style::psql().remove_horizontals());
}

/// `Table::with` of `Style::re_structured_text` after
/// `Style::remove_horizontals`.
#[verifier::external_body]
pub(crate) fn style_re_structured_text_bare(t: &mut Table)
    ensures
        restyled_bare(*old(t), *final(t), TableStyle::ReStructuredText),
{
    t.with(Style::re_structured_text().remove_horizontals());
}

/// `Table::with` of `Style::rounded` after `Style::remove_horizontals`.
#[verifier::external_body]
pub(crate) fn style_rounded_bare(t: &mut Table)
    ensures
        restyled_bare(*old(t), *final(t), TableStyle::Rounded),
{
    t.with(Style::rounded().remove_horizontals());
}

/// `Table::with` of `Style::sharp` after `Style::remove_horizontals`.
#[verifier::external_body]
pub(crate) fn style_sharp_bare(t: &mut Table)
    ensures
        restyled_bare(*old(t), *final(t), TableStyle::Sharp),
{
    t.with(Style::sharp().remove_horizontals());
}

/// `Table`'s `to_string`: the drawn table. A table without rows or without
/// columns draws as the empty text. The widths that `tabled` adds up must fit
/// a `usize`, which `drawable` makes sure of.
#[verifier::external_body]
pub(crate) fn draw(t: &Table) -> (text: String)
    requires
        table_look(*t) matches Some(look) && drawable(table_rows(*t), look),
    ensures
        text@ == table_text(table_rows(*t), table_look(*t)->0, table_ruled(*t)),
        table_rows(*t).len() == 0 || table_rows(*t)[0].len() == 0 ==> text@.len() == 0,
{
    t.to_string()
}

} // verus!
