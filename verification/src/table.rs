//! Table formatting: a sequence of display rows becomes a bordered text
//! table in tabled's modern box-drawing style, with the first and the last
//! column word-wrapped to a display width of ten characters.
//!
//! The text layout itself is tabled's work and is named, not restated, by
//! `table_text`; this module's verified part pins down exactly which cell
//! records — header first, then one record per row, fields in column order —
//! are handed to it.

use tabled::settings::object::Columns;
use tabled::settings::{Modify, Style, Width};
use tabled::Table;
use vstd::prelude::*;

verus! {

/// A meal projected into exactly the ordered columns used for rendering:
/// name, category, prices, notes.  The name (first column) and the notes
/// (last column) are the wrap candidates.
#[derive(Debug)]
pub struct DisplayRow {
    pub name: String,
    pub category: String,
    pub prices: String,
    pub notes: String,
}

/// The cell record a display row contributes to the table, fields in column
/// order.
pub open spec fn row_cells(r: DisplayRow) -> Seq<Seq<char>> {
    seq![r.name@, r.category@, r.prices@, r.notes@]
}

/// The header record: the column titles, in column order.
pub open spec fn header_cells() -> Seq<Seq<char>> {
    seq!["name"@, "category"@, "prices"@, "notes"@]
}

/// All cell records of a table: the header record first, then one record
/// per display row, in row order.
pub open spec fn table_records(rows: Seq<DisplayRow>) -> Seq<Seq<Seq<char>>> {
    seq![header_cells()] + rows.map(|i: int, r: DisplayRow| row_cells(r))
}

/// The text that tabled renders for the given cell records, in the modern
/// box-drawing style with the first and last columns word-wrapped to width
/// ten.  The text depends on the records alone.
pub uninterp spec fn table_text(records: Seq<Seq<Seq<char>>>) -> Seq<char>;

/// Relies on tabled (`Table`, `Style::modern`, `Width::wrap(10).keep_words`):
/// renders the given records as a bordered table, first and last column
/// word-wrapped to ten characters; the text is a function of the records
/// alone.
#[verifier::external_body]
fn tabled_text(records: &Vec<Vec<String>>) -> (r: String)
    ensures
        r@ == table_text(records.deep_view()),
{
    let mut table = Table::from_iter(records.iter().map(|rec| rec.iter().map(|c| c.as_str())));
    table.with(Style::modern()).with(
        Modify::new(Columns::first()).with(Width::wrap(10usize).keep_words(true)),
    ).with(Modify::new(Columns::last()).with(Width::wrap(10usize).keep_words(true)));
    table.to_string()
}

/// Formats display rows as a bordered text table: the header record first,
/// then one record per row in order, rendered by tabled.  Works for zero
/// rows (borders and header only) as for arbitrarily many.
pub fn format_table(rows: &Vec<DisplayRow>) -> (r: String)
    ensures
        r@ == table_text(table_records(rows@)),
{
    let mut records: Vec<Vec<String>> = Vec::new();
    let mut header: Vec<String> = Vec::new();
    header.push(String::from_str("name"));
    header.push(String::from_str("category"));
    header.push(String::from_str("prices"));
    header.push(String::from_str("notes"));
    assert(header.deep_view() =~= header_cells());
    records.push(header);
    let ghost all = table_records(rows@);
    assert(records.deep_view() =~= all.take(1));
    let mut i: usize = 0;
    while i < rows.len()
        invariant
            i <= rows.len(),
            all == table_records(rows@),
            records.deep_view() =~= all.take(i + 1),
        decreases rows.len() - i,
    {
        let row = &rows[i];
        let mut cells: Vec<String> = Vec::new();
        cells.push(row.name.clone());
        cells.push(row.category.clone());
        cells.push(row.prices.clone());
        cells.push(row.notes.clone());
        assert(cells.deep_view() =~= row_cells(rows@[i as int]));
        let ghost pre = records.deep_view();
        let ghost prev = records@;
        records.push(cells);
        proof {
            assert(all.len() == 1 + rows@.len());
            assert(pre.len() == i + 1);
            assert(records@.len() == i + 2);
            assert(records.deep_view().len() == i + 2);
            assert forall|j: int| 0 <= j < i + 2 implies records.deep_view()[j] == all.take(
                i + 2,
            )[j] by {
                assert(records.deep_view()[j] == records@[j].deep_view());
                if j <= i {
                    assert(records@[j] == prev[j]);
                    assert(records@[j].deep_view() == pre[j]);
                    assert(pre[j] == all.take(i + 1)[j]);
                } else {
                    assert(records@[j] == cells);
                }
            }
            assert(records.deep_view() =~= all.take(i + 2));
        }
        i = i + 1;
    }
    assert(records.deep_view() =~= all);
    tabled_text(&records)
}

} // verus!
