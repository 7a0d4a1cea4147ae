//! Meal report rendering: each canteen, in resolver order, contributes a
//! section (its display name as a header, then its meals as a table); the
//! first failed meal fetch aborts the remainder of the report.
//!
//! The meal fetches go over the network and are performed by the surrounding
//! program; this module turns each fetch outcome into a section or a render
//! error (`render_step`), and `render_report` states the batch semantics
//! over a whole sequence of outcomes: sections for the longest all-success
//! prefix, in order, and the first failure's error, naming its canteen.

use crate::resolve::CanteenRef;
use crate::table::{format_table, header_cells, row_cells, table_text, DisplayRow};
use vstd::prelude::*;

verus! {

/// A raw meal entry as the lookup service reports it: a name, a category,
/// price texts and note texts.  The core only extracts these fields.
#[derive(Debug)]
pub struct MealRecord {
    pub name: String,
    pub category: String,
    pub prices: Vec<String>,
    pub notes: Vec<String>,
}

/// Why rendering aborted: fetching meals for the named canteen (first
/// payload) failed with the collaborator's message (second payload).
#[derive(Debug)]
pub enum RenderError {
    Fetch(String, String),
}

/// One printed report section: the canteen's display name, then its meal
/// table.
#[derive(Debug)]
pub struct Section {
    pub title: String,
    pub body: String,
}

/// The whole batch report: the sections actually produced, in canteen
/// order, and the error that stopped the scan, if one did.
#[derive(Debug)]
pub struct Report {
    pub sections: Vec<Section>,
    pub error: Option<RenderError>,
}

/// The given parts joined with the separator between consecutive parts.
pub open spec fn join_with(parts: Seq<Seq<char>>, sep: Seq<char>) -> Seq<char>
    decreases parts.len(),
{
    if parts.len() == 0 {
        Seq::empty()
    } else if parts.len() == 1 {
        parts[0]
    } else {
        join_with(parts.drop_last(), sep) + sep + parts.last()
    }
}

/// Joins strings with a separator between consecutive elements.
pub fn join_strings(parts: &Vec<String>, sep: &str) -> (r: String)
    ensures
        r@ == join_with(parts.deep_view(), sep@),
{
    let ghost dv = parts.deep_view();
    let mut s = String::new();
    let mut i: usize = 0;
    while i < parts.len()
        invariant
            i <= parts.len(),
            dv == parts.deep_view(),
            s@ == join_with(dv.take(i as int), sep@),
        decreases parts.len() - i,
    {
        if i > 0 {
            s.append(sep);
        }
        s.append(parts[i].as_str());
        proof {
            assert(dv.take(i + 1).drop_last() =~= dv.take(i as int));
            assert(dv.take(i + 1).last() == dv[i as int]);
            assert(dv[i as int] == parts@[i as int]@);
        }
        i = i + 1;
    }
    proof {
        assert(dv.take(parts@.len() as int) =~= dv);
    }
    s
}

/// The cell record a meal contributes to its canteen's table: name and
/// category as they are, prices and notes joined with `", "`.
pub open spec fn meal_cells(m: MealRecord) -> Seq<Seq<char>> {
    seq![m.name@, m.category@, join_with(m.prices.deep_view(), ", "@), join_with(
        m.notes.deep_view(),
        ", "@,
    )]
}

/// All cell records of one canteen's meal table: the header record first,
/// then one record per meal, in meal order.
pub open spec fn meal_table_records(meals: Seq<MealRecord>) -> Seq<Seq<Seq<char>>> {
    seq![header_cells()] + meals.map(|i: int, m: MealRecord| meal_cells(m))
}

/// Projects a meal into its display row: name and category carried over,
/// prices and notes joined with `", "`.
pub fn to_display_row(meal: &MealRecord) -> (row: DisplayRow)
    ensures
        row_cells(row) == meal_cells(*meal),
{
    let row = DisplayRow {
        name: meal.name.clone(),
        category: meal.category.clone(),
        prices: join_strings(&meal.prices, ", "),
        notes: join_strings(&meal.notes, ", "),
    };
    proof {
        assert(row_cells(row) =~= meal_cells(*meal));
    }
    row
}

/// Renders one canteen's section: the canteen's display name as the title,
/// and the table over exactly its meals' display rows, in meal order.
pub fn render_section(canteen: &CanteenRef, meals: &Vec<MealRecord>) -> (s: Section)
    ensures
        s.title@ == canteen.name@,
        s.body@ == table_text(meal_table_records(meals@)),
{
    let mut rows: Vec<DisplayRow> = Vec::new();
    let mut i: usize = 0;
    while i < meals.len()
        invariant
            i <= meals.len(),
            rows@.len() == i,
            forall|j: int|
                0 <= j < i ==> row_cells(#[trigger] rows@[j]) == meal_cells(meals@[j]),
        decreases meals.len() - i,
    {
        let row = to_display_row(&meals[i]);
        rows.push(row);
        i = i + 1;
    }
    let body = format_table(&rows);
    proof {
        assert(crate::table::table_records(rows@) =~= meal_table_records(meals@));
    }
    Section { title: canteen.name.clone(), body }
}

/// Turns one canteen's fetch outcome into its section, or into the render
/// error that aborts the report: a failure surfaces `Fetch` with that
/// canteen's name and the collaborator's message.
pub fn render_step(canteen: &CanteenRef, outcome: Result<Vec<MealRecord>, String>) -> (r: Result<
    Section,
    RenderError,
>)
    ensures
        outcome matches Ok(meals) ==> (r matches Ok(s) && s.title@ == canteen.name@ && s.body@
            == table_text(meal_table_records(meals@))),
        outcome matches Err(m) ==> (r matches Err(e) && e matches RenderError::Fetch(n, msg) && n@
            == canteen.name@ && msg == m),
{
    match outcome {
        Ok(meals) => Ok(render_section(canteen, &meals)),
        Err(m) => Err(RenderError::Fetch(canteen.name.clone(), m)),
    }
}

/// Renders the whole batch report over the canteens, in resolver order,
/// given each canteen's fetch outcome: one section per canteen of the
/// longest all-success prefix, and, if the scan stopped, the first failing
/// canteen's `Fetch` error.  Canteens after the first failure contribute
/// nothing.
#[verifier::loop_isolation(false)]
pub fn render_report(canteens: &Vec<CanteenRef>, outcomes: Vec<
    Result<Vec<MealRecord>, String>,
>) -> (r: Report)
    requires
        outcomes@.len() == canteens@.len(),
    ensures
        ({
            let k = r.sections@.len() as int;
            &&& k <= canteens@.len()
            &&& forall|j: int| 0 <= j < k ==> outcomes@[j] is Ok
            &&& (k < canteens@.len() ==> outcomes@[k] is Err)
            &&& (r.error is None <==> k == canteens@.len())
            &&& forall|j: int|
                0 <= j < k ==> (#[trigger] r.sections@[j]).title@ == canteens@[j].name@
                    && r.sections@[j].body@ == table_text(
                    meal_table_records(outcomes@[j]->Ok_0@),
                )
            &&& (k < canteens@.len() ==> (r.error matches Some(e) && e matches RenderError::Fetch(
                n,
                m,
            ) && n@ == canteens@[k].name@ && m == outcomes@[k]->Err_0))
        }),
{
    let ghost orig = outcomes@;
    let mut rest = outcomes;
    let mut sections: Vec<Section> = Vec::new();
    let mut i: usize = 0;
    while i < canteens.len()
        invariant
            i <= canteens.len(),
            orig.len() == canteens@.len(),
            rest@ =~= orig.skip(i as int),
            sections@.len() == i,
            forall|j: int| 0 <= j < i ==> orig[j] is Ok,
            forall|j: int|
                0 <= j < i ==> (#[trigger] sections@[j]).title@ == canteens@[j].name@
                    && sections@[j].body@ == table_text(meal_table_records(orig[j]->Ok_0@)),
        decreases canteens.len() - i,
    {
        let outcome = rest.remove(0);
        proof {
            assert(outcome == orig[i as int]);
            assert(rest@ =~= orig.skip(i + 1));
        }
        match render_step(&canteens[i], outcome) {
            Ok(s) => {
                sections.push(s);
                i = i + 1;
            },
            Err(e) => {
                return Report { sections, error: Some(e) };
            },
        }
    }
    Report { sections, error: None }
}

/// When every fetch succeeds, the scan never stops early: any index that
/// satisfies the report's stopping condition is the full length, so the
/// report holds one section per canteen, in the resolver's order.
pub proof fn lemma_all_ok_full(outcomes: Seq<Result<Vec<MealRecord>, String>>, k: int)
    requires
        forall|j: int| 0 <= j < outcomes.len() ==> outcomes[j] is Ok,
        0 <= k <= outcomes.len(),
        k < outcomes.len() ==> outcomes[k] is Err,
    ensures
        k == outcomes.len(),
{
    if k < outcomes.len() {
        assert(outcomes[k] is Ok);
    }
}

/// The scan point of a report is exactly the index of the first failed
/// outcome: two indices that both satisfy the stopping condition are equal.
pub proof fn lemma_first_failure(outcomes: Seq<Result<Vec<MealRecord>, String>>, k: int, j: int)
    requires
        0 <= k <= outcomes.len(),
        forall|i: int| 0 <= i < k ==> outcomes[i] is Ok,
        k < outcomes.len() ==> outcomes[k] is Err,
        0 <= j <= outcomes.len(),
        forall|i: int| 0 <= i < j ==> outcomes[i] is Ok,
        j < outcomes.len() ==> outcomes[j] is Err,
    ensures
        k == j,
{
    if k < j {
        assert(outcomes[k] is Ok);
    }
    if j < k {
        assert(outcomes[j] is Ok);
    }
}

impl RenderError {
    /// Human-readable message, as the report prints it.
    pub fn message(&self) -> (r: String)
        ensures
            self matches RenderError::Fetch(n, m) ==> r@ == "Error fetching meals for "@ + n@
                + ": "@ + m@,
    {
        match self {
            RenderError::Fetch(n, m) => {
                let mut s = String::from_str("Error fetching meals for ");
                s.append(n.as_str());
                s.append(": ");
                s.append(m.as_str());
                s
            },
        }
    }
}

} // verus!
