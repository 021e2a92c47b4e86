//! The three worksheet extraction strategies and their composition into
//! one run's output records.
//!
//! The daily-positive sheet and the test-count sheet are read in reverse
//! row order; the news sheet in forward row order. The test-count sheet's
//! cumulative column is converted to a daily-delta series, and its first
//! data row feeds the status tree through merged-cell resolution.

use vstd::prelude::*;

use crate::cells::Cell;
use crate::cells::UtcTime;
use crate::cells::cell_date;
use crate::cells::cell_number;
use crate::cells::cell_text;
use crate::cells::spec_resolved;
use crate::cells::resolve_value;
use crate::model::Attributes;
use crate::model::LastUpdate;
use crate::model::NewsItem;
use crate::model::NewsItems;
use crate::model::Status;
use crate::model::Summary;
use crate::model::SummaryContent;

verus! {

/// Which required worksheet a diagnostic speaks of.
#[derive(Clone, Copy, Debug, PartialEq, Eq, Structural)]
pub enum SheetKind {
    Patients,
    Inspections,
    News,
}

/// A fatal extraction condition, carrying the place it was found.
#[derive(Clone, Copy, Debug, PartialEq, Eq, Structural)]
pub enum ExtractError {
    /// A required worksheet is absent from the workbook.
    MissingSheet { sheet: SheetKind },
    /// A row's first column holds no readable date.
    MissingDate { sheet: SheetKind, row: usize },
    /// A row's count column holds no readable number.
    MissingCount { sheet: SheetKind, row: usize },
    /// The cumulative count decreased between consecutively processed rows.
    NonMonotonic { row: usize },
    /// Merged-cell resolution found no value at or below a status cell.
    MissingStatusValue { column: usize },
    /// A news row holds no text in its second column.
    MissingText { row: usize },
    /// A news row holds no link in its third column.
    MissingUrl { row: usize },
}

/// The date reading of a summary row's first column.
pub open spec fn summary_row_date(row: Vec<Cell>) -> Option<UtcTime> {
    if row@.len() >= 1 {
        cell_date(row@[0])
    } else {
        Option::None
    }
}

/// The numeric reading of a summary row's second column.
pub open spec fn summary_row_count(row: Vec<Cell>) -> Option<u32> {
    if row@.len() >= 2 {
        cell_number(row@[1])
    } else {
        Option::None
    }
}

pub open spec fn summary_row_ok(row: Vec<Cell>) -> bool {
    summary_row_date(row) is Some && summary_row_count(row) is Some
}

/// Every row strictly below index `row` (exclusive) is a readable summary
/// row.
pub open spec fn rows_ok_above(grid: Seq<Vec<Cell>>, row: int) -> bool {
    forall|j: int| row < j < grid.len() ==> summary_row_ok(#[trigger] grid[j])
}

/// All rows of the daily-positive sheet are readable.
pub open spec fn spec_patients_ok(grid: Seq<Vec<Cell>>) -> bool {
    rows_ok_above(grid, -1)
}

/// The daily-positive series: the rows in reverse row order, each row's
/// date and count taken as they stand.
pub open spec fn spec_patients_data(grid: Seq<Vec<Cell>>, out: Seq<SummaryContent>) -> bool {
    &&& out.len() == grid.len()
    &&& forall|k: int| 0 <= k < out.len() ==> #[trigger] out[k] == (SummaryContent {
        date: summary_row_date(grid[grid.len() - 1 - k])->Some_0,
        sum: summary_row_count(grid[grid.len() - 1 - k])->Some_0,
    })
}

/// The exact daily-positive failure: the first unreadable row in reverse
/// row order, its date checked before its count.
pub open spec fn spec_patients_err(grid: Seq<Vec<Cell>>, e: ExtractError) -> bool {
    match e {
        ExtractError::MissingDate { sheet, row } => {
            &&& sheet == SheetKind::Patients
            &&& row < grid.len()
            &&& summary_row_date(grid[row as int]) is None
            &&& rows_ok_above(grid, row as int)
        },
        ExtractError::MissingCount { sheet, row } => {
            &&& sheet == SheetKind::Patients
            &&& row < grid.len()
            &&& summary_row_date(grid[row as int]) is Some
            &&& summary_row_count(grid[row as int]) is None
            &&& rows_ok_above(grid, row as int)
        },
        _ => false,
    }
}

/// Extract the daily-positive series: every row in reverse row order, the
/// first column as the day's date, the second as the day's count.
pub fn extract_patients(grid: &Vec<Vec<Cell>>, last_update: i64) -> (r: Result<
    Summary,
    ExtractError,
>)
    ensures
        match r {
            Result::Ok(s) => {
                &&& spec_patients_ok(grid@)
                &&& spec_patients_data(grid@, s.data@)
                &&& s.last_update == last_update
            },
            Result::Err(e) => spec_patients_err(grid@, e),
        },
{
    let n = grid.len();
    let mut data: Vec<SummaryContent> = Vec::new();
    let mut k: usize = 0;
    while k < n
        invariant
            n == grid@.len(),
            k <= n,
            data@.len() == k,
            rows_ok_above(grid@, n - 1 - k),
            forall|m: int| 0 <= m < k ==> #[trigger] data@[m] == (SummaryContent {
                date: summary_row_date(grid@[n - 1 - m])->Some_0,
                sum: summary_row_count(grid@[n - 1 - m])->Some_0,
            }),
        decreases n - k,
    {
        let row_idx = n - 1 - k;
        let date = match read_row_date(grid, row_idx) {
            Option::Some(d) => d,
            Option::None => {
                return Result::Err(ExtractError::MissingDate {
                    sheet: SheetKind::Patients,
                    row: row_idx,
                });
            },
        };
        let sum = match read_row_count(grid, row_idx) {
            Option::Some(c) => c,
            Option::None => {
                return Result::Err(ExtractError::MissingCount {
                    sheet: SheetKind::Patients,
                    row: row_idx,
                });
            },
        };
        data.push(SummaryContent { date, sum });
        k = k + 1;
    }
    Result::Ok(Summary { data, last_update })
}

/// The date reading of the first column of row `row`.
fn read_row_date(grid: &Vec<Vec<Cell>>, row: usize) -> (r: Option<UtcTime>)
    requires
        row < grid@.len(),
    ensures
        r == summary_row_date(grid@[row as int]),
{
    if grid[row].len() < 1 {
        return Option::None;
    }
    match &grid[row][0] {
        Cell::Number { date, .. } => Option::Some(*date),
        Cell::Stamp { date } => Option::Some(*date),
        _ => Option::None,
    }
}

/// The numeric reading of the second column of row `row`.
fn read_row_count(grid: &Vec<Vec<Cell>>, row: usize) -> (r: Option<u32>)
    requires
        row < grid@.len(),
    ensures
        r == summary_row_count(grid@[row as int]),
{
    if grid[row].len() < 2 {
        return Option::None;
    }
    match &grid[row][1] {
        Cell::Number { value, .. } => Option::Some(*value),
        _ => Option::None,
    }
}

/// Moving up the test-count sheet from below `row` (exclusive), the
/// cumulative column never decreases.
pub open spec fn rows_mono_above(grid: Seq<Vec<Cell>>, row: int) -> bool {
    forall|j: int| row < j && j + 1 < grid.len() ==> summary_row_count(#[trigger] grid[j])->Some_0
        >= summary_row_count(grid[j + 1])->Some_0
}

/// All rows of the test-count sheet are readable and the cumulative column
/// never decreases in processing (reverse row) order.
pub open spec fn spec_inspections_ok(grid: Seq<Vec<Cell>>) -> bool {
    rows_ok_above(grid, -1) && rows_mono_above(grid, -1)
}

/// The daily-delta series: the rows in reverse row order, each emitted
/// count the difference between the row's cumulative value and the one
/// processed before it, with a zero baseline.
pub open spec fn spec_inspections_data(grid: Seq<Vec<Cell>>, out: Seq<SummaryContent>) -> bool {
    &&& out.len() == grid.len()
    &&& forall|k: int| 0 <= k < out.len() ==> #[trigger] out[k] == (SummaryContent {
        date: summary_row_date(grid[grid.len() - 1 - k])->Some_0,
        sum: (summary_row_count(grid[grid.len() - 1 - k])->Some_0 - (if k == 0 {
            0int
        } else {
            summary_row_count(grid[grid.len() - k])->Some_0 as int
        })) as u32,
    })
}

/// The exact test-count failure: the first failure in processing order,
/// each row's count checked before its date, then the delta's sign.
pub open spec fn spec_inspections_err(grid: Seq<Vec<Cell>>, e: ExtractError) -> bool {
    match e {
        ExtractError::MissingCount { sheet, row } => {
            &&& sheet == SheetKind::Inspections
            &&& row < grid.len()
            &&& summary_row_count(grid[row as int]) is None
            &&& rows_ok_above(grid, row as int)
            &&& rows_mono_above(grid, row as int)
        },
        ExtractError::MissingDate { sheet, row } => {
            &&& sheet == SheetKind::Inspections
            &&& row < grid.len()
            &&& summary_row_count(grid[row as int]) is Some
            &&& summary_row_date(grid[row as int]) is None
            &&& rows_ok_above(grid, row as int)
            &&& rows_mono_above(grid, row as int)
        },
        ExtractError::NonMonotonic { row } => {
            &&& row < grid.len()
            &&& summary_row_ok(grid[row as int])
            &&& row + 1 < grid.len()
            &&& summary_row_count(grid[row as int])->Some_0 < summary_row_count(
                grid[row + 1],
            )->Some_0
            &&& rows_ok_above(grid, row as int)
            &&& rows_mono_above(grid, row as int)
        },
        _ => false,
    }
}

/// Extract the daily-delta test-count series from the cumulative column,
/// in reverse row order with a zero baseline.
pub fn extract_inspections(grid: &Vec<Vec<Cell>>, last_update: i64) -> (r: Result<
    Summary,
    ExtractError,
>)
    ensures
        match r {
            Result::Ok(s) => {
                &&& spec_inspections_ok(grid@)
                &&& spec_inspections_data(grid@, s.data@)
                &&& s.last_update == last_update
            },
            Result::Err(e) => spec_inspections_err(grid@, e),
        },
{
    let n = grid.len();
    let mut data: Vec<SummaryContent> = Vec::new();
    let mut last_sum: u32 = 0;
    let mut k: usize = 0;
    while k < n
        invariant
            n == grid@.len(),
            k <= n,
            data@.len() == k,
            rows_ok_above(grid@, n - 1 - k),
            rows_mono_above(grid@, n - 1 - k),
            last_sum == if k == 0 {
                0int
            } else {
                summary_row_count(grid@[n - k])->Some_0 as int
            },
            forall|m: int| 0 <= m < k ==> #[trigger] data@[m] == (SummaryContent {
                date: summary_row_date(grid@[n - 1 - m])->Some_0,
                sum: (summary_row_count(grid@[n - 1 - m])->Some_0 - (if m == 0 {
                    0int
                } else {
                    summary_row_count(grid@[n - m])->Some_0 as int
                })) as u32,
            }),
        decreases n - k,
    {
        let row_idx = n - 1 - k;
        let sum = match read_row_count(grid, row_idx) {
            Option::Some(c) => c,
            Option::None => {
                return Result::Err(ExtractError::MissingCount {
                    sheet: SheetKind::Inspections,
                    row: row_idx,
                });
            },
        };
        let date = match read_row_date(grid, row_idx) {
            Option::Some(d) => d,
            Option::None => {
                return Result::Err(ExtractError::MissingDate {
                    sheet: SheetKind::Inspections,
                    row: row_idx,
                });
            },
        };
        if sum < last_sum {
            return Result::Err(ExtractError::NonMonotonic { row: row_idx });
        }
        data.push(SummaryContent { date, sum: sum - last_sum });
        last_sum = sum;
        k = k + 1;
    }
    Result::Ok(Summary { data, last_update })
}

/// The attribute of the `k`-th leaf of the status tree.
pub open spec fn spec_leaf_attr(k: int) -> Attributes {
    if k == 0 {
        Attributes::Hospitalizations
    } else if k == 1 {
        Attributes::SeverelyPatients
    } else if k == 2 {
        Attributes::Other
    } else if k == 3 {
        Attributes::Accommodations
    } else if k == 4 {
        Attributes::Home
    } else if k == 5 {
        Attributes::Dead
    } else if k == 6 {
        Attributes::Leave
    } else {
        Attributes::Coordinating
    }
}

/// The first-row column the `k`-th leaf is read from. The Leave column
/// stands out of increasing order on the sheet.
pub open spec fn spec_leaf_col(k: int) -> int {
    if k == 0 {
        4
    } else if k == 1 {
        5
    } else if k == 2 {
        6
    } else if k == 3 {
        7
    } else if k == 4 {
        8
    } else if k == 5 {
        9
    } else if k == 6 {
        3
    } else {
        10
    }
}

/// The column read at the `k`-th step of building the status tree: the
/// root's column, the patients column, then the leaves' columns.
pub open spec fn spec_status_col_order(k: int) -> int {
    if k == 0 {
        1
    } else if k == 1 {
        2
    } else {
        spec_leaf_col(k - 2)
    }
}

/// Every status cell resolves to a value through merged-cell resolution.
pub open spec fn spec_status_ok(grid: Seq<Vec<Cell>>) -> bool {
    forall|k: int| 0 <= k < 10 ==> spec_resolved(grid, 0, #[trigger] spec_status_col_order(k))
        is Some
}

/// The exact status failure: the first column in reading order whose
/// merged-cell resolution yields nothing.
pub open spec fn spec_status_err(grid: Seq<Vec<Cell>>, e: ExtractError) -> bool {
    match e {
        ExtractError::MissingStatusValue { column } => exists|k: int|
            {
                &&& 0 <= k < 10
                &&& column == spec_status_col_order(k)
                &&& spec_resolved(grid, 0, #[trigger] spec_status_col_order(k)) is None
                &&& forall|m: int| 0 <= m < k ==> spec_resolved(grid, 0,
                    #[trigger] spec_status_col_order(m)) is Some
            },
        _ => false,
    }
}

/// A leaf of the status tree: its attribute's resolved value and nothing
/// below it.
pub open spec fn spec_leaf_shape(s: Status, grid: Seq<Vec<Cell>>, k: int) -> bool {
    &&& s.attr == spec_leaf_attr(k)
    &&& Option::Some(s.value) == spec_resolved(grid, 0, spec_leaf_col(k))
    &&& s.children is None
    &&& s.last_update is None
}

/// The full status tree: the root with the first row's total, one patients
/// child carrying the update instant, and the eight leaves in their fixed
/// order.
pub open spec fn spec_status_shape(s: Status, grid: Seq<Vec<Cell>>, lu: i64) -> bool {
    match s.children {
        Option::Some(cs) => {
            &&& s.attr == Attributes::Inspections
            &&& Option::Some(s.value) == spec_resolved(grid, 0, 1)
            &&& s.last_update == Option::Some(lu)
            &&& cs@.len() == 1
            &&& match cs@[0].children {
                Option::Some(ls) => {
                    &&& cs@[0].attr == Attributes::Patients
                    &&& Option::Some(cs@[0].value) == spec_resolved(grid, 0, 2)
                    &&& cs@[0].last_update == Option::Some(lu)
                    &&& ls@.len() == 8
                    &&& forall|k: int| 0 <= k < 8 ==> spec_leaf_shape(#[trigger] ls@[k], grid, k)
                },
                Option::None => false,
            }
        },
        Option::None => false,
    }
}

/// Build the status tree from the test-count sheet's first data row, each
/// value found through merged-cell resolution.
pub fn extract_status(grid: &Vec<Vec<Cell>>, last_update: i64) -> (r: Result<
    Status,
    ExtractError,
>)
    ensures
        match r {
            Result::Ok(s) => spec_status_ok(grid@) && spec_status_shape(s, grid@, last_update),
            Result::Err(e) => spec_status_err(grid@, e),
        },
{
    let root_value = match resolve_value(grid, 0, 1) {
        Option::Some(v) => v,
        Option::None => {
            proof {
                assert(spec_status_col_order(0) == 1);
            }
            return Result::Err(ExtractError::MissingStatusValue { column: 1 });
        },
    };
    let patients_value = match resolve_value(grid, 0, 2) {
        Option::Some(v) => v,
        Option::None => {
            proof {
                assert(spec_status_col_order(1) == 2);
            }
            return Result::Err(ExtractError::MissingStatusValue { column: 2 });
        },
    };
    let mut leaves: Vec<Status> = Vec::new();
    let mut k: usize = 0;
    while k < 8
        invariant
            leaves@.len() == k,
            k <= 8,
            Option::Some(root_value) == spec_resolved(grid@, 0, 1),
            Option::Some(patients_value) == spec_resolved(grid@, 0, 2),
            forall|m: int| 0 <= m < k ==> spec_leaf_shape(#[trigger] leaves@[m], grid@, m),
            forall|m: int| 0 <= m < k + 2 ==> spec_resolved(grid@, 0,
                #[trigger] spec_status_col_order(m)) is Some,
        decreases 8 - k,
    {
        let col: usize = leaf_column(k);
        let value = match resolve_value(grid, 0, col) {
            Option::Some(v) => v,
            Option::None => {
                proof {
                    assert(spec_status_col_order(k + 2) == col);
                }
                return Result::Err(ExtractError::MissingStatusValue { column: col });
            },
        };
        leaves.push(Status {
            attr: leaf_attribute(k),
            value,
            children: Option::None,
            last_update: Option::None,
        });
        k = k + 1;
    }
    let patients = Status {
        attr: Attributes::Patients,
        value: patients_value,
        children: Option::Some(leaves),
        last_update: Option::Some(last_update),
    };
    let mut children: Vec<Status> = Vec::new();
    children.push(patients);
    Result::Ok(
        Status {
            attr: Attributes::Inspections,
            value: root_value,
            children: Option::Some(children),
            last_update: Option::Some(last_update),
        },
    )
}

/// The sheet column of the `k`-th status leaf.
fn leaf_column(k: usize) -> (r: usize)
    requires
        k < 8,
    ensures
        r == spec_leaf_col(k as int),
{
    let cols: [usize; 8] = [4, 5, 6, 7, 8, 9, 3, 10];
    cols[k]
}

/// The attribute of the `k`-th status leaf.
fn leaf_attribute(k: usize) -> (r: Attributes)
    requires
        k < 8,
    ensures
        r == spec_leaf_attr(k as int),
{
    if k == 0 {
        Attributes::Hospitalizations
    } else if k == 1 {
        Attributes::SeverelyPatients
    } else if k == 2 {
        Attributes::Other
    } else if k == 3 {
        Attributes::Accommodations
    } else if k == 4 {
        Attributes::Home
    } else if k == 5 {
        Attributes::Dead
    } else if k == 6 {
        Attributes::Leave
    } else {
        Attributes::Coordinating
    }
}

/// The text reading of a news row's second column.
pub open spec fn news_row_text(row: Vec<Cell>) -> Option<Seq<char>> {
    if row@.len() >= 2 {
        cell_text(row@[1])
    } else {
        Option::None
    }
}

/// The text reading of a news row's third column.
pub open spec fn news_row_url(row: Vec<Cell>) -> Option<Seq<char>> {
    if row@.len() >= 3 {
        cell_text(row@[2])
    } else {
        Option::None
    }
}

pub open spec fn news_row_ok(row: Vec<Cell>) -> bool {
    &&& summary_row_date(row) is Some
    &&& news_row_text(row) is Some
    &&& news_row_url(row) is Some
}

/// Every news row before index `row` (exclusive) is readable.
pub open spec fn news_ok_before(grid: Seq<Vec<Cell>>, row: int) -> bool {
    forall|j: int| 0 <= j < row ==> news_row_ok(#[trigger] grid[j])
}

pub open spec fn spec_news_ok(grid: Seq<Vec<Cell>>) -> bool {
    news_ok_before(grid, grid.len() as int)
}

/// The news list: the rows in forward row order, each row's date (the day
/// alone), text and link.
pub open spec fn spec_news_data(grid: Seq<Vec<Cell>>, out: Seq<NewsItem>) -> bool {
    &&& out.len() == grid.len()
    &&& forall|k: int| 0 <= k < out.len() ==> {
        &&& (#[trigger] out[k]).date == summary_row_date(grid[k])->Some_0.day
        &&& out[k].text@ == news_row_text(grid[k])->Some_0
        &&& out[k].url@ == news_row_url(grid[k])->Some_0
    }
}

/// The exact news failure: the first unreadable row in forward order, its
/// date checked before its text, its text before its link.
pub open spec fn spec_news_err(grid: Seq<Vec<Cell>>, e: ExtractError) -> bool {
    match e {
        ExtractError::MissingDate { sheet, row } => {
            &&& sheet == SheetKind::News
            &&& row < grid.len()
            &&& summary_row_date(grid[row as int]) is None
            &&& news_ok_before(grid, row as int)
        },
        ExtractError::MissingText { row } => {
            &&& row < grid.len()
            &&& summary_row_date(grid[row as int]) is Some
            &&& news_row_text(grid[row as int]) is None
            &&& news_ok_before(grid, row as int)
        },
        ExtractError::MissingUrl { row } => {
            &&& row < grid.len()
            &&& summary_row_date(grid[row as int]) is Some
            &&& news_row_text(grid[row as int]) is Some
            &&& news_row_url(grid[row as int]) is None
            &&& news_ok_before(grid, row as int)
        },
        _ => false,
    }
}

/// Extract the news list: every row in forward row order, keeping the
/// worksheet's own ordering.
pub fn extract_news(grid: &Vec<Vec<Cell>>) -> (r: Result<NewsItems, ExtractError>)
    ensures
        match r {
            Result::Ok(ns) => spec_news_ok(grid@) && spec_news_data(grid@, ns.news_items@),
            Result::Err(e) => spec_news_err(grid@, e),
        },
{
    let n = grid.len();
    let mut items: Vec<NewsItem> = Vec::new();
    let mut k: usize = 0;
    while k < n
        invariant
            n == grid@.len(),
            k <= n,
            items@.len() == k,
            news_ok_before(grid@, k as int),
            forall|m: int| 0 <= m < k ==> {
                &&& (#[trigger] items@[m]).date == summary_row_date(grid@[m])->Some_0.day
                &&& items@[m].text@ == news_row_text(grid@[m])->Some_0
                &&& items@[m].url@ == news_row_url(grid@[m])->Some_0
            },
        decreases n - k,
    {
        let date = match read_row_date(grid, k) {
            Option::Some(d) => d,
            Option::None => {
                return Result::Err(ExtractError::MissingDate { sheet: SheetKind::News, row: k });
            },
        };
        let text = match read_row_text(grid, k, 1) {
            Option::Some(t) => t,
            Option::None => {
                return Result::Err(ExtractError::MissingText { row: k });
            },
        };
        let url = match read_row_text(grid, k, 2) {
            Option::Some(t) => t,
            Option::None => {
                return Result::Err(ExtractError::MissingUrl { row: k });
            },
        };
        items.push(NewsItem { date: date.day, text, url });
        k = k + 1;
    }
    Result::Ok(NewsItems { news_items: items })
}

/// The text reading of column `col` of row `row`, copied out.
fn read_row_text(grid: &Vec<Vec<Cell>>, row: usize, col: usize) -> (r: Option<String>)
    requires
        row < grid@.len(),
        1 <= col <= 2,
    ensures
        match r {
            Option::Some(t) => {
                &&& (if col == 1 {
                    news_row_text(grid@[row as int])
                } else {
                    news_row_url(grid@[row as int])
                }) == Option::Some(t@)
            },
            Option::None => (if col == 1 {
                news_row_text(grid@[row as int])
            } else {
                news_row_url(grid@[row as int])
            }) is None,
        },
{
    if grid[row].len() < col + 1 {
        return Option::None;
    }
    match &grid[row][col] {
        Cell::Text { text } => Option::Some(text.clone()),
        _ => Option::None,
    }
}

/// The total of the first `k + 1` entries of a summary series.
pub open spec fn spec_prefix_total(v: Seq<SummaryContent>, k: int) -> int
    recommends
        k < v.len(),
    decreases k + 1,
{
    if k < 0 {
        0
    } else {
        spec_prefix_total(v, k - 1) + v[k].sum
    }
}

/// Law: the delta transform round-trips. At every prefix of a series
/// extracted from a valid cumulative column, the deltas sum back to the
/// cumulative value of the last row that prefix covers.
pub proof fn lemma_delta_prefix_roundtrip(grid: Seq<Vec<Cell>>, v: Seq<SummaryContent>, k: int)
    requires
        spec_inspections_ok(grid),
        spec_inspections_data(grid, v),
        0 <= k < v.len(),
    ensures
        spec_prefix_total(v, k) == summary_row_count(grid[grid.len() - 1 - k])->Some_0,
    decreases k,
{
    let n = grid.len();
    assert(v[k] == (SummaryContent {
        date: summary_row_date(grid[n - 1 - k])->Some_0,
        sum: (summary_row_count(grid[n - 1 - k])->Some_0 - (if k == 0 {
            0int
        } else {
            summary_row_count(grid[n - k])->Some_0 as int
        })) as u32,
    }));
    if k == 0 {
        assert(spec_prefix_total(v, -1) == 0);
        assert(spec_prefix_total(v, 0) == v[0].sum);
    } else {
        lemma_delta_prefix_roundtrip(grid, v, k - 1);
        assert(summary_row_count(grid[n - 1 - k])->Some_0 >= summary_row_count(
            grid[n - k],
        )->Some_0);
        assert(spec_prefix_total(v, k) == spec_prefix_total(v, k - 1) + v[k].sum);
    }
}

/// Everything one successful run hands to the artifact sink.
pub struct Artifacts {
    pub patients_summary: Summary,
    pub inspections_summary: Summary,
    pub main_summary: Status,
    pub news: NewsItems,
    pub last_update: LastUpdate,
}

/// The exact failure of a whole transcoding run: the first failing stage
/// in sheet order, with each sheet's own first failure.
pub open spec fn spec_pipeline_err(
    patients_sheet: Option<Vec<Vec<Cell>>>,
    inspections_sheet: Option<Vec<Vec<Cell>>>,
    news_sheet: Option<Vec<Vec<Cell>>>,
    e: ExtractError,
) -> bool {
    match patients_sheet {
        Option::None => e == (ExtractError::MissingSheet { sheet: SheetKind::Patients }),
        Option::Some(pg) => spec_patients_err(pg@, e) || (spec_patients_ok(pg@)
            && match inspections_sheet {
            Option::None => e == (ExtractError::MissingSheet { sheet: SheetKind::Inspections }),
            Option::Some(ig) => spec_inspections_err(ig@, e) || (spec_inspections_ok(ig@) && (
            spec_status_err(ig@, e) || (spec_status_ok(ig@) && match news_sheet {
                Option::None => e == (ExtractError::MissingSheet { sheet: SheetKind::News }),
                Option::Some(ng) => spec_news_err(ng@, e),
            }))),
        }),
    }
}

/// Transcode the three required worksheets into one run's records. Each
/// sheet is handed in as its cell grid, or `None` when the workbook lacks
/// it; the sheets are required and processed in their fixed order.
pub fn build_artifacts(
    patients_sheet: &Option<Vec<Vec<Cell>>>,
    inspections_sheet: &Option<Vec<Vec<Cell>>>,
    news_sheet: &Option<Vec<Vec<Cell>>>,
    last_update: i64,
) -> (r: Result<Artifacts, ExtractError>)
    ensures
        match r {
            Result::Ok(a) => {
                &&& patients_sheet matches Option::Some(pg) && spec_patients_ok(pg@)
                    && spec_patients_data(pg@, a.patients_summary.data@)
                &&& inspections_sheet matches Option::Some(ig) && spec_inspections_ok(ig@)
                    && spec_inspections_data(ig@, a.inspections_summary.data@) && spec_status_ok(
                    ig@,
                ) && spec_status_shape(a.main_summary, ig@, last_update)
                &&& news_sheet matches Option::Some(ng) && spec_news_ok(ng@) && spec_news_data(
                    ng@,
                    a.news.news_items@,
                )
                &&& a.patients_summary.last_update == last_update
                &&& a.inspections_summary.last_update == last_update
                &&& a.last_update.datetime == last_update
            },
            Result::Err(e) => spec_pipeline_err(
                *patients_sheet,
                *inspections_sheet,
                *news_sheet,
                e,
            ),
        },
{
    let patients_grid = match patients_sheet {
        Option::Some(g) => g,
        Option::None => {
            return Result::Err(ExtractError::MissingSheet { sheet: SheetKind::Patients });
        },
    };
    let patients_summary = match extract_patients(patients_grid, last_update) {
        Result::Ok(s) => s,
        Result::Err(e) => {
            return Result::Err(e);
        },
    };
    let inspections_grid = match inspections_sheet {
        Option::Some(g) => g,
        Option::None => {
            return Result::Err(ExtractError::MissingSheet { sheet: SheetKind::Inspections });
        },
    };
    let inspections_summary = match extract_inspections(inspections_grid, last_update) {
        Result::Ok(s) => s,
        Result::Err(e) => {
            return Result::Err(e);
        },
    };
    let main_summary = match extract_status(inspections_grid, last_update) {
        Result::Ok(s) => s,
        Result::Err(e) => {
            return Result::Err(e);
        },
    };
    let news_grid = match news_sheet {
        Option::Some(g) => g,
        Option::None => {
            return Result::Err(ExtractError::MissingSheet { sheet: SheetKind::News });
        },
    };
    let news = match extract_news(news_grid) {
        Result::Ok(ns) => ns,
        Result::Err(e) => {
            return Result::Err(e);
        },
    };
    Result::Ok(
        Artifacts {
            patients_summary,
            inspections_summary,
            main_summary,
            news,
            last_update: LastUpdate { datetime: last_update },
        },
    )
}

} // verus!
