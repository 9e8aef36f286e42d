//! The output side: lays records out as a worksheet grid and describes the
//! presentation formatting the caller's writer must apply.
//!
//! The grid has one header row of the ten display labels, in the record's
//! field declaration order, followed by one data row per record in list
//! order. The formatting configuration says how the header row is styled
//! and which column gets the fixed two-decimal numeric format.

use vstd::prelude::*;

use crate::cell::{Cell, SpecCell};
use crate::record::{records_view, DailyRecord, SpecRecord};

verus! {

/// How many columns an output row has.
pub const COLUMN_COUNT: usize = 10;

/// The column that holds `total_hours` and gets the numeric format.
pub const HOURS_COLUMN: usize = 8;

/// The styling of the header row: thin bottom and right borders, a
/// light-gray background, centered horizontally.
pub struct HeaderStyle {
    pub thin_bottom_border: bool,
    pub thin_right_border: bool,
    /// Background color, as 8-bit red, green and blue packed into 0xRRGGBB.
    pub background_rgb: u32,
    pub center_horizontally: bool,
}

/// What the caller's writer must apply on top of the grid: the header row's
/// style and the numeric format of the `total_hours` column's body cells.
pub struct SheetFormat {
    pub header: HeaderStyle,
    /// The column whose body cells get `hours_number_format`.
    pub hours_column: usize,
    /// A spreadsheet number-format string: fixed two decimal places.
    pub hours_number_format: String,
}

/// The presentation formatting of the output worksheet.
pub fn output_format() -> (f: SheetFormat)
    ensures
        f.header.thin_bottom_border,
        f.header.thin_right_border,
        f.header.background_rgb == 0xC0C0C0,
        f.header.center_horizontally,
        f.hours_column == HOURS_COLUMN,
        f.hours_number_format@ == "0.00"@,
{
    SheetFormat {
        header: HeaderStyle {
            thin_bottom_border: true,
            thin_right_border: true,
            background_rgb: 0xC0C0C0,
            center_horizontally: true,
        },
        hours_column: HOURS_COLUMN,
        hours_number_format: "0.00".to_owned(),
    }
}

/// The header row: the ten display labels, in the record's field
/// declaration order.
pub open spec fn spec_header_cells() -> Seq<SpecCell> {
    seq![
        SpecCell::Text("Emp ID"@),
        SpecCell::Text("Namekey"@),
        SpecCell::Text("Full Name"@),
        SpecCell::Text("Emp Type Code"@),
        SpecCell::Text("Bld"@),
        SpecCell::Text("YOE Hrs"@),
        SpecCell::Text("YOE Rate"@),
        SpecCell::Text("Date Worked"@),
        SpecCell::Text("Total Hours"@),
        SpecCell::Text("Work Description"@),
    ]
}

/// The data row of one record: its ten fields, in declaration order.
pub open spec fn spec_record_cells(r: SpecRecord) -> Seq<SpecCell> {
    seq![
        SpecCell::Number(r.employee_id),
        SpecCell::Text(r.namekey),
        SpecCell::Text(r.full_name),
        SpecCell::Text(r.emp_type_code),
        SpecCell::Text(r.building),
        SpecCell::Number(r.yoe_hrs),
        SpecCell::Number(r.yoe_rate),
        SpecCell::Text(r.date_worked),
        SpecCell::Number(r.total_hours),
        SpecCell::Text(r.work_description),
    ]
}

/// The whole output grid: the header row, then one data row per record, in
/// list order.
pub open spec fn spec_sheet(records: Seq<SpecRecord>) -> Seq<Seq<SpecCell>> {
    seq![spec_header_cells()] + records.map_values(|r: SpecRecord| spec_record_cells(r))
}

/// The models of a row of cells.
pub open spec fn cells_view(s: Seq<Cell>) -> Seq<SpecCell> {
    s.map_values(|c: Cell| c@)
}

/// The models of a grid of cells.
pub open spec fn grid_view(g: Seq<Vec<Cell>>) -> Seq<Seq<SpecCell>> {
    g.map_values(|row: Vec<Cell>| cells_view(row@))
}

/// Builds the header row of display labels.
pub fn header_cells() -> (out: Vec<Cell>)
    ensures
        cells_view(out@) == spec_header_cells(),
        out@.len() == COLUMN_COUNT,
{
    let mut out: Vec<Cell> = Vec::new();
    out.push(Cell::Text("Emp ID".to_owned()));
    out.push(Cell::Text("Namekey".to_owned()));
    out.push(Cell::Text("Full Name".to_owned()));
    out.push(Cell::Text("Emp Type Code".to_owned()));
    out.push(Cell::Text("Bld".to_owned()));
    out.push(Cell::Text("YOE Hrs".to_owned()));
    out.push(Cell::Text("YOE Rate".to_owned()));
    out.push(Cell::Text("Date Worked".to_owned()));
    out.push(Cell::Text("Total Hours".to_owned()));
    out.push(Cell::Text("Work Description".to_owned()));
    proof {
        assert(cells_view(out@) =~= spec_header_cells());
    }
    out
}

/// Builds the data row of one record.
pub fn record_cells(r: &DailyRecord) -> (out: Vec<Cell>)
    ensures
        cells_view(out@) == spec_record_cells(r@),
        out@.len() == COLUMN_COUNT,
{
    let mut out: Vec<Cell> = Vec::new();
    out.push(Cell::Number(r.employee_id));
    out.push(Cell::Text(r.namekey.clone()));
    out.push(Cell::Text(r.full_name.clone()));
    out.push(Cell::Text(r.emp_type_code.clone()));
    out.push(Cell::Text(r.building.clone()));
    out.push(Cell::Number(r.yoe_hrs));
    out.push(Cell::Number(r.yoe_rate));
    out.push(Cell::Text(r.date_worked.clone()));
    out.push(Cell::Number(r.total_hours));
    out.push(Cell::Text(r.work_description.clone()));
    proof {
        assert(cells_view(out@) =~= spec_record_cells(r@));
    }
    out
}

/// Lays an ordered list of records out as the output grid: one header row,
/// then one data row per record, in list order.
#[verifier::loop_isolation(false)]
pub fn render_sheet(records: &Vec<DailyRecord>) -> (out: Vec<Vec<Cell>>)
    ensures
        grid_view(out@) == spec_sheet(records_view(records@)),
        out@.len() == records@.len() + 1,
{
    let mut out: Vec<Vec<Cell>> = Vec::new();
    out.push(header_cells());
    for i in 0..records.len()
        invariant
            out@.len() == i + 1,
            grid_view(out@) =~= spec_sheet(records_view(records@.subrange(0, i as int))),
    {
        let ghost prev = out@;
        let row = record_cells(&records[i]);
        let ghost row_vec = row;
        out.push(row);
        proof {
            let prefix0 = records_view(records@.subrange(0, i as int));
            let prefix1 = records_view(records@.subrange(0, i as int + 1));
            assert(prefix1 =~= prefix0.push(records@[i as int]@));
            assert(out@ == prev.push(row_vec));
            assert forall|j: int| 0 <= j < i + 2 implies grid_view(out@)[j] == spec_sheet(
                prefix1,
            )[j] by {
                if j < i + 1 {
                    assert(grid_view(prev)[j] == spec_sheet(prefix0)[j]);
                    assert(spec_sheet(prefix1)[j] == spec_sheet(prefix0)[j]);
                } else {
                    assert(out@[j] == row_vec);
                    assert(spec_sheet(prefix1)[j] == spec_record_cells(prefix1[j - 1]));
                }
            }
            assert(grid_view(out@) =~= spec_sheet(prefix1));
        }
    }
    proof {
        assert(records@.subrange(0, records@.len() as int) =~= records@);
        assert(grid_view(out@) == spec_sheet(records_view(records@)));
    }
    out
}

/// The transform is deterministic: extraction and rendering are functions
/// of the input rows alone, so any two runs over the same sheet that
/// succeed yield the same records and the same output grid.
pub proof fn lemma_transform_deterministic(
    rows: Seq<Seq<Cell>>,
    a: Seq<SpecRecord>,
    b: Seq<SpecRecord>,
)
    requires
        crate::extract::spec_transform(rows) == Ok::<
            Seq<SpecRecord>,
            crate::extract::ExtractError,
        >(a),
        crate::extract::spec_transform(rows) == Ok::<
            Seq<SpecRecord>,
            crate::extract::ExtractError,
        >(b),
    ensures
        a == b,
        spec_sheet(a) == spec_sheet(b),
{
}

} // verus!
