//! The unit of output: one employee's work on one day.

use vstd::prelude::*;

verus! {

/// One normalized day of work, the unit of output.
///
/// The first seven fields are copied unchanged from the row's fixed leading
/// cells, so every record extracted from one input row carries the same
/// values there. `date_worked`, `total_hours` and `work_description` belong
/// to the record's own day slot. Numeric fields use the same fixed-point
/// hundredths representation as [`crate::cell::Cell::Number`].
///
/// Records are immutable once built: the extractor creates them and the
/// caller's writer consumes them.
#[derive(Debug, Clone, PartialEq)]
pub struct DailyRecord {
    /// The employee's unique ID.
    pub employee_id: i64,
    /// The employee's name key, as given by the input.
    pub namekey: String,
    /// The employee's display name.
    pub full_name: String,
    /// The employment category code.
    pub emp_type_code: String,
    /// The work-site (building) code.
    pub building: String,
    /// Years-of-experience hours field, carried through unchanged.
    pub yoe_hrs: i64,
    /// Years-of-experience rate field, carried through unchanged.
    pub yoe_rate: i64,
    /// The date token of this record's day slot.
    pub date_worked: String,
    /// The day's minutes cell plus its hours cell, each taken as 0 if absent.
    pub total_hours: i64,
    /// The day's free-text description, or a fixed placeholder if absent.
    pub work_description: String,
}

/// The mathematical model of a record: unbounded integers and character
/// sequences in place of machine integers and strings.
pub struct SpecRecord {
    pub employee_id: int,
    pub namekey: Seq<char>,
    pub full_name: Seq<char>,
    pub emp_type_code: Seq<char>,
    pub building: Seq<char>,
    pub yoe_hrs: int,
    pub yoe_rate: int,
    pub date_worked: Seq<char>,
    pub total_hours: int,
    pub work_description: Seq<char>,
}

impl View for DailyRecord {
    type V = SpecRecord;

    open spec fn view(&self) -> SpecRecord {
        SpecRecord {
            employee_id: self.employee_id as int,
            namekey: self.namekey@,
            full_name: self.full_name@,
            emp_type_code: self.emp_type_code@,
            building: self.building@,
            yoe_hrs: self.yoe_hrs as int,
            yoe_rate: self.yoe_rate as int,
            date_worked: self.date_worked@,
            total_hours: self.total_hours as int,
            work_description: self.work_description@,
        }
    }
}

/// The models of a sequence of records.
pub open spec fn records_view(s: Seq<DailyRecord>) -> Seq<SpecRecord> {
    s.map_values(|r: DailyRecord| r@)
}

} // verus!
