//! Reshapes a wide-format timesheet worksheet (one row per employee, with
//! fifteen repeated day-blocks of minutes/hours/date/description columns)
//! into a long-format table of one `DailyRecord` per employee per worked day,
//! and lays that table out as an output worksheet grid.
//!
//! The caller is responsible for file handling: it reads the input worksheet
//! into rows of [`cell::Cell`] values, hands them to
//! [`extract::extract_records`], and writes the grid produced by
//! [`render::render_sheet`] to the output file with the styling described by
//! [`render::output_format`].

pub mod cell;
pub mod column_map;
pub mod extract;
pub mod record;
pub mod render;
