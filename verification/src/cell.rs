//! The cell model: one spreadsheet cell is a number, a text, or nothing.

use vstd::prelude::*;

verus! {

/// One spreadsheet cell.
///
/// Numeric cell values are carried in fixed-point hundredths, so that
/// amounts with the two decimal places used by the output's numeric format
/// are represented exactly. The caller converts between this representation
/// and whatever its spreadsheet backend stores.
///
/// There is no implicit coercion between variants: a numeric read of a text
/// cell (or the reverse) yields `None`, exactly like a read of an empty cell.
#[derive(Debug, Clone, PartialEq)]
pub enum Cell {
    Number(i64),
    Text(String),
    Empty,
}

/// The mathematical value of a cell: an unbounded integer, a character
/// sequence, or nothing.
pub enum SpecCell {
    Number(int),
    Text(Seq<char>),
    Empty,
}

impl View for Cell {
    type V = SpecCell;

    open spec fn view(&self) -> SpecCell {
        match self {
            Cell::Number(n) => SpecCell::Number(*n as int),
            Cell::Text(s) => SpecCell::Text(s@),
            Cell::Empty => SpecCell::Empty,
        }
    }
}

impl Cell {
    /// The numeric value of the cell, if it is a numeric cell.
    pub open spec fn spec_number(self) -> Option<i64> {
        match self {
            Cell::Number(n) => Some(n),
            _ => None,
        }
    }

    /// The text of the cell, if it is a text cell.
    pub open spec fn spec_text(self) -> Option<String> {
        match self {
            Cell::Text(s) => Some(s),
            _ => None,
        }
    }

    /// Typed view of a numeric cell; `None` for a text or empty cell.
    pub fn as_number(&self) -> (r: Option<i64>)
        ensures
            r == self.spec_number(),
    {
        match self {
            Cell::Number(n) => Some(*n),
            _ => None,
        }
    }

    /// Typed view of a text cell; `None` for a numeric or empty cell.
    pub fn as_text(&self) -> (r: Option<&String>)
        ensures
            match r {
                Some(s) => self.spec_text() == Some(*s),
                None => self.spec_text() is None,
            },
    {
        match self {
            Cell::Text(s) => Some(s),
            _ => None,
        }
    }
}

} // verus!
