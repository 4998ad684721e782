//! Why a deletion is refused.

use crate::builder::StringBuilder;
use crate::decimal::decimal;
use vstd::prelude::*;

verus! {

/// The reason a range `start..end` cannot be deleted from a builder.
#[derive(Debug, Clone, Copy, PartialEq, Eq, Structural)]
pub enum DeleteError {
    /// The end index is zero.
    EndIsZero,
    /// The end index is not greater than the start index.
    EndNotAfterStart { start: usize, end: usize },
    /// The end index lies beyond the content.
    EndOutOfRange { end: usize },
}

/// Whether `start..end` can be deleted from content of length `len`, and if
/// not, why. The first reason that applies is given: a zero end, then an end
/// not after the start, then an end beyond the content.
pub open spec fn checked_range(len: nat, start: usize, end: usize) -> Result<(), DeleteError> {
    if end == 0 {
        Err(DeleteError::EndIsZero)
    } else if end <= start {
        Err(DeleteError::EndNotAfterStart { start, end })
    } else if end > len {
        Err(DeleteError::EndOutOfRange { end })
    } else {
        Ok(())
    }
}

impl DeleteError {
    /// The text of [`DeleteError::message`].
    pub open spec fn message_text(self) -> Seq<char> {
        match self {
            DeleteError::EndIsZero => "end index must be greater then 0. end: 0"@,
            DeleteError::EndNotAfterStart { start, end } => {
                "End index must be greater than start. start: "@ + decimal(start as nat)
                    + " end: "@ + decimal(end as nat)
            },
            DeleteError::EndOutOfRange { end } => "Out of index range. end: "@ + decimal(
                end as nat,
            ),
        }
    }

    /// A description of the error that names the offending indices.
    pub fn message(&self) -> (text: String)
        ensures
            text@ == self.message_text(),
    {
        let mut builder = StringBuilder::new();
        match *self {
            DeleteError::EndIsZero => {
                builder.append("end index must be greater then 0. end: 0");
            },
            DeleteError::EndNotAfterStart { start, end } => {
                builder.append("End index must be greater than start. start: ").append(
                    start,
                ).append(" end: ").append(end);
            },
            DeleteError::EndOutOfRange { end } => {
                builder.append("Out of index range. end: ").append(end);
            },
        }
        builder.string()
    }
}

} // verus!
