//! The selection of columns.

use vstd::prelude::*;

verus! {

/// A choice of columns by their zero-based positions: either the columns to
/// show, or the columns to leave out.
pub struct Cols {
    pub values: Vec<usize>,
    pub keep: bool,
}

/// Why no selection of columns could be made.
#[derive(Debug, Clone, Copy, PartialEq, Eq)]
pub enum ConfigError {
    /// Columns to show and columns to leave out were both given.
    ColsConflict,
}

/// Whether `i` is one of the listed positions.
pub open spec fn listed(values: Seq<usize>, i: int) -> bool {
    exists|k: int| 0 <= k < values.len() && values[k] == i
}

impl Cols {
    /// Whether the column at position `i` is shown.
    pub open spec fn keeps(&self, i: int) -> bool {
        self.keep == listed(self.values@, i)
    }

    /// The selection that shows the listed columns and no others.
    pub fn select(values: Vec<usize>) -> (cols: Self)
        ensures
            cols.values == values,
            cols.keep,
    {
        Self { values, keep: true }
    }

    /// The selection that shows every column but the listed ones.
    pub fn skip(values: Vec<usize>) -> (cols: Self)
        ensures
            cols.values == values,
            !cols.keep,
    {
        Self { values, keep: false }
    }

    /// Makes the selection out of the two lists a caller may give: none where
    /// neither is given, an error where both are.
    pub fn choose_from(shown: Option<Vec<usize>>, skipped: Option<Vec<usize>>) -> (out: Result<
        Option<Self>,
        ConfigError,
    >)
        ensures
            out == match (shown, skipped) {
                (Some(_), Some(_)) => Err::<Option<Self>, ConfigError>(ConfigError::ColsConflict),
                (None, None) => Ok(None),
                (Some(values), None) => Ok(Some(Cols { values, keep: true })),
                (None, Some(values)) => Ok(Some(Cols { values, keep: false })),
            },
    {
        match (shown, skipped) {
            (Some(_), Some(_)) => Err(ConfigError::ColsConflict),
            (None, None) => Ok(None),
            (Some(values), None) => Ok(Some(Cols::select(values))),
            (None, Some(values)) => Ok(Some(Cols::skip(values))),
        }
    }

    /// Whether the column at position `i` is shown.
    pub fn shows(&self, i: usize) -> (shown: bool)
        ensures
            shown == self.keeps(i as int),
    {
        let mut k: usize = 0;
        while k < self.values.len()
            invariant
                k <= self.values.len(),
                forall|m: int| 0 <= m < k ==> self.values@[m] != i,
            decreases self.values.len() - k,
        {
            if self.values[k] == i {
                return self.keep;
            }
            k += 1;
        }
        !self.keep
    }
}

impl ConfigError {
    /// The message shown for this error.
    pub fn message(&self) -> (text: String)
        ensures
            text@ == "--cols and --skip-cols cannot be used at the same time"@,
    {
        "--cols and --skip-cols cannot be used at the same time".to_string()
    }
}

} // verus!
