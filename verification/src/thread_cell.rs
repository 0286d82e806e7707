//! A shared cell with a single-writer-per-field discipline.
//!
//! The cell records the tag of the thread that last wrote it.  A write from
//! a different tag, without an explicit reset, is a contract violation and
//! is rejected instead of being silently reconciled.  Reads are unrestricted.

use vstd::prelude::*;

verus! {

/// Error returned when a second thread writes a cell without a reset.
#[derive(Clone, Copy, Debug, PartialEq, Eq, Structural)]
pub struct WriteError;

/// A value together with the tag of the thread allowed to write it.
///
/// Any thread may read the value; the first writer claims the cell, and
/// later writes must come from the same tag until `reset_thread` is called
/// to transfer write ownership.
pub struct ThreadCell<T> {
    data: T,
    write_thread: Option<u64>,
}

impl<T> ThreadCell<T> {
    /// The current value of the cell.
    pub closed spec fn value(self) -> T {
        self.data
    }

    /// The tag of the thread that owns writes, if any has claimed the cell.
    pub closed spec fn writer(self) -> Option<u64> {
        self.write_thread
    }

    /// Whether a write with `tag` is allowed in the cell's current state.
    pub open spec fn may_write(self, tag: u64) -> bool {
        self.writer() is None || self.writer() == Some(tag)
    }

    /// Creates a cell that no thread has written yet.
    pub fn new(data: T) -> (cell: Self)
        ensures
            cell.value() == data,
            cell.writer() is None,
    {
        ThreadCell { data, write_thread: None }
    }

    /// Reads the value; any thread may do so.
    pub fn read(&self) -> (r: &T)
        ensures
            *r == self.value(),
    {
        &self.data
    }

    /// Writes the value from the thread with the given tag.
    ///
    /// The first writer claims the cell; a write from any other tag is a
    /// contract violation and leaves the cell unchanged.
    pub fn write(&mut self, tag: u64, value: T) -> (r: Result<(), WriteError>)
        ensures
            r is Ok <==> old(self).may_write(tag),
            old(self).may_write(tag) ==> final(self).value() == value
                && final(self).writer() == Some(tag),
            !old(self).may_write(tag) ==> *final(self) == *old(self),
    {
        match self.write_thread {
            None => {
                self.write_thread = Some(tag);
                self.data = value;
                Ok(())
            }
            Some(owner) => {
                if owner == tag {
                    self.data = value;
                    Ok(())
                } else {
                    Err(WriteError)
                }
            }
        }
    }

    /// Clears the writer tag, intentionally transferring write ownership.
    pub fn reset_thread(&mut self)
        ensures
            final(self).value() == old(self).value(),
            final(self).writer() is None,
    {
        self.write_thread = None;
    }
}

} // verus!
