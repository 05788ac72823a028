//! The process-wide engine data table behind a one-time publication: it is
//! built by a single writer during start-up and only then becomes readable,
//! after which it never changes.

use crate::engine::SourceEngineData;
use vstd::prelude::*;

verus! {

#[derive(Clone, Copy, Debug, PartialEq, Eq, Structural)]
pub enum Phase {
    Uninitialized,
    Initializing,
    Ready,
}

#[derive(Clone, Copy, Debug, PartialEq, Eq, Structural)]
pub enum TableError {
    /// Start-up has begun already.
    AlreadyStarted,
    /// Publication outside the start-up phase: not begun, or done already.
    NotInitializing,
    /// The table to publish misses a field.
    Incomplete,
}

/// The engine data table and its life cycle.
pub struct EngineDataTable {
    phase: Phase,
    data: SourceEngineData,
}

impl View for EngineDataTable {
    type V = (Phase, SourceEngineData);

    closed spec fn view(&self) -> (Phase, SourceEngineData) {
        (self.phase, self.data)
    }
}

impl EngineDataTable {
    /// Only a fully populated table is ever published.
    pub open spec fn wf(&self) -> bool {
        self@.0 == Phase::Ready ==> self@.1.complete()
    }

    pub fn new() -> (r: EngineDataTable)
        ensures
            r.wf(),
            r@.0 == Phase::Uninitialized,
    {
        EngineDataTable { phase: Phase::Uninitialized, data: SourceEngineData::new() }
    }

    pub fn phase(&self) -> (r: Phase)
        ensures
            r == self@.0,
    {
        self.phase
    }

    /// Marks the start of the load sequence; it can start once.
    pub fn begin(&mut self) -> (r: Result<(), TableError>)
        requires
            old(self).wf(),
        ensures
            final(self).wf(),
            r is Ok <==> old(self)@.0 == Phase::Uninitialized,
            r is Err ==> r == Err::<(), TableError>(TableError::AlreadyStarted) && final(self)@
                == old(self)@,
            r is Ok ==> final(self)@ == (Phase::Initializing, old(self)@.1),
    {
        match self.phase {
            Phase::Uninitialized => {
                self.phase = Phase::Initializing;
                Ok(())
            },
            _ => Err(TableError::AlreadyStarted),
        }
    }

    /// Publishes the table that the load sequence built. From then on every
    /// read sees it, and nothing can change it.
    pub fn publish(&mut self, data: SourceEngineData) -> (r: Result<(), TableError>)
        requires
            old(self).wf(),
        ensures
            final(self).wf(),
            old(self)@.0 != Phase::Initializing ==> r == Err::<(), TableError>(
                TableError::NotInitializing,
            ),
            old(self)@.0 == Phase::Initializing && !data.complete() ==> r == Err::<(), TableError>(
                TableError::Incomplete,
            ),
            r is Ok <==> old(self)@.0 == Phase::Initializing && data.complete(),
            r is Err ==> final(self)@ == old(self)@,
            r is Ok ==> final(self)@ == (Phase::Ready, data),
    {
        match self.phase {
            Phase::Initializing => {
                if !data.is_complete() {
                    return Err(TableError::Incomplete);
                }
                self.phase = Phase::Ready;
                self.data = data;
                Ok(())
            },
            _ => Err(TableError::NotInitializing),
        }
    }

    /// The published table; `None` until publication.
    pub fn read(&self) -> (r: Option<SourceEngineData>)
        requires
            self.wf(),
        ensures
            r is Some <==> self@.0 == Phase::Ready,
            r matches Some(d) ==> d == self@.1 && d.complete(),
    {
        match self.phase {
            Phase::Ready => Some(self.data),
            _ => None,
        }
    }
}

/// A read either sees nothing or a fully populated table: before
/// publication it gets nothing, after it the complete table that was
/// published.
pub proof fn lemma_reads_see_whole_table(t: &EngineDataTable)
    requires
        t.wf(),
    ensures
        t@.0 != Phase::Ready || t@.1.complete(),
{
}

} // verus!
