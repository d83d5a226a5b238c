//! The table as the background tasks get to see it: behind a handle that
//! offers an update pass and a snapshot, and nothing else.
//!
//! A pass needs the handle exclusively and a snapshot needs it unchanged for
//! as long as the copy takes, so whatever lock the program puts the handle
//! behind, no snapshot is taken while a pass is under way and no pass begins
//! while a copy is being made.

use crate::history::lemma_snapshot_isolation;
use crate::history::shows_latest_whole_pass;
use crate::history::table_after;
use crate::monitor::carried_results;
use crate::monitor::lemma_refreshed_is_a_pass;
use crate::monitor::updated;
use crate::monitor::was_refreshed;
use crate::monitor::MonitorData;
use crate::monitor::MonitorResult;
use crate::monitor::MonitorView;
use vstd::prelude::*;

verus! {

/// The shared table together with the record of what was done to it.
///
/// The record costs nothing at run time. It is what lets every snapshot be
/// traced back to the table that was handed over and the one pass it shows.
pub struct SharedTable {
    table: MonitorData,
    loaded: Ghost<Seq<MonitorView>>,
    passes: Ghost<Seq<Seq<MonitorResult>>>,
}

impl View for SharedTable {
    type V = Seq<MonitorView>;

    closed spec fn view(&self) -> Seq<MonitorView> {
        self.table@
    }
}

impl SharedTable {
    /// The table is what its record says: the table that was handed over,
    /// after the passes made since.
    pub closed spec fn wf(self) -> bool {
        self.table@ == table_after(self.loaded@, self.passes@)
    }

    /// The table as it was handed over.
    pub closed spec fn loaded(self) -> Seq<MonitorView> {
        self.loaded@
    }

    /// The passes made since, oldest first.
    pub closed spec fn history(self) -> Seq<Seq<MonitorResult>> {
        self.passes@
    }

    /// Puts `table` behind the handle.
    pub fn new(table: MonitorData) -> (shared: SharedTable)
        ensures
            shared.wf(),
            shared@ == table@,
            shared.loaded() == table@,
            shared.history() == Seq::<Seq<MonitorResult>>::empty(),
    {
        let ghost loaded = table@;
        SharedTable { table, loaded: Ghost(loaded), passes: Ghost(Seq::empty()) }
    }

    /// One update pass over the table.
    pub fn update(&mut self)
        ensures
            old(self).wf() ==> final(self).wf(),
            was_refreshed(old(self)@, final(self)@),
            final(self).loaded() == old(self).loaded(),
            final(self).history() == old(self).history().push(carried_results(final(self)@)),
    {
        let ghost before = self.table@;
        self.table.update_monitors();
        proof {
            lemma_refreshed_is_a_pass(before, self.table@);
            let pass = carried_results(self.table@);
            let earlier = self.passes@;
            assert(earlier.push(pass).drop_last() =~= earlier);
            self.passes = Ghost(earlier.push(pass));
        }
    }

    /// One update pass with the given readings, all or nothing as
    /// `MonitorData::apply_readings` has it. The pass is put on record either
    /// way; one that was refused changes nothing.
    pub fn apply_readings(&mut self, readings: &Vec<MonitorResult>) -> (applied: bool)
        ensures
            old(self).wf() ==> final(self).wf(),
            applied == (readings@.len() == old(self)@.len()),
            applied ==> final(self)@ == updated(old(self)@, readings@),
            !applied ==> final(self)@ == old(self)@,
            final(self).loaded() == old(self).loaded(),
            final(self).history() == old(self).history().push(readings@),
    {
        let applied: bool = self.table.apply_readings(readings);
        proof {
            let earlier = self.passes@;
            assert(earlier.push(readings@).drop_last() =~= earlier);
            self.passes = Ghost(earlier.push(readings@));
        }
        applied
    }

    /// A deep copy of the table as it stands. It never shows a pass half
    /// done: every monitor in it carries the reading that the latest pass
    /// gave it, or, before the first pass, what it was handed over with.
    pub fn snapshot(&self) -> (copy: MonitorData)
        ensures
            copy@ == self@,
            self.wf() ==> copy@ == table_after(self.loaded(), self.history()),
            self.wf() ==> shows_latest_whole_pass(
                self.loaded(),
                self.history(),
                self.history().len() as int,
                copy@,
            ),
    {
        proof {
            if self.wf() {
                lemma_snapshot_isolation(self.loaded@, self.passes@, self.passes@.len() as int);
                let all = self.passes@;
                assert(all.take(all.len() as int) =~= all);
            }
        }
        self.table.snapshot()
    }
}

} // verus!
