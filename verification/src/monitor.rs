//! The monitor table and the two operations on it: one update pass over every
//! monitor, and a deep copy.

use crate::timestamp::Timestamp;
use vstd::prelude::*;

verus! {

/// One simulated measurement and the instant it was generated at. A result is
/// never edited: the next pass puts a new one in its place.
#[derive(Clone, Copy, Debug, PartialEq, Eq)]
pub struct MonitorResult {
    pub value: i32,
    pub processed_at: Timestamp,
}

/// A named unit of the table. `script` and `code` are carried along untouched;
/// `result` is absent until the first update pass.
#[derive(Debug, PartialEq, Eq)]
pub struct Monitor {
    pub name: String,
    pub script: Option<String>,
    pub result: Option<MonitorResult>,
    pub code: String,
}

/// The table: the monitors in the order they were given in.
#[derive(Debug, PartialEq, Eq)]
pub struct MonitorData {
    pub monitors: Vec<Monitor>,
}

/// What a monitor is, with its strings as sequences of characters.
pub struct MonitorView {
    pub name: Seq<char>,
    pub script: Option<Seq<char>>,
    pub result: Option<MonitorResult>,
    pub code: Seq<char>,
}

impl View for Monitor {
    type V = MonitorView;

    open spec fn view(&self) -> MonitorView {
        MonitorView {
            name: self.name@,
            script: match self.script {
                Some(text) => Some(text@),
                None => None,
            },
            result: self.result,
            code: self.code@,
        }
    }
}

impl View for MonitorData {
    type V = Seq<MonitorView>;

    open spec fn view(&self) -> Seq<MonitorView> {
        Seq::new(self.monitors@.len(), |i: int| self.monitors@[i]@)
    }
}

impl MonitorView {
    /// The same monitor with `reading` as its result.
    pub open spec fn with_result(self, reading: MonitorResult) -> MonitorView {
        MonitorView { result: Some(reading), ..self }
    }
}

/// The table `before` after a pass that gave monitor `i` the reading
/// `readings[i]`: same monitors, same order, every result replaced.
pub open spec fn updated(before: Seq<MonitorView>, readings: Seq<MonitorResult>) -> Seq<
    MonitorView,
>
    recommends
        readings.len() == before.len(),
{
    Seq::new(before.len(), |i: int| before[i].with_result(readings[i]))
}

/// `after` is `before` with the result of every monitor replaced by some
/// reading, and nothing else changed.
pub open spec fn was_refreshed(before: Seq<MonitorView>, after: Seq<MonitorView>) -> bool {
    &&& after.len() == before.len()
    &&& forall|i: int|
        0 <= i < before.len() ==> (#[trigger] after[i]).result is Some && after[i]
            == before[i].with_result(after[i].result->0)
}

/// Draws a uniformly distributed `i32` from `rand::random`. Any value may come
/// back, so nothing is claimed of it.
#[verifier::external_body]
fn random_value() -> i32 {
    rand::random::<i32>()
}

impl Clone for Monitor {
    fn clone(&self) -> (copy: Monitor)
        ensures
            copy@ == self@,
    {
        Monitor {
            name: self.name.clone(),
            script: match &self.script {
                Some(text) => Some(text.clone()),
                None => None,
            },
            result: self.result,
            code: self.code.clone(),
        }
    }
}

impl Clone for MonitorData {
    fn clone(&self) -> (copy: MonitorData)
        ensures
            copy@ == self@,
    {
        let mut monitors: Vec<Monitor> = Vec::new();
        let mut i: usize = 0;
        while i < self.monitors.len()
            invariant
                i <= self.monitors@.len(),
                monitors@.len() == i,
                forall|j: int| 0 <= j < i ==> (#[trigger] monitors@[j])@ == self.monitors@[j]@,
            decreases self.monitors@.len() - i,
        {
            monitors.push(self.monitors[i].clone());
            i += 1;
        }
        MonitorData { monitors }
    }
}

impl Monitor {
    /// Replaces the result, whatever it was, by `reading`.
    pub fn record(&mut self, reading: MonitorResult)
        ensures
            final(self)@ == old(self)@.with_result(reading),
    {
        self.result = Some(reading);
    }
}

impl MonitorData {
    /// The number of monitors.
    pub fn len(&self) -> (count: usize)
        ensures
            count == self@.len(),
    {
        self.monitors.len()
    }

    /// Replaces the result of monitor `i` by `reading`.
    fn record_at(&mut self, i: usize, reading: MonitorResult)
        requires
            i < old(self)@.len(),
        ensures
            final(self)@ == old(self)@.update(i as int, old(self)@[i as int].with_result(reading)),
    {
        self.monitors[i].record(reading);
    }

    /// One update pass with the given readings: monitor `i` gets
    /// `readings[i]`. The pass is all or nothing: with one reading per
    /// monitor it replaces every result and reports `true`; with any other
    /// number of readings it leaves the table as it was and reports `false`.
    pub fn apply_readings(&mut self, readings: &Vec<MonitorResult>) -> (applied: bool)
        ensures
            applied == (readings@.len() == old(self)@.len()),
            applied ==> final(self)@ == updated(old(self)@, readings@),
            !applied ==> final(self)@ == old(self)@,
    {
        let count: usize = self.monitors.len();
        if readings.len() != count {
            return false;
        }
        let mut i: usize = 0;
        while i < count
            invariant
                i <= count,
                count == old(self)@.len(),
                count == readings@.len(),
                self@.len() == count,
                forall|j: int|
                    0 <= j < i ==> #[trigger] self@[j] == old(self)@[j].with_result(
                        readings@[j],
                    ),
                forall|j: int| i <= j < count ==> #[trigger] self@[j] == old(self)@[j],
            decreases count - i,
        {
            self.record_at(i, readings[i]);
            i += 1;
        }
        true
    }

    /// One update pass: every monitor, in table order, gets a freshly drawn
    /// random value stamped with the clock reading taken right after the
    /// draw. Names, scripts and codes stay as they were.
    pub fn update_monitors(&mut self)
        ensures
            was_refreshed(old(self)@, final(self)@),
    {
        let count: usize = self.monitors.len();
        let mut i: usize = 0;
        while i < count
            invariant
                i <= count,
                count == old(self)@.len(),
                self@.len() == count,
                forall|j: int|
                    0 <= j < i ==> (#[trigger] self@[j]).result is Some && self@[j] == old(
                        self,
                    )@[j].with_result(self@[j].result->0),
                forall|j: int| i <= j < count ==> #[trigger] self@[j] == old(self)@[j],
            decreases count - i,
        {
            let value: i32 = random_value();
            let processed_at = Timestamp::now();
            self.record_at(i, MonitorResult { value, processed_at });
            i += 1;
        }
    }

    /// A deep copy of the table as it stands.
    pub fn snapshot(&self) -> (copy: MonitorData)
        ensures
            copy@ == self@,
    {
        self.clone()
    }
}

/// The results that the monitors of `table` carry, in table order.
pub open spec fn carried_results(table: Seq<MonitorView>) -> Seq<MonitorResult>
    recommends
        forall|i: int| 0 <= i < table.len() ==> (#[trigger] table[i]).result is Some,
{
    Seq::new(table.len(), |i: int| table[i].result->0)
}

/// A pass keeps the number of monitors, their order, and the name, script and
/// code of each; afterwards monitor `i` carries exactly `readings[i]`.
pub proof fn lemma_pass_replaces_results_only(
    before: Seq<MonitorView>,
    readings: Seq<MonitorResult>,
)
    requires
        readings.len() == before.len(),
    ensures
        updated(before, readings).len() == before.len(),
        forall|i: int|
            0 <= i < before.len() ==> {
                let after = #[trigger] updated(before, readings)[i];
                &&& after.name == before[i].name
                &&& after.script == before[i].script
                &&& after.code == before[i].code
                &&& after.result == Some(readings[i])
            },
        was_refreshed(before, updated(before, readings)),
        carried_results(updated(before, readings)) == readings,
{
}

/// A refreshed table is the outcome of a pass with the results it now
/// carries: what `update_monitors` does to the table, `apply_readings` does
/// too when it is handed the readings that were drawn.
pub proof fn lemma_refreshed_is_a_pass(before: Seq<MonitorView>, after: Seq<MonitorView>)
    requires
        was_refreshed(before, after),
    ensures
        carried_results(after).len() == before.len(),
        after == updated(before, carried_results(after)),
{
}

/// After a pass whose readings were all taken inside a window of time, every
/// monitor carries a result, and the instant of that result lies inside the
/// window.
pub proof fn lemma_pass_stays_within_window(
    before: Seq<MonitorView>,
    readings: Seq<MonitorResult>,
    earliest: Timestamp,
    latest: Timestamp,
)
    requires
        readings.len() == before.len(),
        forall|i: int|
            0 <= i < readings.len() ==> (#[trigger] readings[i]).processed_at.is_within(
                &earliest,
                &latest,
            ),
    ensures
        forall|i: int|
            0 <= i < before.len() ==> (#[trigger] updated(before, readings)[i]).result is Some
                && updated(before, readings)[i].result->0.processed_at.is_within(
                &earliest,
                &latest,
            ),
{
}

/// Only the latest pass shows: a pass over an already updated table gives
/// what it would have given over the table before any pass.
pub proof fn lemma_later_pass_overrides(
    before: Seq<MonitorView>,
    first: Seq<MonitorResult>,
    second: Seq<MonitorResult>,
)
    requires
        first.len() == before.len(),
        second.len() == before.len(),
    ensures
        updated(updated(before, first), second) == updated(before, second),
{
}

} // verus!
