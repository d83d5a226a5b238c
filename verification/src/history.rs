//! The table over a whole run, as the sequence of update passes made on it.
//!
//! The shared table is touched by two operations only, an update pass and a
//! snapshot, and the program carries out each of them while it holds the
//! table's one lock. Operations therefore never overlap: a snapshot is taken
//! between two passes, never within one, and holds the table as some number
//! of whole passes left it. This module states what such a table can be.

use crate::monitor::lemma_later_pass_overrides;
use crate::monitor::updated;
use crate::monitor::MonitorResult;
use crate::monitor::MonitorView;
use vstd::prelude::*;

verus! {

/// A pass with these readings takes effect on a table of the size of
/// `initial`: it brings one reading for each monitor.
pub open spec fn takes_effect(initial: Seq<MonitorView>, readings: Seq<MonitorResult>) -> bool {
    readings.len() == initial.len()
}

/// What one pass makes of `table`. With one reading per monitor it replaces
/// every result; with any other number of readings it is refused and leaves
/// the table as it is.
pub open spec fn table_after_pass(table: Seq<MonitorView>, readings: Seq<MonitorResult>) -> Seq<
    MonitorView,
> {
    if takes_effect(table, readings) {
        updated(table, readings)
    } else {
        table
    }
}

/// The table after the passes `passes`, made in order on `initial`.
pub open spec fn table_after(initial: Seq<MonitorView>, passes: Seq<Seq<MonitorResult>>) -> Seq<
    MonitorView,
>
    decreases passes.len(),
{
    if passes.len() == 0 {
        initial
    } else {
        table_after_pass(table_after(initial, passes.drop_last()), passes.last())
    }
}

/// What a snapshot holds that is taken when the first `k` of `passes` have
/// been made.
pub open spec fn observed(
    initial: Seq<MonitorView>,
    passes: Seq<Seq<MonitorResult>>,
    k: int,
) -> Seq<MonitorView>
    recommends
        0 <= k <= passes.len(),
{
    table_after(initial, passes.take(k))
}

/// Pass `j` is the latest among the first `k` of `passes` that took effect.
pub open spec fn is_latest_pass(
    initial: Seq<MonitorView>,
    passes: Seq<Seq<MonitorResult>>,
    k: int,
    j: int,
) -> bool {
    &&& 0 <= j < k <= passes.len()
    &&& takes_effect(initial, passes[j])
    &&& forall|later: int| j < later < k ==> !takes_effect(initial, #[trigger] passes[later])
}

/// `table` shows one whole pass: it is `initial` with every result replaced
/// by the readings of the latest pass that took effect among the first `k` of
/// `passes`, or `initial` untouched if none did.
pub open spec fn shows_latest_whole_pass(
    initial: Seq<MonitorView>,
    passes: Seq<Seq<MonitorResult>>,
    k: int,
    table: Seq<MonitorView>,
) -> bool {
    ||| table == initial && forall|j: int|
        0 <= j < k ==> !takes_effect(initial, #[trigger] passes[j])
    ||| exists|j: int| #[trigger]
        is_latest_pass(initial, passes, k, j) && table == updated(initial, passes[j])
}

/// Snapshot isolation: a snapshot never holds a table in which some monitors
/// carry the readings of one pass and others those of another pass or none.
/// However many passes came before it, it holds the initial table or, in
/// every monitor, the readings of one and the same pass, the latest that took
/// effect.
pub proof fn lemma_snapshot_isolation(
    initial: Seq<MonitorView>,
    passes: Seq<Seq<MonitorResult>>,
    k: int,
)
    requires
        0 <= k <= passes.len(),
    ensures
        observed(initial, passes, k).len() == initial.len(),
        shows_latest_whole_pass(initial, passes, k, observed(initial, passes, k)),
    decreases k,
{
    if k == 0 {
        assert(passes.take(k).len() == 0);
    } else {
        lemma_snapshot_isolation(initial, passes, k - 1);
        assert(passes.take(k).drop_last() == passes.take(k - 1));
        assert(passes.take(k).last() == passes[k - 1]);
        let earlier = observed(initial, passes, k - 1);
        if takes_effect(initial, passes[k - 1]) {
            if exists|j: int| #[trigger]
                is_latest_pass(initial, passes, k - 1, j) && earlier == updated(
                    initial,
                    passes[j],
                ) {
                let j = choose|j: int| #[trigger]
                    is_latest_pass(initial, passes, k - 1, j) && earlier == updated(
                        initial,
                        passes[j],
                    );
                lemma_later_pass_overrides(initial, passes[j], passes[k - 1]);
            }
            assert(is_latest_pass(initial, passes, k, k - 1));
        } else if !(earlier == initial && forall|j: int|
            0 <= j < k - 1 ==> !takes_effect(initial, #[trigger] passes[j])) {
            let j = choose|j: int| #[trigger]
                is_latest_pass(initial, passes, k - 1, j) && earlier == updated(
                    initial,
                    passes[j],
                );
            assert(is_latest_pass(initial, passes, k, j));
        }
    }
}

/// Snapshots repeat: two snapshots with no pass taking effect between them
/// hold the same table.
pub proof fn lemma_snapshots_without_a_pass_between_agree(
    initial: Seq<MonitorView>,
    passes: Seq<Seq<MonitorResult>>,
    first: int,
    second: int,
)
    requires
        0 <= first <= second <= passes.len(),
        forall|j: int| first <= j < second ==> !takes_effect(initial, #[trigger] passes[j]),
    ensures
        observed(initial, passes, first) == observed(initial, passes, second),
    decreases second - first,
{
    if first < second {
        lemma_snapshots_without_a_pass_between_agree(initial, passes, first, second - 1);
        lemma_snapshot_isolation(initial, passes, second - 1);
        assert(passes.take(second).drop_last() == passes.take(second - 1));
    }
}

/// What never changes during a run, and what changes once: the table keeps
/// its monitors, their order, and the name, script and code of each; until
/// the first pass takes effect it is the initial table, results absent where
/// they were absent, and from then on every monitor carries a result.
pub proof fn lemma_run_keeps_monitors_and_fills_results(
    initial: Seq<MonitorView>,
    passes: Seq<Seq<MonitorResult>>,
    k: int,
)
    requires
        0 <= k <= passes.len(),
    ensures
        observed(initial, passes, k).len() == initial.len(),
        forall|i: int|
            0 <= i < initial.len() ==> {
                let monitor = #[trigger] observed(initial, passes, k)[i];
                &&& monitor.name == initial[i].name
                &&& monitor.script == initial[i].script
                &&& monitor.code == initial[i].code
            },
        (forall|j: int| 0 <= j < k ==> !takes_effect(initial, #[trigger] passes[j])) ==> observed(
            initial,
            passes,
            k,
        ) == initial,
        (exists|j: int| 0 <= j < k && takes_effect(initial, #[trigger] passes[j])) ==> forall|
            i: int,
        |
            0 <= i < initial.len() ==> (#[trigger] observed(initial, passes, k)[i]).result is Some,
{
    lemma_snapshot_isolation(initial, passes, k);
}

/// All or nothing, monitor by monitor: once a pass has taken effect, a
/// snapshot carries in every monitor the reading that the latest such pass
/// gave to that monitor, and in no monitor an older one.
pub proof fn lemma_snapshot_carries_one_pass(
    initial: Seq<MonitorView>,
    passes: Seq<Seq<MonitorResult>>,
    k: int,
    latest: int,
)
    requires
        is_latest_pass(initial, passes, k, latest),
    ensures
        observed(initial, passes, k) == updated(initial, passes[latest]),
        forall|i: int|
            0 <= i < initial.len() ==> (#[trigger] observed(initial, passes, k)[i]).result == Some(
                passes[latest][i],
            ),
{
    lemma_snapshot_isolation(initial, passes, k);
    let j = choose|j: int| #[trigger]
        is_latest_pass(initial, passes, k, j) && observed(initial, passes, k) == updated(
            initial,
            passes[j],
        );
    assert(j == latest) by {
        if j < latest {
            assert(!takes_effect(initial, passes[latest]));
        }
        if latest < j {
            assert(!takes_effect(initial, passes[j]));
        }
    }
}

} // verus!
