//! The library's cross-cutting guarantees, each proved over the models
//! that the public contracts speak of.

use vstd::prelude::*;

use crate::snapshots::{
    advance_n_model, cycle_limit, retreat_n_model, spec_finish, spec_ingest, spec_step,
    unknown_vars_map, IngestState, TraceEvent,
};
use crate::values::ValueView;

verus! {

/// One single-step cursor move, or an unconditional jump.
pub enum NavOp {
    Forward,
    Backward,
    JumpStart,
    JumpEnd,
}

/// Where one navigation operation parks a cursor at `cursor` in a
/// history of `len` snapshots: single steps saturate at the boundaries,
/// jumps land unconditionally.
pub open spec fn nav_step(cursor: int, len: int, op: NavOp) -> int {
    match op {
        NavOp::Forward => if cursor < len - 1 {
            cursor + 1
        } else {
            cursor
        },
        NavOp::Backward => if cursor > 0 {
            cursor - 1
        } else {
            cursor
        },
        NavOp::JumpStart => 0,
        NavOp::JumpEnd => len - 1,
    }
}

/// Where a whole sequence of navigation operations parks the cursor.
pub open spec fn nav_run(cursor: int, len: int, ops: Seq<NavOp>) -> int
    decreases ops.len(),
{
    if ops.len() == 0 {
        cursor
    } else {
        nav_step(nav_run(cursor, len, ops.drop_last()), len, ops.last())
    }
}

/// Law: under any sequence of navigation operations, the cursor stays
/// within the history: always at least 0 and at most `len - 1`.
pub proof fn lemma_navigation_in_bounds(cursor: int, len: int, ops: Seq<NavOp>)
    requires
        0 <= cursor < len,
    ensures
        0 <= nav_run(cursor, len, ops) < len,
    decreases ops.len(),
{
    if ops.len() > 0 {
        lemma_navigation_in_bounds(cursor, len, ops.drop_last());
    }
}

/// Law: stepping forward `n` snapshots and immediately backward `n`
/// restores the cursor, whenever `n` exceeded the distance to neither
/// boundary at call time.
pub proof fn lemma_step_round_trip(cursor: int, len: int, n: int)
    requires
        0 <= cursor < len,
        0 <= n <= len - 1 - cursor,
        n <= cursor,
    ensures
        retreat_n_model(advance_n_model(cursor, len, n), n) == cursor,
{
}

/// Law: jumping to the start parks the cursor on 0 regardless of any
/// prior navigation, and a following jump to the end parks it on
/// `len - 1`.
pub proof fn lemma_jumps_override_history(cursor: int, len: int, ops: Seq<NavOp>)
    requires
        0 <= cursor < len,
    ensures
        nav_run(cursor, len, ops.push(NavOp::JumpStart)) == 0,
        nav_run(cursor, len, ops.push(NavOp::JumpStart).push(NavOp::JumpEnd)) == len - 1,
{
    assert(ops.push(NavOp::JumpStart).drop_last() =~= ops);
    let with_start = ops.push(NavOp::JumpStart);
    assert(with_start.push(NavOp::JumpEnd).drop_last() =~= with_start);
}

/// The working cycle count never leaves `[0, start_cycle +
/// window_length]`, and every committed snapshot's count is at most that
/// limit; every snapshot the fold itself commits — at a time boundary or
/// at the window — has also reached `start_cycle`.
proof fn lemma_ingest_invariants(
    events: Seq<TraceEvent>,
    ids: Seq<u64>,
    clock_id: u64,
    start_cycle: usize,
    window_length: usize,
)
    ensures
        ({
            let s = spec_ingest(events, ids, clock_id, start_cycle, window_length);
            &&& s.clock_count <= cycle_limit(start_cycle, window_length)
            &&& forall|i: int|
                0 <= i < s.shots.len() ==> #[trigger] s.shots[i].clock_count <= cycle_limit(
                    start_cycle,
                    window_length,
                )
            &&& forall|i: int|
                0 <= i < s.shots.len() ==> #[trigger] s.shots[i].clock_count >= start_cycle
        }),
    decreases events.len(),
{
    if events.len() > 0 {
        lemma_ingest_invariants(events.drop_last(), ids, clock_id, start_cycle, window_length);
    }
}

/// Law: loading with a start cycle and a window length never commits a
/// snapshot whose cycle count is beyond `start_cycle + window_length`;
/// and every snapshot except possibly the unconditional end-of-stream
/// commit has reached `start_cycle` — in particular the first committed
/// snapshot has, whenever the stream did not end before cycle
/// `start_cycle`.
pub proof fn lemma_window_bounds(
    events: Seq<TraceEvent>,
    ids: Seq<u64>,
    clock_id: u64,
    start_cycle: usize,
    window_length: usize,
)
    ensures
        ({
            let shots = spec_finish(
                spec_ingest(events, ids, clock_id, start_cycle, window_length),
            ).shots;
            forall|i: int|
                0 <= i < shots.len() ==> #[trigger] shots[i].clock_count <= cycle_limit(
                    start_cycle,
                    window_length,
                )
        }),
        ({
            let folded = spec_ingest(events, ids, clock_id, start_cycle, window_length);
            forall|i: int|
                0 <= i < folded.shots.len() ==> #[trigger] folded.shots[i].clock_count
                    >= start_cycle
        }),
{
    lemma_ingest_invariants(events, ids, clock_id, start_cycle, window_length);
}

/// The value of the last time boundary in `events`, or 0 before any.
pub open spec fn last_time(events: Seq<TraceEvent>) -> u64
    decreases events.len(),
{
    if events.len() == 0 {
        0
    } else {
        match events.last() {
            TraceEvent::SetTime(t) => t,
            _ => last_time(events.drop_last()),
        }
    }
}

/// Whether the stream's time boundaries are chronological: every time
/// boundary is at least each one before it — the shape a recorded trace
/// has.
pub open spec fn times_monotone(events: Seq<TraceEvent>) -> bool
    decreases events.len(),
{
    if events.len() == 0 {
        true
    } else {
        times_monotone(events.drop_last()) && (events.last() matches TraceEvent::SetTime(t)
            ==> last_time(events.drop_last()) <= t)
    }
}

proof fn lemma_times_invariant(
    events: Seq<TraceEvent>,
    ids: Seq<u64>,
    clock_id: u64,
    start_cycle: usize,
    window_length: usize,
)
    requires
        times_monotone(events),
    ensures
        ({
            let s = spec_ingest(events, ids, clock_id, start_cycle, window_length);
            &&& forall|i: int, j: int|
                0 <= i <= j < s.shots.len() ==> #[trigger] s.shots[i].time <= #[trigger] s.shots[j].time
            &&& forall|i: int| 0 <= i < s.shots.len() ==> #[trigger] s.shots[i].time <= s.time
            &&& (!s.done ==> s.time == last_time(events))
        }),
    decreases events.len(),
{
    if events.len() > 0 {
        lemma_times_invariant(events.drop_last(), ids, clock_id, start_cycle, window_length);
    }
}

/// Law: loading a chronological stream — one whose time boundaries never
/// go backward — yields a history whose snapshot times are
/// non-decreasing in commit order.
pub proof fn lemma_times_nondecreasing(
    events: Seq<TraceEvent>,
    ids: Seq<u64>,
    clock_id: u64,
    start_cycle: usize,
    window_length: usize,
)
    requires
        times_monotone(events),
    ensures
        ({
            let shots = spec_finish(
                spec_ingest(events, ids, clock_id, start_cycle, window_length),
            ).shots;
            forall|i: int, j: int|
                0 <= i <= j < shots.len() ==> #[trigger] shots[i].time <= #[trigger] shots[j].time
        }),
{
    lemma_times_invariant(events, ids, clock_id, start_cycle, window_length);
}

proof fn lemma_counts_invariant(
    events: Seq<TraceEvent>,
    ids: Seq<u64>,
    clock_id: u64,
    start_cycle: usize,
    window_length: usize,
)
    ensures
        ({
            let s = spec_ingest(events, ids, clock_id, start_cycle, window_length);
            &&& forall|i: int, j: int|
                0 <= i <= j < s.shots.len() ==> #[trigger] s.shots[i].clock_count
                    <= #[trigger] s.shots[j].clock_count
            &&& forall|i: int|
                0 <= i < s.shots.len() ==> #[trigger] s.shots[i].clock_count <= s.clock_count
        }),
    decreases events.len(),
{
    if events.len() > 0 {
        lemma_counts_invariant(events.drop_last(), ids, clock_id, start_cycle, window_length);
        // the working count stays at or under the cycle limit, so the
        // increment on a rising edge cannot wrap
        lemma_ingest_invariants(events.drop_last(), ids, clock_id, start_cycle, window_length);
    }
}

/// Law: the history's cycle counts are non-decreasing in commit order,
/// for any stream — the working count only ever rises.
pub proof fn lemma_counts_nondecreasing(
    events: Seq<TraceEvent>,
    ids: Seq<u64>,
    clock_id: u64,
    start_cycle: usize,
    window_length: usize,
)
    ensures
        ({
            let shots = spec_finish(
                spec_ingest(events, ids, clock_id, start_cycle, window_length),
            ).shots;
            forall|i: int, j: int|
                0 <= i <= j < shots.len() ==> #[trigger] shots[i].clock_count
                    <= #[trigger] shots[j].clock_count
        }),
{
    lemma_counts_invariant(events, ids, clock_id, start_cycle, window_length);
}

/// Whether an event is a change of the variable with handle `id`.
pub open spec fn changes_id(e: TraceEvent, id: u64) -> bool {
    match e {
        TraceEvent::SetTime(_) => false,
        TraceEvent::ScalarChange(i, _) => i == id,
        TraceEvent::VectorChange(i, _) => i == id,
    }
}

/// Law: a trace whose clock handle receives no change event — the
/// degraded mode used when no `clock` variable exists — keeps every
/// committed snapshot, and the working state, at cycle zero.
pub proof fn lemma_clockless_stays_at_cycle_zero(
    events: Seq<TraceEvent>,
    ids: Seq<u64>,
    clock_id: u64,
    start_cycle: usize,
    window_length: usize,
)
    requires
        forall|i: int| 0 <= i < events.len() ==> !changes_id(#[trigger] events[i], clock_id),
    ensures
        ({
            let s = spec_finish(spec_ingest(events, ids, clock_id, start_cycle, window_length));
            &&& s.clock_count == 0
            &&& forall|i: int| 0 <= i < s.shots.len() ==> #[trigger] s.shots[i].clock_count == 0
        }),
{
    lemma_clockless_rec(events, ids, clock_id, start_cycle, window_length);
}

proof fn lemma_clockless_rec(
    events: Seq<TraceEvent>,
    ids: Seq<u64>,
    clock_id: u64,
    start_cycle: usize,
    window_length: usize,
)
    requires
        forall|i: int| 0 <= i < events.len() ==> !changes_id(#[trigger] events[i], clock_id),
    ensures
        ({
            let s = spec_ingest(events, ids, clock_id, start_cycle, window_length);
            &&& s.clock_count == 0
            &&& forall|i: int| 0 <= i < s.shots.len() ==> #[trigger] s.shots[i].clock_count == 0
        }),
    decreases events.len(),
{
    if events.len() > 0 {
        assert(forall|i: int|
            0 <= i < events.drop_last().len() ==> !changes_id(
                #[trigger] events.drop_last()[i],
                clock_id,
            ));
        lemma_clockless_rec(events.drop_last(), ids, clock_id, start_cycle, window_length);
        assert(!changes_id(events.last(), clock_id));
    }
}

/// What a change event writes: the changed handle and the value it takes.
pub open spec fn event_write(e: TraceEvent) -> Option<(u64, ValueView)> {
    match e {
        TraceEvent::SetTime(_) => Option::None,
        TraceEvent::ScalarChange(id, b) => Option::Some((id, ValueView::Scalar(b))),
        TraceEvent::VectorChange(id, bits) => Option::Some((id, ValueView::Vector(bits@))),
    }
}

/// The handles that receive a change event in `events`.
pub open spec fn changed_ids(events: Seq<TraceEvent>) -> Set<u64>
    decreases events.len(),
{
    if events.len() == 0 {
        Set::empty()
    } else {
        match event_write(events.last()) {
            Option::None => changed_ids(events.drop_last()),
            Option::Some((id, _)) => changed_ids(events.drop_last()).insert(id),
        }
    }
}

/// The variable assignment after the change events of one commit window
/// have been applied, in order.
pub open spec fn apply_changes(vars: Map<u64, ValueView>, events: Seq<TraceEvent>) -> Map<
    u64,
    ValueView,
>
    decreases events.len(),
{
    if events.len() == 0 {
        vars
    } else {
        match event_write(events.last()) {
            Option::None => apply_changes(vars, events.drop_last()),
            Option::Some((id, v)) => apply_changes(vars, events.drop_last()).insert(id, v),
        }
    }
}

/// Bridge: between commits, one ingestion step changes the working
/// assignment exactly as the event's write says — nothing else moves.
/// (The one exception is the window-exceeded edge, which changes nothing
/// and stops ingestion instead.)
pub proof fn lemma_step_writes_exactly(
    s: IngestState,
    e: TraceEvent,
    clock_id: u64,
    start_cycle: usize,
    window_length: usize,
)
    requires
        !s.done,
        !spec_step(s, e, clock_id, start_cycle, window_length).done,
    ensures
        spec_step(s, e, clock_id, start_cycle, window_length).vars == apply_changes(
            s.vars,
            seq![e],
        ),
{
    assert(seq![e].drop_last() =~= Seq::<TraceEvent>::empty());
    assert(seq![e].last() == e);
    assert(apply_changes(s.vars, Seq::<TraceEvent>::empty()) == s.vars);
}

/// Until the window stops ingestion, the working variable assignment is
/// exactly the fold of every change event seen so far over the initial
/// all-unknown assignment; with [`lemma_diff_set_exact`] this pins the
/// difference between any two committed snapshots to the change events
/// between their commits.
pub proof fn lemma_working_vars_are_folded_changes(
    events: Seq<TraceEvent>,
    ids: Seq<u64>,
    clock_id: u64,
    start_cycle: usize,
    window_length: usize,
)
    ensures
        !spec_ingest(events, ids, clock_id, start_cycle, window_length).done ==> spec_ingest(
            events,
            ids,
            clock_id,
            start_cycle,
            window_length,
        ).vars == apply_changes(unknown_vars_map(ids), events),
    decreases events.len(),
{
    if events.len() > 0 {
        lemma_working_vars_are_folded_changes(
            events.drop_last(),
            ids,
            clock_id,
            start_cycle,
            window_length,
        );
    }
}

/// Law, first half: no spurious diffs. A variable that receives no
/// change event between two commits holds the same value in both
/// snapshots.
pub proof fn lemma_untouched_var_unchanged(
    vars: Map<u64, ValueView>,
    events: Seq<TraceEvent>,
    id: u64,
)
    requires
        !changed_ids(events).contains(id),
    ensures
        apply_changes(vars, events).contains_key(id) == vars.contains_key(id),
        vars.contains_key(id) ==> apply_changes(vars, events)[id] == vars[id],
    decreases events.len(),
{
    if events.len() > 0 {
        lemma_untouched_var_unchanged(vars, events.drop_last(), id);
    }
}

/// Folding change events segment by segment is the same as folding them
/// all at once.
pub proof fn lemma_apply_changes_concat(
    m: Map<u64, ValueView>,
    a: Seq<TraceEvent>,
    b: Seq<TraceEvent>,
)
    ensures
        apply_changes(m, a + b) == apply_changes(apply_changes(m, a), b),
    decreases b.len(),
{
    if b.len() == 0 {
        assert(a + b =~= a);
    } else {
        lemma_apply_changes_concat(m, a, b.drop_last());
        assert((a + b).drop_last() =~= a + b.drop_last());
        assert((a + b).last() == b.last());
    }
}

/// The length of the shortest prefix of `events` whose fold has
/// committed more than `i` snapshots: the committing event of snapshot
/// `i` sits at position `commit_cut - 1`.
pub open spec fn commit_cut(
    events: Seq<TraceEvent>,
    ids: Seq<u64>,
    clock_id: u64,
    start_cycle: usize,
    window_length: usize,
    i: int,
) -> int
    decreases events.len(),
{
    if events.len() == 0 {
        0
    } else if spec_ingest(events.drop_last(), ids, clock_id, start_cycle, window_length).shots.len()
        > i {
        commit_cut(events.drop_last(), ids, clock_id, start_cycle, window_length, i)
    } else {
        events.len() as int
    }
}

proof fn lemma_commit_cut_bounds(
    events: Seq<TraceEvent>,
    ids: Seq<u64>,
    clock_id: u64,
    start_cycle: usize,
    window_length: usize,
    i: int,
)
    ensures
        0 <= commit_cut(events, ids, clock_id, start_cycle, window_length, i) <= events.len(),
        i >= 0 && i < spec_ingest(events, ids, clock_id, start_cycle, window_length).shots.len()
            ==> 1 <= commit_cut(events, ids, clock_id, start_cycle, window_length, i),
    decreases events.len(),
{
    if events.len() > 0 {
        lemma_commit_cut_bounds(events.drop_last(), ids, clock_id, start_cycle, window_length, i);
    }
}

proof fn lemma_commit_cut_monotone(
    events: Seq<TraceEvent>,
    ids: Seq<u64>,
    clock_id: u64,
    start_cycle: usize,
    window_length: usize,
    i: int,
)
    ensures
        commit_cut(events, ids, clock_id, start_cycle, window_length, i) <= commit_cut(
            events,
            ids,
            clock_id,
            start_cycle,
            window_length,
            i + 1,
        ),
    decreases events.len(),
{
    if events.len() > 0 {
        lemma_commit_cut_monotone(events.drop_last(), ids, clock_id, start_cycle, window_length, i);
        lemma_commit_cut_bounds(events.drop_last(), ids, clock_id, start_cycle, window_length, i);
    }
}

/// Law, the commit link: every snapshot the fold commits captures the
/// working assignment at its commit — the fold of every change event
/// strictly before the committing event over the initial all-unknown
/// assignment. (The committing event itself contributes nothing: a time
/// boundary writes no variable, and the window-exceeding edge is not
/// applied.)
pub proof fn lemma_snapshot_vars_at_cuts(
    events: Seq<TraceEvent>,
    ids: Seq<u64>,
    clock_id: u64,
    start_cycle: usize,
    window_length: usize,
)
    ensures
        ({
            let s = spec_ingest(events, ids, clock_id, start_cycle, window_length);
            forall|i: int|
                0 <= i < s.shots.len() ==> #[trigger] s.shots[i].vars == apply_changes(
                    unknown_vars_map(ids),
                    events.take(
                        commit_cut(events, ids, clock_id, start_cycle, window_length, i) - 1,
                    ),
                )
        }),
    decreases events.len(),
{
    let s = spec_ingest(events, ids, clock_id, start_cycle, window_length);
    if events.len() > 0 {
        let prefix = events.drop_last();
        let prev = spec_ingest(prefix, ids, clock_id, start_cycle, window_length);
        lemma_snapshot_vars_at_cuts(prefix, ids, clock_id, start_cycle, window_length);
        assert forall|i: int|
            0 <= i < s.shots.len() implies #[trigger] s.shots[i].vars == apply_changes(
            unknown_vars_map(ids),
            events.take(commit_cut(events, ids, clock_id, start_cycle, window_length, i) - 1),
        ) by {
            if i < prev.shots.len() {
                lemma_commit_cut_bounds(prefix, ids, clock_id, start_cycle, window_length, i);
                let c = commit_cut(prefix, ids, clock_id, start_cycle, window_length, i);
                assert(s.shots[i] == prev.shots[i]);
                assert(events.take(c - 1) =~= prefix.take(c - 1));
            } else {
                // the last event committed this snapshot; its assignment is
                // the working one, the fold of every prior change event
                assert(!prev.done);
                lemma_working_vars_are_folded_changes(
                    prefix,
                    ids,
                    clock_id,
                    start_cycle,
                    window_length,
                );
                assert(s.shots[i].vars == prev.vars);
                assert(events.take(events.len() - 1) =~= prefix);
            }
        }
    }
}

/// Law, consecutive pairs: each committed snapshot's assignment is the
/// fold of exactly the change events between its commit and the
/// previous one. Together with [`lemma_diff_set_exact`] this pins the
/// set of variables differing between consecutive snapshots to exactly
/// the set changed between their commits.
pub proof fn lemma_consecutive_snapshots(
    events: Seq<TraceEvent>,
    ids: Seq<u64>,
    clock_id: u64,
    start_cycle: usize,
    window_length: usize,
    i: int,
)
    requires
        0 <= i,
        i + 1 < spec_ingest(events, ids, clock_id, start_cycle, window_length).shots.len(),
    ensures
        ({
            let s = spec_ingest(events, ids, clock_id, start_cycle, window_length);
            let c0 = commit_cut(events, ids, clock_id, start_cycle, window_length, i);
            let c1 = commit_cut(events, ids, clock_id, start_cycle, window_length, i + 1);
            &&& 1 <= c0 <= c1 <= events.len()
            &&& s.shots[i + 1].vars == apply_changes(
                s.shots[i].vars,
                events.subrange(c0 - 1, c1 - 1),
            )
        }),
{
    let s = spec_ingest(events, ids, clock_id, start_cycle, window_length);
    let c0 = commit_cut(events, ids, clock_id, start_cycle, window_length, i);
    let c1 = commit_cut(events, ids, clock_id, start_cycle, window_length, i + 1);
    lemma_commit_cut_bounds(events, ids, clock_id, start_cycle, window_length, i);
    lemma_commit_cut_bounds(events, ids, clock_id, start_cycle, window_length, i + 1);
    lemma_commit_cut_monotone(events, ids, clock_id, start_cycle, window_length, i);
    lemma_snapshot_vars_at_cuts(events, ids, clock_id, start_cycle, window_length);
    assert(events.take(c1 - 1) =~= events.take(c0 - 1) + events.subrange(c0 - 1, c1 - 1));
    lemma_apply_changes_concat(
        unknown_vars_map(ids),
        events.take(c0 - 1),
        events.subrange(c0 - 1, c1 - 1),
    );
}

/// Whether each change event in `events` touches a distinct variable.
pub open spec fn writes_distinct(events: Seq<TraceEvent>) -> bool {
    forall|i: int, j: int|
        0 <= i < j < events.len() && #[trigger] event_write(events[i]) is Some
            && #[trigger] event_write(events[j]) is Some ==> event_write(
            events[i],
        ).unwrap().0 != event_write(events[j]).unwrap().0
}

/// Whether every change event in `events` writes a value other than the
/// one the variable holds in `vars` — the shape a well-formed trace has,
/// since its events record changes.
pub open spec fn writes_fresh(vars: Map<u64, ValueView>, events: Seq<TraceEvent>) -> bool {
    forall|i: int|
        0 <= i < events.len() && #[trigger] event_write(events[i]) is Some ==> {
            let (id, v) = event_write(events[i]).unwrap();
            !(vars.contains_key(id) && vars[id] == v)
        }
}

/// Law, both halves: no missed and no spurious diffs. When the change
/// events between two commits touch distinct variables and each writes a
/// value other than the one held — as the events of a well-formed trace
/// do — the set of variables differing between consecutive snapshots is
/// exactly the set that received a change event in between.
pub proof fn lemma_diff_set_exact(vars: Map<u64, ValueView>, events: Seq<TraceEvent>, id: u64)
    requires
        writes_distinct(events),
        writes_fresh(vars, events),
    ensures
        ({
            let after = apply_changes(vars, events);
            let differs = (after.contains_key(id) != vars.contains_key(id)) || (
            after.contains_key(id) && vars.contains_key(id) && after[id] != vars[id]);
            differs == changed_ids(events).contains(id)
        }),
    decreases events.len(),
{
    if events.len() > 0 {
        let prefix = events.drop_last();
        assert(writes_distinct(prefix)) by {
            assert(forall|i: int, j: int|
                0 <= i < j < prefix.len() ==> events[i] == #[trigger] prefix[i] && events[j]
                    == #[trigger] prefix[j]);
        }
        assert(writes_fresh(vars, prefix)) by {
            assert(forall|i: int| 0 <= i < prefix.len() ==> #[trigger] prefix[i] == events[i]);
        }
        lemma_diff_set_exact(vars, prefix, id);
        match event_write(events.last()) {
            Option::None => {},
            Option::Some((last_id, v)) => {
                if last_id == id {
                    // no earlier event touched `id`, so just before this
                    // write it still holds its starting value, and `v` differs
                    assert(!changed_ids(prefix).contains(id)) by {
                        lemma_changed_ids_are_written(prefix, id);
                    }
                    lemma_untouched_var_unchanged(vars, prefix, id);
                    assert(event_write(events[events.len() - 1]) is Some);
                }
            },
        }
    }
}

/// Every handle in `changed_ids(events)` is written by some event.
proof fn lemma_changed_ids_are_written(events: Seq<TraceEvent>, id: u64)
    ensures
        changed_ids(events).contains(id) ==> exists|i: int|
            0 <= i < events.len() && #[trigger] event_write(events[i]) is Some && event_write(
                events[i],
            ).unwrap().0 == id,
    decreases events.len(),
{
    if events.len() > 0 {
        lemma_changed_ids_are_written(events.drop_last(), id);
        if changed_ids(events).contains(id) {
            match event_write(events.last()) {
                Option::None => {
                    if changed_ids(events.drop_last()).contains(id) {
                        let i = choose|i: int|
                            0 <= i < events.drop_last().len() && #[trigger] event_write(
                                events.drop_last()[i],
                            ) is Some && event_write(events.drop_last()[i]).unwrap().0 == id;
                        assert(events[i] == events.drop_last()[i]);
                        assert(event_write(events[i]) is Some && event_write(events[i]).unwrap().0
                            == id);
                    }
                },
                Option::Some((last_id, _)) => {
                    if last_id == id {
                        assert(events[events.len() - 1] == events.last());
                        assert(event_write(events[events.len() - 1]) is Some && event_write(
                            events[events.len() - 1],
                        ).unwrap().0 == id);
                    } else if changed_ids(events.drop_last()).contains(id) {
                        let i = choose|i: int|
                            0 <= i < events.drop_last().len() && #[trigger] event_write(
                                events.drop_last()[i],
                            ) is Some && event_write(events.drop_last()[i]).unwrap().0 == id;
                        assert(events[i] == events.drop_last()[i]);
                        assert(event_write(events[i]) is Some && event_write(events[i]).unwrap().0
                            == id);
                    }
                },
            }
        }
    }
}

} // verus!
