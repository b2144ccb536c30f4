//! Trace ingestion: folds a chronological event stream into discrete,
//! clock-edge-aligned snapshots within a bounded cycle window.
//!
//! Snapshots share unchanged entries with their predecessor through a
//! persistent map, so a commit costs only the entries that changed.

use vstd::prelude::*;

use crate::sat_add_usize;
use crate::scope::{spec_find_scope, spec_find_var, spec_header_base, ScopeNode, ScopeTree};
use crate::strutil::split_on;
use crate::values::{copy_bits, vv_view, Bit, ValueView, VerilogValue};
use crate::search_engine::engine_hits;
use crate::var_index::{entry_views, spec_lookup, walk_tree, VarIndex};
use crate::varmap::{var_map_clone, var_map_contents, var_map_get, var_map_insert, var_map_new};

verus! {

/// How a variable differs between two snapshots.
pub enum DifferenceType {
    Addition,
    Clearance,
}

/// The fatal ways a load can fail once the event stream is in hand.
#[derive(Clone, Copy, Debug, PartialEq, Eq, Structural)]
pub enum ConstructionError {
    /// The stream held no events at all, so no snapshot could be built.
    EmptyEventStream,
    /// The header declares no top-level scope outside the reserved
    /// simulator-internal ones, so no base scope exists.
    MissingTopScope,
}

/// One event of the chronological stream handed over by the trace parser.
pub enum TraceEvent {
    /// Simulation time advances to the given instant.
    SetTime(u64),
    /// A scalar signal takes a new bit.
    ScalarChange(u64, Bit),
    /// A vector signal takes new bits, MSB first.
    VectorChange(u64, Vec<Bit>),
}

/// One committed snapshot: the complete signal state at one instant.
pub struct Snapshot {
    pub time: u64,
    pub clock_count: usize,
    pub variables: im::HashMap<u64, VerilogValue>,
}

/// The mathematical content of a snapshot.
#[verifier::ext_equal]
pub struct SnapModel {
    pub time: u64,
    pub clock_count: usize,
    pub vars: Map<u64, ValueView>,
}

impl Snapshot {
    /// The snapshot's abstraction: its instant, cycle count and variable
    /// assignment.
    pub open spec fn model(self) -> SnapModel {
        SnapModel {
            time: self.time,
            clock_count: self.clock_count,
            vars: var_map_contents(self.variables),
        }
    }

    /// The value of the variable with handle `id`, if the snapshot holds
    /// one.
    pub fn value_of<'a>(&'a self, id: u64) -> (r: Option<&'a VerilogValue>)
        ensures
            match r {
                Option::Some(v) => self.model().vars.contains_key(id) && self.model().vars[id]
                    == vv_view(*v),
                Option::None => !self.model().vars.contains_key(id),
            },
    {
        var_map_get(&self.variables, id)
    }
}

/// The full state of an ingestion in progress.
#[verifier::ext_equal]
pub struct IngestState {
    /// The working snapshot's instant.
    pub time: u64,
    /// The working snapshot's cycle count.
    pub clock_count: usize,
    /// The working snapshot's variable assignment.
    pub vars: Map<u64, ValueView>,
    /// The snapshots committed so far, in order.
    pub shots: Seq<SnapModel>,
    /// Whether the cycle window has been exceeded and ingestion stopped.
    pub done: bool,
}

impl IngestState {
    /// The working snapshot as it would be committed now.
    pub open spec fn working(self) -> SnapModel {
        SnapModel { time: self.time, clock_count: self.clock_count, vars: self.vars }
    }
}

/// The highest cycle count ingestion materializes: `start_cycle +
/// window_length`, saturating.
pub open spec fn cycle_limit(start_cycle: usize, window_length: usize) -> int {
    if start_cycle + window_length <= usize::MAX {
        start_cycle + window_length
    } else {
        usize::MAX as int
    }
}

/// How one event transforms the ingestion state.
///
/// A time boundary first commits the working snapshot — capturing state as
/// of just before time advances — provided time has started moving and the
/// requested start cycle has been reached. A rising clock edge advances
/// the cycle count; an edge that would leave the window instead commits
/// the working snapshot as it stands and stops ingestion, so the committed
/// history never goes past the window. Any other change updates the
/// working variable assignment in place. After ingestion has stopped,
/// events change nothing.
pub open spec fn spec_step(
    s: IngestState,
    e: TraceEvent,
    clock_id: u64,
    start_cycle: usize,
    window_length: usize,
) -> IngestState {
    if s.done {
        s
    } else {
        match e {
            TraceEvent::SetTime(t) => IngestState {
                time: t,
                shots: if s.time != 0 && s.clock_count >= start_cycle {
                    s.shots.push(s.working())
                } else {
                    s.shots
                },
                ..s
            },
            TraceEvent::ScalarChange(id, b) => if id == clock_id && b == Bit::V1 {
                if s.clock_count >= cycle_limit(start_cycle, window_length) {
                    IngestState { shots: s.shots.push(s.working()), done: true, ..s }
                } else {
                    IngestState {
                        clock_count: (s.clock_count + 1) as usize,
                        vars: s.vars.insert(id, ValueView::Scalar(b)),
                        ..s
                    }
                }
            } else {
                IngestState { vars: s.vars.insert(id, ValueView::Scalar(b)), ..s }
            },
            TraceEvent::VectorChange(id, bits) => IngestState {
                vars: s.vars.insert(id, ValueView::Vector(bits@)),
                ..s
            },
        }
    }
}

/// The assignment giving every listed variable the unknown scalar.
pub open spec fn unknown_vars_map(ids: Seq<u64>) -> Map<u64, ValueView>
    decreases ids.len(),
{
    if ids.len() == 0 {
        Map::empty()
    } else {
        unknown_vars_map(ids.drop_last()).insert(ids.last(), ValueView::Scalar(Bit::X))
    }
}

/// The state before any event: time and cycle zero, every known variable
/// unknown, nothing committed.
pub open spec fn init_state(ids: Seq<u64>) -> IngestState {
    IngestState {
        time: 0,
        clock_count: 0,
        vars: unknown_vars_map(ids),
        shots: Seq::empty(),
        done: false,
    }
}

/// The state after folding a whole event stream, left to right.
pub open spec fn spec_ingest(
    events: Seq<TraceEvent>,
    ids: Seq<u64>,
    clock_id: u64,
    start_cycle: usize,
    window_length: usize,
) -> IngestState
    decreases events.len(),
{
    if events.len() == 0 {
        init_state(ids)
    } else {
        spec_step(
            spec_ingest(events.drop_last(), ids, clock_id, start_cycle, window_length),
            events.last(),
            clock_id,
            start_cycle,
            window_length,
        )
    }
}

/// The end-of-stream rule: a stream that ends inside the window still
/// commits whatever was accumulated; one stopped by the window commits
/// nothing further.
pub open spec fn spec_finish(s: IngestState) -> IngestState {
    if s.done {
        s
    } else {
        IngestState { shots: s.shots.push(s.working()), ..s }
    }
}

/// The snapshots a whole load produces.
pub open spec fn spec_ingest_result(
    events: Seq<TraceEvent>,
    ids: Seq<u64>,
    clock_id: u64,
    start_cycle: usize,
    window_length: usize,
) -> Seq<SnapModel> {
    spec_finish(spec_ingest(events, ids, clock_id, start_cycle, window_length)).shots
}

/// The ingestion engine: one mutable working snapshot, mutated in place;
/// commits are structurally shared clones pushed onto the history.
pub struct Ingestor {
    pub working_time: u64,
    pub working_count: usize,
    pub working_vars: im::HashMap<u64, VerilogValue>,
    pub shots: Vec<Snapshot>,
    pub clock_id: u64,
    pub start_cycle: usize,
    pub window_length: usize,
    pub done: bool,
}

impl Ingestor {
    /// The engine's abstraction as an ingestion state.
    pub open spec fn state(self) -> IngestState {
        IngestState {
            time: self.working_time,
            clock_count: self.working_count,
            vars: var_map_contents(self.working_vars),
            shots: self.shots@.map_values(|s: Snapshot| s.model()),
            done: self.done,
        }
    }

    /// Starts an ingestion: every variable in `var_ids` begins unknown.
    pub fn new(var_ids: &Vec<u64>, clock_id: u64, start_cycle: usize, window_length: usize) -> (r:
        Ingestor)
        ensures
            r.state() == init_state(var_ids@),
            r.clock_id == clock_id,
            r.start_cycle == start_cycle,
            r.window_length == window_length,
    {
        let mut vars = var_map_new();
        proof {
            assert(var_map_contents(vars) =~= Map::<u64, ValueView>::empty());
            assert(var_ids@.take(0) =~= Seq::<u64>::empty());
        }
        let mut i: usize = 0;
        while i < var_ids.len()
            invariant
                i <= var_ids@.len(),
                var_map_contents(vars) == unknown_vars_map(var_ids@.take(i as int)),
            decreases var_ids.len() - i,
        {
            var_map_insert(&mut vars, var_ids[i], VerilogValue::Scalar(Bit::X));
            proof {
                assert(var_ids@.take(i + 1).drop_last() =~= var_ids@.take(i as int));
                assert(var_ids@.take(i + 1).last() == var_ids@[i as int]);
            }
            i = i + 1;
        }
        proof {
            assert(var_ids@.take(var_ids@.len() as int) =~= var_ids@);
        }
        let r = Ingestor {
            working_time: 0,
            working_count: 0,
            working_vars: vars,
            shots: Vec::new(),
            clock_id,
            start_cycle,
            window_length,
            done: false,
        };
        proof {
            assert(r.state() =~~= init_state(var_ids@));
        }
        r
    }

    /// Whether the cycle window has been exceeded and ingestion stopped.
    pub fn is_done(&self) -> (r: bool)
        ensures
            r == self.done,
    {
        self.done
    }

    /// Commits the working snapshot: a structurally shared clone joins the
    /// history.
    fn commit(&mut self)
        ensures
            final(self).state() == (IngestState {
                shots: old(self).state().shots.push(old(self).state().working()),
                ..old(self).state()
            }),
            final(self).clock_id == old(self).clock_id,
            final(self).start_cycle == old(self).start_cycle,
            final(self).window_length == old(self).window_length,
    {
        let snap = Snapshot {
            time: self.working_time,
            clock_count: self.working_count,
            variables: var_map_clone(&self.working_vars),
        };
        let ghost old_shots = self.shots@;
        self.shots.push(snap);
        proof {
            assert(self.shots@.map_values(|s: Snapshot| s.model()) =~= old_shots.map_values(
                |s: Snapshot| s.model(),
            ).push(snap.model()));
            assert(self.state() =~~= (IngestState {
                shots: old(self).state().shots.push(old(self).state().working()),
                ..old(self).state()
            }));
        }
    }

    /// Applies one event to the working state, exactly as [`spec_step`]
    /// describes.
    pub fn step(&mut self, e: &TraceEvent)
        ensures
            final(self).state() == spec_step(
                old(self).state(),
                *e,
                old(self).clock_id,
                old(self).start_cycle,
                old(self).window_length,
            ),
            final(self).clock_id == old(self).clock_id,
            final(self).start_cycle == old(self).start_cycle,
            final(self).window_length == old(self).window_length,
    {
        if self.done {
            return;
        }
        match e {
            TraceEvent::SetTime(t) => {
                if self.working_time != 0 && self.working_count >= self.start_cycle {
                    self.commit();
                }
                self.working_time = *t;
                proof {
                    assert(self.state() =~~= spec_step(
                        old(self).state(),
                        *e,
                        old(self).clock_id,
                        old(self).start_cycle,
                        old(self).window_length,
                    ));
                }
            },
            TraceEvent::ScalarChange(id, b) => {
                if *id == self.clock_id && matches!(b, Bit::V1) {
                    let limit = sat_add_usize(self.start_cycle, self.window_length);
                    if self.working_count >= limit {
                        self.commit();
                        self.done = true;
                    } else {
                        self.working_count = self.working_count + 1;
                        var_map_insert(&mut self.working_vars, *id, VerilogValue::Scalar(*b));
                    }
                } else {
                    var_map_insert(&mut self.working_vars, *id, VerilogValue::Scalar(*b));
                }
                proof {
                    assert(self.state() =~~= spec_step(
                        old(self).state(),
                        *e,
                        old(self).clock_id,
                        old(self).start_cycle,
                        old(self).window_length,
                    ));
                }
            },
            TraceEvent::VectorChange(id, bits) => {
                var_map_insert(&mut self.working_vars, *id, VerilogValue::Vector(copy_bits(bits)));
                proof {
                    assert(self.state() =~~= spec_step(
                        old(self).state(),
                        *e,
                        old(self).clock_id,
                        old(self).start_cycle,
                        old(self).window_length,
                    ));
                }
            },
        }
    }

    /// Ends the stream: commits the working snapshot unless the window
    /// already stopped ingestion.
    pub fn finish(&mut self)
        ensures
            final(self).state() == spec_finish(old(self).state()),
    {
        if !self.done {
            self.commit();
            proof {
                assert(self.state() =~~= spec_finish(old(self).state()));
            }
        }
    }
}

/// Every state the fold reaches with `done` set has committed at least
/// one snapshot: the one the window commit pushed.
proof fn lemma_done_has_shots(
    events: Seq<TraceEvent>,
    ids: Seq<u64>,
    clock_id: u64,
    start_cycle: usize,
    window_length: usize,
)
    ensures
        spec_ingest(events, ids, clock_id, start_cycle, window_length).done ==> spec_ingest(
            events,
            ids,
            clock_id,
            start_cycle,
            window_length,
        ).shots.len() >= 1,
    decreases events.len(),
{
    if events.len() > 0 {
        lemma_done_has_shots(events.drop_last(), ids, clock_id, start_cycle, window_length);
    }
}

/// Folds a complete event stream into the snapshot history.
///
/// Fails exactly on an empty stream; any non-empty stream yields at least
/// one snapshot, and the history is precisely what [`spec_ingest_result`]
/// says.
pub fn ingest(
    events: &Vec<TraceEvent>,
    var_ids: &Vec<u64>,
    clock_id: u64,
    start_cycle: usize,
    window_length: usize,
) -> (r: Result<Vec<Snapshot>, ConstructionError>)
    ensures
        r is Err <==> events@.len() == 0,
        r matches Result::Err(e) ==> e == ConstructionError::EmptyEventStream,
        r matches Result::Ok(shots) ==> shots@.map_values(|s: Snapshot| s.model())
            == spec_ingest_result(events@, var_ids@, clock_id, start_cycle, window_length)
            && shots@.len() >= 1,
{
    if events.len() == 0 {
        return Result::Err(ConstructionError::EmptyEventStream);
    }
    let mut ing = Ingestor::new(var_ids, clock_id, start_cycle, window_length);
    proof {
        assert(events@.take(0) =~= Seq::<TraceEvent>::empty());
    }
    let mut i: usize = 0;
    while i < events.len()
        invariant
            i <= events@.len(),
            ing.state() == spec_ingest(
                events@.take(i as int),
                var_ids@,
                clock_id,
                start_cycle,
                window_length,
            ),
            ing.clock_id == clock_id,
            ing.start_cycle == start_cycle,
            ing.window_length == window_length,
        decreases events.len() - i,
    {
        ing.step(&events[i]);
        proof {
            assert(events@.take(i + 1).drop_last() =~= events@.take(i as int));
            assert(events@.take(i + 1).last() == events@[i as int]);
        }
        i = i + 1;
    }
    proof {
        assert(events@.take(events@.len() as int) =~= events@);
    }
    ing.finish();
    proof {
        lemma_done_has_shots(events@, var_ids@, clock_id, start_cycle, window_length);
    }
    Result::Ok(ing.shots)
}

/// The handles of the registered entries, in registration order.
pub open spec fn entry_ids(entries: Seq<(Seq<char>, u64)>) -> Seq<u64> {
    entries.map_values(|e: (Seq<char>, u64)| e.1)
}

/// The handle ingestion watches for rising edges: the variable literally
/// named `clock` directly inside the base scope, or a sentinel no event
/// carries, so that a clockless trace collapses to a single cycle.
pub open spec fn spec_clock_id(tree: ScopeTree) -> u64 {
    match spec_header_base(tree.scopes@) {
        Option::Some(base) => match spec_find_var(tree.scopes@, seq![base, "clock"@]) {
            Option::Some(v) => v.id,
            Option::None => u64::MAX,
        },
        Option::None => u64::MAX,
    }
}

/// One loaded trace: the immutable snapshot history, the variable index
/// and scope tree it was built from, and the cursor into the history.
pub struct Snapshots {
    shots: Vec<Snapshot>,
    var_index: VarIndex,
    /// The scope tree of the trace header.
    pub header: ScopeTree,
    index: usize,
}

impl Snapshots {
    /// The committed history, in order.
    pub closed spec fn shots_model(self) -> Seq<SnapModel> {
        self.shots@.map_values(|s: Snapshot| s.model())
    }

    /// The cursor's position in the history.
    pub closed spec fn cursor(self) -> int {
        self.index as int
    }

    /// The scope tree the session was built from.
    pub closed spec fn header_model(self) -> ScopeTree {
        self.header
    }

    /// The registered path-to-handle entries.
    pub closed spec fn paths(self) -> Seq<(Seq<char>, u64)> {
        entry_views(self.var_index.entries@)
    }

    /// The approximate-search index the session queries.
    pub closed spec fn engine_model(self) -> simsearch::Index<u64> {
        self.var_index.engine
    }

    /// A session is well formed when the history is non-empty, the cursor
    /// is inside it, the search index covers the entries, and the header
    /// has a base scope.
    pub closed spec fn wf(self) -> bool {
        &&& self.index < self.shots@.len()
        &&& self.var_index.wf()
        &&& spec_header_base(self.header.scopes@) is Some
    }

    /// Loads one trace: builds the variable index from the header, picks
    /// the clock, folds the event stream, and parks the cursor on the
    /// last snapshot.
    ///
    /// Fails exactly when the header has no base scope or the stream has
    /// no events; a successful load's history is precisely what
    /// [`spec_ingest_result`] says.
    pub fn new(
        header: ScopeTree,
        events: &Vec<TraceEvent>,
        start_clock: usize,
        debugging_length: usize,
    ) -> (r: Result<Snapshots, ConstructionError>)
        ensures
            r matches Result::Err(ConstructionError::MissingTopScope) <==> spec_header_base(
                header.scopes@,
            ) is None,
            r matches Result::Err(ConstructionError::EmptyEventStream) <==> (spec_header_base(
                header.scopes@,
            ) is Some && events@.len() == 0),
            r matches Result::Ok(s) ==> s.wf() && s.header_model() == header && s.paths() == walk_tree(
                header.scopes@,
                header.scopes@.len() as int,
            ) && s.shots_model() == spec_ingest_result(
                events@,
                entry_ids(s.paths()),
                spec_clock_id(header),
                start_clock,
                debugging_length,
            ) && s.cursor() == s.shots_model().len() - 1,
    {
        let base = match header.header_base() {
            Option::Some(b) => b,
            Option::None => {
                return Result::Err(ConstructionError::MissingTopScope);
            },
        };
        let clock_id: u64 = {
            let mut clock_path: Vec<String> = Vec::new();
            clock_path.push(base);
            clock_path.push("clock".to_owned());
            proof {
                reveal_strlit("clock");
                assert(crate::scope::path_views(clock_path@) =~= seq![
                    spec_header_base(header.scopes@).unwrap(),
                    "clock"@,
                ]);
            }
            match header.find_var(&clock_path) {
                Option::Some(v) => v.id,
                Option::None => u64::MAX,
            }
        };
        let var_index = VarIndex::from_header(&header);
        let mut ids: Vec<u64> = Vec::new();
        let mut i: usize = 0;
        while i < var_index.entries.len()
            invariant
                i <= var_index.entries@.len(),
                ids@ == entry_ids(entry_views(var_index.entries@).take(i as int)),
            decreases var_index.entries.len() - i,
        {
            ids.push(var_index.entries[i].1);
            proof {
                assert(ids@ =~= entry_ids(entry_views(var_index.entries@).take(i + 1)));
            }
            i = i + 1;
        }
        proof {
            assert(entry_views(var_index.entries@).take(var_index.entries@.len() as int)
                =~= entry_views(var_index.entries@));
        }
        let shots = match ingest(events, &ids, clock_id, start_clock, debugging_length) {
            Result::Ok(shots) => shots,
            Result::Err(e) => {
                return Result::Err(e);
            },
        };
        let index = shots.len() - 1;
        Result::Ok(Snapshots { shots, var_index, header, index })
    }

    /// Wraps an already-folded history into a navigable session: builds
    /// the variable index from the header and parks the cursor on the
    /// last snapshot. This is the streaming entry: a caller drives an
    /// [`Ingestor`] event by event — stopping as soon as the window is
    /// exceeded, so a bounded window bounds load work — and hands over
    /// what it committed.
    pub fn from_ingested(header: ScopeTree, shots: Vec<Snapshot>) -> (r: Result<
        Snapshots,
        ConstructionError,
    >)
        ensures
            r matches Result::Err(ConstructionError::MissingTopScope) <==> spec_header_base(
                header.scopes@,
            ) is None,
            r matches Result::Err(ConstructionError::EmptyEventStream) <==> (spec_header_base(
                header.scopes@,
            ) is Some && shots@.len() == 0),
            r matches Result::Ok(s) ==> shots@.len() > 0 && s.wf() && s.header_model() == header
                && s.paths() == walk_tree(header.scopes@, header.scopes@.len() as int)
                && s.shots_model() == shots@.map_values(|sh: Snapshot| sh.model()) && s.cursor()
                == s.shots_model().len() - 1,
    {
        if header.header_base().is_none() {
            return Result::Err(ConstructionError::MissingTopScope);
        }
        if shots.len() == 0 {
            return Result::Err(ConstructionError::EmptyEventStream);
        }
        let var_index = VarIndex::from_header(&header);
        let index = shots.len() - 1;
        Result::Ok(Snapshots { shots, var_index, header, index })
    }

    /// The scope tree the session was built from.
    pub fn header_ref(&self) -> (r: &ScopeTree)
        ensures
            *r == self.header_model(),
    {
        &self.header
    }

    /// The snapshot under the cursor; absent only if the history is
    /// empty, which a successful construction rules out.
    pub fn get(&self) -> (r: Option<&Snapshot>)
        ensures
            match r {
                Option::Some(s) => self.cursor() < self.shots_model().len() && s.model()
                    == self.shots_model()[self.cursor()],
                Option::None => self.cursor() >= self.shots_model().len(),
            },
    {
        if self.index < self.shots.len() {
            Option::Some(&self.shots[self.index])
        } else {
            Option::None
        }
    }

    /// Steps the cursor forward one snapshot; reports whether it moved.
    /// Saturates at the end: no wraparound, no failure.
    pub fn advance(&mut self) -> (moved: bool)
        requires
            old(self).wf(),
        ensures
            final(self).wf(),
            final(self).unchanged_but_cursor(*old(self)),
            moved == (old(self).cursor() < old(self).shots_model().len() - 1),
            final(self).cursor() == if moved {
                old(self).cursor() + 1
            } else {
                old(self).cursor()
            },
    {
        if self.index < self.shots.len() - 1 {
            self.index = self.index + 1;
            return true;
        }
        false
    }

    /// Steps the cursor backward one snapshot; reports whether it moved.
    /// Saturates at the start.
    pub fn retreat(&mut self) -> (moved: bool)
        requires
            old(self).wf(),
        ensures
            final(self).wf(),
            final(self).unchanged_but_cursor(*old(self)),
            moved == (old(self).cursor() > 0),
            final(self).cursor() == if moved {
                old(self).cursor() - 1
            } else {
                old(self).cursor()
            },
    {
        if self.index > 0 {
            self.index = self.index - 1;
            return true;
        }
        false
    }

    /// Everything except the cursor is as it was.
    pub closed spec fn unchanged_but_cursor(self, other: Snapshots) -> bool {
        &&& self.shots == other.shots
        &&& self.var_index == other.var_index
        &&& self.header == other.header
    }

    /// Steps forward up to `n` snapshots, keeping any partial movement
    /// made before the end of the history; reports whether the full
    /// distance was covered.
    pub fn advance_n(&mut self, n: usize) -> (full: bool)
        requires
            old(self).wf(),
        ensures
            final(self).wf(),
            final(self).unchanged_but_cursor(*old(self)),
            full == (old(self).cursor() + n <= old(self).shots_model().len() - 1),
            final(self).cursor() == advance_n_model(
                old(self).cursor(),
                old(self).shots_model().len() as int,
                n as int,
            ),
    {
        let mut k: usize = 0;
        while k < n
            invariant
                old(self).wf(),
                self.wf(),
                self.unchanged_but_cursor(*old(self)),
                k <= n,
                self.cursor() == old(self).cursor() + k,
            decreases n - k,
        {
            let moved = self.advance();
            if !moved {
                return false;
            }
            k = k + 1;
        }
        true
    }

    /// Steps backward up to `n` snapshots, keeping any partial movement
    /// made before the start; reports whether the full distance was
    /// covered.
    pub fn retreat_n(&mut self, n: usize) -> (full: bool)
        requires
            old(self).wf(),
        ensures
            final(self).wf(),
            final(self).unchanged_but_cursor(*old(self)),
            full == (n <= old(self).cursor()),
            final(self).cursor() == retreat_n_model(old(self).cursor(), n as int),
    {
        let mut k: usize = 0;
        while k < n
            invariant
                old(self).wf(),
                self.wf(),
                self.unchanged_but_cursor(*old(self)),
                k <= n,
                self.cursor() == old(self).cursor() - k,
                k <= old(self).cursor() || k == 0,
            decreases n - k,
        {
            let moved = self.retreat();
            if !moved {
                return false;
            }
            k = k + 1;
        }
        true
    }

    /// Parks the cursor on the first snapshot, from any prior position.
    pub fn go_to_start(&mut self)
        requires
            old(self).wf(),
        ensures
            final(self).wf(),
            final(self).unchanged_but_cursor(*old(self)),
            final(self).cursor() == 0,
    {
        self.index = 0;
    }

    /// Parks the cursor on the last snapshot, from any prior position.
    pub fn go_to_end(&mut self)
        requires
            old(self).wf(),
        ensures
            final(self).wf(),
            final(self).unchanged_but_cursor(*old(self)),
            final(self).cursor() == final(self).shots_model().len() - 1,
    {
        self.index = self.shots.len() - 1;
    }

    /// The base scope name all dotted paths hang from.
    pub fn get_base(&self) -> (r: String)
        requires
            self.wf(),
        ensures
            Option::Some(r@) == spec_header_base(self.header_model().scopes@),
    {
        match self.header.header_base() {
            Option::Some(b) => b,
            Option::None => {
                proof {
                    assert(false);
                }
                String::new()
            },
        }
    }

    /// The value of the variable at `var_name` in the snapshot under the
    /// cursor: a miss if the path is not registered, never an error.
    pub fn get_var<'a>(&'a self, var_name: &str) -> (r: Option<&'a VerilogValue>)
        requires
            self.wf(),
        ensures
            match spec_lookup(self.paths(), var_name@) {
                Option::None => r is None,
                Option::Some(id) => match r {
                    Option::Some(v) => self.shots_model()[self.cursor()].vars.contains_key(id)
                        && self.shots_model()[self.cursor()].vars[id] == vv_view(*v),
                    Option::None => !self.shots_model()[self.cursor()].vars.contains_key(id),
                },
            },
    {
        let code = match self.var_index.get(var_name) {
            Option::Some(c) => c,
            Option::None => {
                return Option::None;
            },
        };
        self.shots[self.index].value_of(code)
    }

    /// The scope at a dotted path, if the header declares one there.
    pub fn get_scope<'a>(&'a self, scope_name: &str) -> (r: Option<&'a ScopeNode>)
        ensures
            match r {
                Option::Some(s) => spec_find_scope(
                    self.header_model().scopes@,
                    split_on(scope_name@, '.'),
                ) == Option::Some(*s),
                Option::None => spec_find_scope(
                    self.header_model().scopes@,
                    split_on(scope_name@, '.'),
                ) is None,
            },
    {
        self.header.find_scope_dotted(scope_name)
    }

    /// Renders the operation-info line of the operation scope at `base`.
    pub fn render_opinfo(&self, base: &str) -> (r: String)
        requires
            self.wf(),
            crate::inst::usize_var_at(*self, crate::structures::probe::dotted(base@, "PC"@)) is Some,
            crate::inst::usize_var_at(
                *self,
                crate::structures::probe::dotted(base@, "inst.inst"@),
            ) is Some,
        ensures
            r@ == crate::inst::spec_opinfo(
                crate::inst::usize_var_at(
                    *self,
                    crate::structures::probe::dotted(base@, "PC"@),
                ).unwrap(),
                (crate::inst::usize_var_at(
                    *self,
                    crate::structures::probe::dotted(base@, "inst.inst"@),
                ).unwrap() % 0x100000000) as u32,
            ),
    {
        crate::inst::parse_opinfo(base, self)
    }

    /// Ranked approximate completion of a partial path: exactly the
    /// engine's hits for the query, each mapped to its registered path,
    /// in the engine's order — repeated calls on one session agree.
    pub fn autocomplete_var(&self, var_name: &str) -> (r: Vec<String>)
        requires
            self.wf(),
        ensures
            ({
                let hits = engine_hits(self.engine_model(), var_name@);
                &&& r@.len() == hits.len()
                &&& forall|i: int|
                    0 <= i < r@.len() ==> (#[trigger] hits[i] as int) < self.paths().len()
                        && r@[i]@ == self.paths()[hits[i] as int].0
            }),
    {
        self.var_index.search(var_name)
    }
}

/// Where stepping forward up to `n` snapshots parks the cursor: `n`
/// further, or on the last snapshot when fewer remained.
pub open spec fn advance_n_model(cursor: int, len: int, n: int) -> int {
    if cursor + n <= len - 1 {
        cursor + n
    } else {
        len - 1
    }
}

/// Where stepping backward up to `n` snapshots parks the cursor: `n`
/// back, or on the first snapshot when fewer remained.
pub open spec fn retreat_n_model(cursor: int, n: int) -> int {
    if n <= cursor {
        cursor - n
    } else {
        0
    }
}

} // verus!
