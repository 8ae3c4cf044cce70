//! The sampling cycle: what one tick of the sampler does, as a function from
//! the cycle's state and an event to the next state and an action.
//!
//! A cycle waits for the cadence signal, asks whether the sampler is
//! enabled, reads the counter tables where an instrumentation program is
//! attached, resolves every configured statistic and hands out one
//! observation after the other. It always ends idle.

use vstd::prelude::*;
use crate::stat::{resolution, DescriptorView};
use crate::table::{count_or_zero, entries_map, CounterEntry};

verus! {

/// Where a cycle stands.
#[derive(Clone, Copy, Debug, PartialEq, Eq, Structural)]
pub enum Phase {
    Idle,
    WaitingForTick,
    CheckingEnabled,
    ReadingCounters,
    Emitting,
}

/// Why a tick ended early.
#[derive(Clone, Copy, Debug, PartialEq, Eq, Structural)]
pub enum TickError {
    /// The table at this position of the target's list could not be read.
    TableRead { index: usize },
    /// The observation at this position of the statistics could not be
    /// recorded.
    Emit { index: usize },
}

/// One counter observation: the identity of the statistic, the instant at
/// which the tick was captured, and the count.
#[derive(Clone, Copy, Debug, PartialEq, Eq, Structural)]
pub struct Observation {
    pub identity: u64,
    pub captured_at: u64,
    pub value: u64,
}

/// What the caller reports back.
#[derive(Debug)]
pub enum CycleEvent {
    /// The sampler was polled.
    Begin,
    /// The cadence signal fired at this instant.
    Tick { captured_at: u64 },
    /// The sampler is enabled, or is not.
    Enablement(bool),
    /// The entries of the table last asked for, or nothing where the read
    /// failed.
    TableRead(Option<Vec<CounterEntry>>),
    /// The observation last handed out was recorded, or could not be.
    Recorded(bool),
}

/// What the caller does next.
#[derive(Clone, Copy, Debug, PartialEq, Eq, Structural)]
pub enum CycleAction {
    /// Wait for the cadence signal.
    AwaitTick,
    /// Read the enablement flag.
    CheckEnabled,
    /// Read the table of the probe at this position of the target's list.
    ReadTable { index: usize },
    /// Record this observation.
    Record(Observation),
    /// The tick is over: every observation was recorded, or none was due.
    Finished,
    /// The tick is over: it was given up for this reason.
    Failed(TickError),
    /// The event does not belong to the current phase; nothing changed.
    Rejected,
}

/// What a sampler is configured with, as far as a cycle depends on it.
pub struct SamplerModel {
    /// Whether an instrumentation program is attached.
    pub has_handle: bool,
    /// The names of the counter tables to read on each tick, in order.
    pub table_names: Seq<Seq<char>>,
    /// The statistics to publish on each tick, in order.
    pub stats: Seq<DescriptorView>,
}

/// A cycle as a mathematical value.
pub struct CycleState {
    pub phase: Phase,
    /// The instant of the last tick.
    pub captured_at: u64,
    /// The position of the table being read or of the observation being
    /// recorded.
    pub cursor: nat,
    /// The tables read so far on this tick.
    pub gathered: Map<Seq<char>, Map<Seq<char>, u64>>,
    /// The observations of this tick.
    pub pending: Seq<Observation>,
}

/// The observations that a snapshot gives for a list of statistics: one for
/// each, in order, with the resolved count.
pub open spec fn observations(
    snapshot: Map<Seq<char>, Map<Seq<char>, u64>>,
    stats: Seq<DescriptorView>,
    captured_at: u64,
) -> Seq<Observation> {
    Seq::new(
        stats.len(),
        |i: int|
            Observation {
                identity: resolution(snapshot, stats)[i].0.external_identity,
                captured_at,
                value: resolution(snapshot, stats)[i].1,
            },
    )
}

/// The idle state after a tick captured at `captured_at`.
pub open spec fn idle(captured_at: u64) -> CycleState {
    CycleState {
        phase: Phase::Idle,
        captured_at,
        cursor: 0,
        gathered: Map::empty(),
        pending: Seq::empty(),
    }
}

/// The state and action with which the emission of a tick starts, given the
/// tables that were read.
pub open spec fn start_emitting(
    model: SamplerModel,
    captured_at: u64,
    snapshot: Map<Seq<char>, Map<Seq<char>, u64>>,
) -> (CycleState, CycleAction) {
    let pending = observations(snapshot, model.stats, captured_at);
    if pending.len() == 0 {
        (idle(captured_at), CycleAction::Finished)
    } else {
        (
            CycleState {
                phase: Phase::Emitting,
                captured_at,
                cursor: 0,
                gathered: Map::empty(),
                pending,
            },
            CycleAction::Record(pending[0]),
        )
    }
}

/// The state and action that follow `event` in `state`.
pub open spec fn cycle_next(model: SamplerModel, state: CycleState, event: CycleEvent) -> (
    CycleState,
    CycleAction,
) {
    match (state.phase, event) {
        (Phase::Idle, CycleEvent::Begin) => (
            CycleState { phase: Phase::WaitingForTick, ..state },
            CycleAction::AwaitTick,
        ),
        (Phase::WaitingForTick, CycleEvent::Tick { captured_at }) => (
            CycleState { phase: Phase::CheckingEnabled, captured_at, ..state },
            CycleAction::CheckEnabled,
        ),
        (Phase::CheckingEnabled, CycleEvent::Enablement(false)) => (
            idle(state.captured_at),
            CycleAction::Finished,
        ),
        (Phase::CheckingEnabled, CycleEvent::Enablement(true)) => if !model.has_handle
            || model.table_names.len() == 0 {
            start_emitting(model, state.captured_at, Map::empty())
        } else {
            (
                CycleState { phase: Phase::ReadingCounters, ..state },
                CycleAction::ReadTable { index: 0 },
            )
        },
        (Phase::ReadingCounters, CycleEvent::TableRead(None)) => (
            idle(state.captured_at),
            CycleAction::Failed(TickError::TableRead { index: state.cursor as usize }),
        ),
        (Phase::ReadingCounters, CycleEvent::TableRead(Some(entries))) => {
            let gathered = state.gathered.insert(
                model.table_names[state.cursor as int],
                entries_map(entries@),
            );
            if state.cursor + 1 < model.table_names.len() {
                (
                    CycleState { cursor: state.cursor + 1, gathered, ..state },
                    CycleAction::ReadTable { index: (state.cursor + 1) as usize },
                )
            } else {
                start_emitting(model, state.captured_at, gathered)
            }
        },
        (Phase::Emitting, CycleEvent::Recorded(false)) => (
            idle(state.captured_at),
            CycleAction::Failed(TickError::Emit { index: state.cursor as usize }),
        ),
        (Phase::Emitting, CycleEvent::Recorded(true)) => if state.cursor + 1
            < state.pending.len() {
            (
                CycleState { cursor: state.cursor + 1, ..state },
                CycleAction::Record(state.pending[state.cursor + 1 as int]),
            )
        } else {
            (idle(state.captured_at), CycleAction::Finished)
        },
        _ => (state, CycleAction::Rejected),
    }
}

/// What holds of every cycle a caller can have: outside the reading and
/// emitting phases nothing of a tick is kept; tables are read only where a
/// program is attached, and the cursor stands on one of them; while
/// emitting, the cursor stands on an observation.
pub open spec fn cycle_valid(model: SamplerModel, state: CycleState) -> bool {
    &&& state.phase != Phase::ReadingCounters ==> state.gathered == Map::<
        Seq<char>,
        Map<Seq<char>, u64>,
    >::empty()
    &&& state.phase != Phase::Emitting ==> state.pending == Seq::<Observation>::empty()
    &&& state.phase != Phase::ReadingCounters && state.phase != Phase::Emitting ==> state.cursor
        == 0
    &&& state.phase == Phase::ReadingCounters ==> model.has_handle && state.cursor
        < model.table_names.len()
    &&& state.phase == Phase::Emitting ==> state.cursor < state.pending.len()
}

/// The state that the events of `events` lead to, one after the other, and
/// the actions asked for on the way.
pub open spec fn cycle_run(model: SamplerModel, state: CycleState, events: Seq<CycleEvent>) -> (
    CycleState,
    Seq<CycleAction>,
)
    decreases events.len(),
{
    if events.len() == 0 {
        (state, Seq::empty())
    } else {
        let (reached, actions) = cycle_run(model, state, events.drop_last());
        let (next, action) = cycle_next(model, reached, events.last());
        (next, actions.push(action))
    }
}

/// The events that report each of `tables` as read, in order.
pub open spec fn reads(tables: Seq<Vec<CounterEntry>>) -> Seq<CycleEvent> {
    Seq::new(tables.len(), |i: int| CycleEvent::TableRead(Some(tables[i])))
}

/// The events that report `count` observations as recorded.
pub open spec fn recorded(count: nat) -> Seq<CycleEvent> {
    Seq::new(count, |i: int| CycleEvent::Recorded(true))
}

/// The events of a tick on which the sampler is enabled, every table is
/// read and every observation is recorded.
pub open spec fn tick_events(tables: Seq<Vec<CounterEntry>>, count: nat) -> Seq<CycleEvent> {
    seq![CycleEvent::Enablement(true)] + reads(tables) + recorded(count)
}

/// The actions that ask for the first `count` tables, in order.
pub open spec fn read_actions(count: nat) -> Seq<CycleAction> {
    Seq::new(count, |i: int| CycleAction::ReadTable { index: i as usize })
}

/// The actions that hand out each of `pending`, in order.
pub open spec fn record_actions(pending: Seq<Observation>) -> Seq<CycleAction> {
    Seq::new(pending.len(), |i: int| CycleAction::Record(pending[i]))
}

/// The snapshot that holds each of `tables` under the name at its position
/// in `names`.
pub open spec fn gathered(names: Seq<Seq<char>>, tables: Seq<Vec<CounterEntry>>) -> Map<
    Seq<char>,
    Map<Seq<char>, u64>,
>
    decreases tables.len(),
{
    if tables.len() == 0 {
        Map::empty()
    } else {
        gathered(names, tables.drop_last()).insert(
            names[tables.len() - 1],
            entries_map(tables.last()@),
        )
    }
}

/// Running two lists of events one after the other is running their
/// concatenation.
proof fn run_append(
    model: SamplerModel,
    state: CycleState,
    first: Seq<CycleEvent>,
    second: Seq<CycleEvent>,
)
    ensures
        cycle_run(model, state, first + second) == ({
            let begun = cycle_run(model, state, first);
            let ended = cycle_run(model, begun.0, second);
            (ended.0, begun.1 + ended.1)
        }),
    decreases second.len(),
{
    let begun = cycle_run(model, state, first);
    if second.len() == 0 {
        assert(first + second =~= first);
        assert(begun.1 + Seq::<CycleAction>::empty() =~= begun.1);
    } else {
        run_append(model, state, first, second.drop_last());
        assert((first + second).drop_last() =~= first + second.drop_last());
        assert((first + second).last() == second.last());
        let middle = cycle_run(model, begun.0, second.drop_last());
        let last = cycle_next(model, middle.0, second.last());
        assert((begun.1 + middle.1).push(last.1) =~= begun.1 + middle.1.push(last.1));
    }
}

/// The run of a single event is its step.
proof fn run_one(model: SamplerModel, state: CycleState, event: CycleEvent)
    ensures
        cycle_run(model, state, seq![event]) == (
            cycle_next(model, state, event).0,
            seq![cycle_next(model, state, event).1],
        ),
{
    let events = seq![event];
    assert(events.drop_last() =~= Seq::<CycleEvent>::empty());
    assert(cycle_run(model, state, events.drop_last()) == (state, Seq::<CycleAction>::empty()));
    assert(events.last() == event);
    assert(Seq::<CycleAction>::empty().push(cycle_next(model, state, event).1) =~= seq![
        cycle_next(model, state, event).1,
    ]);
}

/// While tables are read, each table that arrives is kept under its name
/// and the next one is asked for; the last one starts the emission.
proof fn reading_run(
    model: SamplerModel,
    state: CycleState,
    tables: Seq<Vec<CounterEntry>>,
    done: nat,
)
    requires
        state.phase == Phase::ReadingCounters,
        state.cursor == 0,
        state.gathered == Map::<Seq<char>, Map<Seq<char>, u64>>::empty(),
        0 < model.table_names.len() <= usize::MAX,
        tables.len() == model.table_names.len(),
        done <= tables.len(),
    ensures
        cycle_run(model, state, reads(tables).take(done as int)) == (if done < tables.len() {
            (
                CycleState {
                    cursor: done,
                    gathered: gathered(model.table_names, tables.take(done as int)),
                    ..state
                },
                read_actions(done + 1).skip(1),
            )
        } else {
            (
                start_emitting(
                    model,
                    state.captured_at,
                    gathered(model.table_names, tables),
                ).0,
                read_actions(done).skip(1).push(
                    start_emitting(
                        model,
                        state.captured_at,
                        gathered(model.table_names, tables),
                    ).1,
                ),
            )
        }),
    decreases done,
{
    let events = reads(tables).take(done as int);
    if done == 0 {
        assert(events =~= Seq::<CycleEvent>::empty());
        assert(tables.take(0) =~= Seq::<Vec<CounterEntry>>::empty());
        assert(read_actions(1).skip(1) =~= Seq::<CycleAction>::empty());
        assert(cycle_run(model, state, events).0 == (CycleState {
            cursor: 0,
            gathered: gathered(model.table_names, tables.take(0)),
            ..state
        }));
    } else {
        let before = (done - 1) as nat;
        reading_run(model, state, tables, before);
        assert(events.drop_last() =~= reads(tables).take(before as int));
        assert(events.last() == CycleEvent::TableRead(Some(tables[before as int])));
        assert(tables.take(done as int).drop_last() =~= tables.take(before as int));
        assert(tables.take(done as int).last() == tables[before as int]);
        let reached = cycle_run(model, state, events.drop_last());
        let last = cycle_next(model, reached.0, events.last());
        assert(reached.0.cursor == before);
        assert(reached.0.phase == Phase::ReadingCounters);
        assert(gathered(model.table_names, tables.take(done as int)) == reached.0.gathered.insert(
            model.table_names[before as int],
            entries_map(tables[before as int]@),
        ));
        if done < tables.len() {
            assert(read_actions(before + 1).skip(1).push(last.1) =~= read_actions(done + 1).skip(
                1,
            ));
        } else {
            assert(tables.take(done as int) =~= tables);
        }
    }
}

/// While observations are recorded, each success hands out the next one,
/// and the last success ends the tick.
proof fn emitting_run(model: SamplerModel, state: CycleState, count: nat)
    requires
        state.phase == Phase::Emitting,
        state.cursor == 0,
        0 < state.pending.len(),
        count <= state.pending.len(),
    ensures
        cycle_run(model, state, recorded(count)) == (if count < state.pending.len() {
            (CycleState { cursor: count, ..state }, record_actions(state.pending).subrange(
                1,
                count + 1 as int,
            ))
        } else {
            (idle(state.captured_at), record_actions(state.pending).skip(1).push(
                CycleAction::Finished,
            ))
        }),
    decreases count,
{
    let events = recorded(count);
    let actions = record_actions(state.pending);
    if count == 0 {
        assert(events =~= Seq::<CycleEvent>::empty());
        assert(actions.subrange(1, 1) =~= Seq::<CycleAction>::empty());
        assert(cycle_run(model, state, events).0 == (CycleState { cursor: 0, ..state }));
    } else {
        let before = (count - 1) as nat;
        emitting_run(model, state, before);
        assert(events.drop_last() =~= recorded(before));
        assert(events.last() == CycleEvent::Recorded(true));
        let reached = cycle_run(model, state, events.drop_last());
        let last = cycle_next(model, reached.0, events.last());
        assert(reached.0.cursor == before);
        if count < state.pending.len() {
            assert(actions.subrange(1, before + 1 as int).push(last.1) =~= actions.subrange(
                1,
                count + 1 as int,
            ));
        } else {
            assert(actions.subrange(1, before + 1 as int) =~= actions.skip(1));
        }
    }
}

/// Once the emission starts with the tables that were read, and every
/// observation is recorded, each statistic is handed out once, in order,
/// and the tick ends idle.
proof fn emission_completes(
    model: SamplerModel,
    captured_at: u64,
    snapshot: Map<Seq<char>, Map<Seq<char>, u64>>,
)
    ensures
        ({
            let started = start_emitting(model, captured_at, snapshot);
            let ended = cycle_run(model, started.0, recorded(model.stats.len()));
            &&& ended.0 == idle(captured_at)
            &&& seq![started.1] + ended.1 == record_actions(
                observations(snapshot, model.stats, captured_at),
            ).push(CycleAction::Finished)
        }),
{
    let pending = observations(snapshot, model.stats, captured_at);
    let started = start_emitting(model, captured_at, snapshot);
    let ended = cycle_run(model, started.0, recorded(model.stats.len()));
    if pending.len() == 0 {
        assert(recorded(0) =~= Seq::<CycleEvent>::empty());
        assert(seq![started.1] + ended.1 =~= record_actions(pending).push(CycleAction::Finished));
    } else {
        emitting_run(model, started.0, pending.len());
        assert(seq![started.1] + ended.1 =~= record_actions(pending).push(CycleAction::Finished));
    }
}

/// A tick on which the sampler is not enabled hands out no observation and
/// asks for no table: it ends at once, idle, with nothing kept.
pub proof fn disabled_tick_emits_nothing(model: SamplerModel, state: CycleState)
    requires
        state.phase == Phase::CheckingEnabled,
    ensures
        cycle_next(model, state, CycleEvent::Enablement(false)) == (
            idle(state.captured_at),
            CycleAction::Finished,
        ),
{
}

/// Without an attached program every tick on which the sampler is enabled
/// hands out one observation for each statistic, in order, with the count
/// zero and the instant of that tick, and then ends idle.
pub proof fn tick_without_handle_publishes_zeros(model: SamplerModel, state: CycleState)
    requires
        state.phase == Phase::CheckingEnabled,
        !model.has_handle,
    ensures
        cycle_run(model, state, tick_events(Seq::empty(), model.stats.len())) == (
            idle(state.captured_at),
            Seq::new(
                model.stats.len(),
                |i: int|
                    CycleAction::Record(
                        Observation {
                            identity: model.stats[i].external_identity,
                            captured_at: state.captured_at,
                            value: 0,
                        },
                    ),
            ).push(CycleAction::Finished),
        ),
{
    let nothing = Map::<Seq<char>, Map<Seq<char>, u64>>::empty();
    let enabled = seq![CycleEvent::Enablement(true)];
    let rest = recorded(model.stats.len());
    assert(tick_events(Seq::empty(), model.stats.len()) =~= enabled + rest);
    run_one(model, state, CycleEvent::Enablement(true));
    run_append(model, state, enabled, rest);
    emission_completes(model, state.captured_at, nothing);
    assert(record_actions(observations(nothing, model.stats, state.captured_at)) =~= Seq::new(
        model.stats.len(),
        |i: int|
            CycleAction::Record(
                Observation {
                    identity: model.stats[i].external_identity,
                    captured_at: state.captured_at,
                    value: 0,
                },
            ),
    ));
}

/// With an attached program, a tick on which the sampler is enabled and
/// every table is read asks for each table once, in order, then hands out
/// one observation for each statistic, in order, with the count resolved
/// against the tables read and the instant of that tick, and ends idle.
pub proof fn tick_publishes_every_statistic(
    model: SamplerModel,
    state: CycleState,
    tables: Seq<Vec<CounterEntry>>,
)
    requires
        cycle_valid(model, state),
        state.phase == Phase::CheckingEnabled,
        model.has_handle,
        model.table_names.len() <= usize::MAX,
        tables.len() == model.table_names.len(),
    ensures
        cycle_run(model, state, tick_events(tables, model.stats.len())) == (
            idle(state.captured_at),
            read_actions(tables.len()) + record_actions(
                observations(
                    gathered(model.table_names, tables),
                    model.stats,
                    state.captured_at,
                ),
            ).push(CycleAction::Finished),
        ),
{
    let enabled = seq![CycleEvent::Enablement(true)];
    let rest = recorded(model.stats.len());
    let snapshot = gathered(model.table_names, tables);
    let records = record_actions(observations(snapshot, model.stats, state.captured_at)).push(
        CycleAction::Finished,
    );
    run_one(model, state, CycleEvent::Enablement(true));
    run_append(model, state, enabled + reads(tables), rest);
    run_append(model, state, enabled, reads(tables));
    emission_completes(model, state.captured_at, snapshot);
    let first = cycle_next(model, state, CycleEvent::Enablement(true));
    if tables.len() == 0 {
        assert(reads(tables) =~= Seq::<CycleEvent>::empty());
        let ended = cycle_run(model, first.0, rest);
        assert((seq![first.1] + Seq::<CycleAction>::empty()) + ended.1 =~= read_actions(0)
            + records);
    } else {
        reading_run(model, first.0, tables, tables.len());
        assert(reads(tables).take(tables.len() as int) =~= reads(tables));
        let read = cycle_run(model, first.0, reads(tables));
        let ended = cycle_run(model, read.0, rest);
        let started = start_emitting(model, state.captured_at, snapshot);
        assert((seq![first.1] + read.1) + ended.1 =~= read_actions(tables.len()) + (seq![
            started.1,
        ] + ended.1));
    }
}

/// A counter that none of the tables read under its table's name holds
/// resolves to zero: a probe that was never bound leaves its table without
/// entries, and its statistics are published as zero.
pub proof fn absent_counter_resolves_to_zero(
    names: Seq<Seq<char>>,
    tables: Seq<Vec<CounterEntry>>,
    table: Seq<char>,
    key: Seq<char>,
)
    requires
        tables.len() <= names.len(),
        forall|i: int|
            0 <= i < tables.len() && names[i] == table ==> !entries_map(
                (#[trigger] tables[i])@,
            ).contains_key(key),
    ensures
        count_or_zero(gathered(names, tables), table, key) == 0,
    decreases tables.len(),
{
    if tables.len() > 0 {
        let earlier = tables.drop_last();
        assert forall|i: int| 0 <= i < earlier.len() && names[i] == table implies !entries_map(
            (#[trigger] earlier[i])@,
        ).contains_key(key) by {
            assert(earlier[i] == tables[i]);
        }
        absent_counter_resolves_to_zero(names, earlier, table, key);
        assert(tables.last() == tables[tables.len() - 1]);
    }
}

/// A table that cannot be read ends the tick: the error names the table,
/// no observation is handed out, and nothing of the tick is kept.
pub proof fn failed_read_publishes_nothing(model: SamplerModel, state: CycleState)
    requires
        state.phase == Phase::ReadingCounters,
    ensures
        cycle_next(model, state, CycleEvent::TableRead(None)) == (
            idle(state.captured_at),
            CycleAction::Failed(TickError::TableRead { index: state.cursor as usize }),
        ),
{
}

/// An observation that cannot be recorded ends the tick: the error names
/// the observation, and those after it are not handed out.
pub proof fn failed_record_ends_the_tick(model: SamplerModel, state: CycleState)
    requires
        state.phase == Phase::Emitting,
    ensures
        cycle_next(model, state, CycleEvent::Recorded(false)) == (
            idle(state.captured_at),
            CycleAction::Failed(TickError::Emit { index: state.cursor as usize }),
        ),
{
}

} // verus!
