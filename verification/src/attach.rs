//! Probe attachment: which probe to bind next, and what a failure means.
//!
//! The caller loads the instrumentation program and binds the probes; this
//! module decides, after each outcome, what is done next. A program that
//! does not load ends the attachment. A probe that does not bind ends it
//! too, unless the sampler is fault tolerant: then the probe is skipped and
//! the remaining probes are still tried.

use vstd::prelude::*;
use crate::probe::InstrumentationTarget;

verus! {

/// Why an attachment ended without a usable instrumentation program.
#[derive(Clone, Copy, Debug, PartialEq, Eq, Structural)]
pub enum AttachError {
    /// The instrumentation program could not be loaded.
    ProgramLoad,
    /// The probe at this position of the target's list could not be bound.
    ProbeAttach { index: usize },
}

/// How far an attachment has come.
#[derive(Clone, Copy, Debug, PartialEq, Eq, Structural)]
pub enum AttachPhase {
    /// The program is being loaded.
    Loading,
    /// Probes are being bound.
    Binding,
    /// Every probe was tried, and the program is in use.
    Attached,
    /// The attachment was given up.
    Failed,
}

/// What the caller reports back.
#[derive(Clone, Copy, Debug, PartialEq, Eq, Structural)]
pub enum AttachEvent {
    /// The program was loaded, or could not be.
    ProgramLoaded(bool),
    /// The probe last asked for was bound, or could not be.
    Bound(bool),
}

/// What the caller does next.
#[derive(Clone, Copy, Debug, PartialEq, Eq, Structural)]
pub enum AttachAction {
    /// Load the instrumentation program.
    LoadProgram,
    /// Bind the probe at this position of the target's list.
    Bind { index: usize },
    /// Keep the program: every probe was tried.
    Complete,
    /// Drop the program and report the error.
    Abort(AttachError),
    /// The event does not belong to the current phase; nothing changed.
    Rejected,
}

/// An attachment as a mathematical value: its phase and, for each probe
/// tried so far, whether it was bound.
pub struct AttachState {
    pub phase: AttachPhase,
    pub outcomes: Seq<bool>,
}

/// The positions in `outcomes` that hold `wanted`, in rising order.
pub open spec fn positions_of(outcomes: Seq<bool>, wanted: bool) -> Seq<usize>
    decreases outcomes.len(),
{
    if outcomes.len() == 0 {
        Seq::empty()
    } else if outcomes.last() == wanted {
        positions_of(outcomes.drop_last(), wanted).push((outcomes.len() - 1) as usize)
    } else {
        positions_of(outcomes.drop_last(), wanted)
    }
}

/// The state and action that follow once the outcome of one more probe is
/// known.
pub open spec fn after_binding(
    probe_count: nat,
    fault_tolerant: bool,
    outcomes: Seq<bool>,
    bound: bool,
) -> (AttachState, AttachAction) {
    let tried = outcomes.push(bound);
    if !bound && !fault_tolerant {
        (
            AttachState { phase: AttachPhase::Failed, outcomes: tried },
            AttachAction::Abort(AttachError::ProbeAttach { index: outcomes.len() as usize }),
        )
    } else if tried.len() < probe_count {
        (
            AttachState { phase: AttachPhase::Binding, outcomes: tried },
            AttachAction::Bind { index: tried.len() as usize },
        )
    } else {
        (AttachState { phase: AttachPhase::Attached, outcomes: tried }, AttachAction::Complete)
    }
}

/// The state and action that follow `event` in `state`, for a target of
/// `probe_count` probes.
pub open spec fn attach_next(
    probe_count: nat,
    fault_tolerant: bool,
    state: AttachState,
    event: AttachEvent,
) -> (AttachState, AttachAction) {
    match (state.phase, event) {
        (AttachPhase::Loading, AttachEvent::ProgramLoaded(false)) => (
            AttachState { phase: AttachPhase::Failed, outcomes: state.outcomes },
            AttachAction::Abort(AttachError::ProgramLoad),
        ),
        (AttachPhase::Loading, AttachEvent::ProgramLoaded(true)) => if probe_count == 0 {
            (
                AttachState { phase: AttachPhase::Attached, outcomes: state.outcomes },
                AttachAction::Complete,
            )
        } else {
            (
                AttachState { phase: AttachPhase::Binding, outcomes: state.outcomes },
                AttachAction::Bind { index: 0 },
            )
        },
        (AttachPhase::Binding, AttachEvent::Bound(bound)) => after_binding(
            probe_count,
            fault_tolerant,
            state.outcomes,
            bound,
        ),
        _ => (state, AttachAction::Rejected),
    }
}

/// What holds of every attachment a caller can have: the outcomes belong to
/// the first probes of the list; while probes are being bound one is still
/// untried; once attached all were tried; and without fault tolerance no
/// probe is tried after one that failed.
pub open spec fn attach_valid(probe_count: nat, fault_tolerant: bool, state: AttachState) -> bool {
    &&& state.outcomes.len() <= probe_count
    &&& state.phase == AttachPhase::Loading ==> state.outcomes.len() == 0
    &&& state.phase == AttachPhase::Binding ==> state.outcomes.len() < probe_count
    &&& state.phase == AttachPhase::Attached ==> state.outcomes.len() == probe_count
    &&& !fault_tolerant && state.phase != AttachPhase::Failed ==> forall|i: int|
        0 <= i < state.outcomes.len() ==> state.outcomes[i]
    &&& !fault_tolerant && state.phase == AttachPhase::Failed ==> forall|i: int|
        0 <= i < state.outcomes.len() - 1 ==> state.outcomes[i]
}

/// The state that the events of `events` lead to, one after the other, and
/// the actions asked for on the way.
pub open spec fn attach_run(
    probe_count: nat,
    fault_tolerant: bool,
    state: AttachState,
    events: Seq<AttachEvent>,
) -> (AttachState, Seq<AttachAction>)
    decreases events.len(),
{
    if events.len() == 0 {
        (state, Seq::empty())
    } else {
        let (reached, actions) = attach_run(probe_count, fault_tolerant, state, events.drop_last());
        let (next, action) = attach_next(probe_count, fault_tolerant, reached, events.last());
        (next, actions.push(action))
    }
}

/// Which probes of a target were bound and which were not, by position in
/// the target's list, each in rising order.
#[derive(Debug)]
pub struct AttachmentReport {
    pub succeeded: Vec<usize>,
    pub failed: Vec<usize>,
}

/// The attachment of one target's probes.
#[derive(Debug)]
pub struct Attachment {
    probe_count: usize,
    fault_tolerant: bool,
    phase: AttachPhase,
    outcomes: Vec<bool>,
}

impl Attachment {
    #[verifier::type_invariant]
    spec fn well_formed(&self) -> bool {
        attach_valid(self.probe_count as nat, self.fault_tolerant, self.state())
    }

    /// The number of probes of the target.
    pub closed spec fn probe_count(&self) -> nat {
        self.probe_count as nat
    }

    /// Whether a probe that cannot be bound is skipped.
    pub closed spec fn fault_tolerant(&self) -> bool {
        self.fault_tolerant
    }

    /// The phase and the outcomes so far.
    pub closed spec fn state(&self) -> AttachState {
        AttachState { phase: self.phase, outcomes: self.outcomes@ }
    }

    /// An attachment of the probes of `target`, and its first action: to
    /// load the program.
    pub fn new(target: &InstrumentationTarget, fault_tolerant: bool) -> (started: (
        Attachment,
        AttachAction,
    ))
        ensures
            started.0.probe_count() == target.probe_specs@.len(),
            started.0.fault_tolerant() == fault_tolerant,
            started.0.state() == (AttachState {
                phase: AttachPhase::Loading,
                outcomes: Seq::empty(),
            }),
            started.1 == AttachAction::LoadProgram,
    {
        (
            Attachment {
                probe_count: target.probe_specs.len(),
                fault_tolerant,
                phase: AttachPhase::Loading,
                outcomes: Vec::new(),
            },
            AttachAction::LoadProgram,
        )
    }

    /// Takes the outcome of the action last asked for and says what is done
    /// next.
    pub fn step(self, event: AttachEvent) -> (next: (Attachment, AttachAction))
        ensures
            next.0.probe_count() == self.probe_count(),
            next.0.fault_tolerant() == self.fault_tolerant(),
            (next.0.state(), next.1) == attach_next(
                self.probe_count(),
                self.fault_tolerant(),
                self.state(),
                event,
            ),
            attach_valid(next.0.probe_count(), next.0.fault_tolerant(), next.0.state()),
    {
        proof {
            use_type_invariant(&self);
        }
        let probe_count = self.probe_count;
        let fault_tolerant = self.fault_tolerant;
        let phase = self.phase;
        let mut outcomes = self.outcomes;
        match (phase, event) {
            (AttachPhase::Loading, AttachEvent::ProgramLoaded(false)) => (
                Attachment { probe_count, fault_tolerant, phase: AttachPhase::Failed, outcomes },
                AttachAction::Abort(AttachError::ProgramLoad),
            ),
            (AttachPhase::Loading, AttachEvent::ProgramLoaded(true)) => if probe_count == 0 {
                (
                    Attachment {
                        probe_count,
                        fault_tolerant,
                        phase: AttachPhase::Attached,
                        outcomes,
                    },
                    AttachAction::Complete,
                )
            } else {
                (
                    Attachment {
                        probe_count,
                        fault_tolerant,
                        phase: AttachPhase::Binding,
                        outcomes,
                    },
                    AttachAction::Bind { index: 0 },
                )
            },
            (AttachPhase::Binding, AttachEvent::Bound(bound)) => {
                let index = outcomes.len();
                outcomes.push(bound);
                if !bound && !fault_tolerant {
                    (
                        Attachment {
                            probe_count,
                            fault_tolerant,
                            phase: AttachPhase::Failed,
                            outcomes,
                        },
                        AttachAction::Abort(AttachError::ProbeAttach { index }),
                    )
                } else if outcomes.len() < probe_count {
                    let next_index = outcomes.len();
                    (
                        Attachment {
                            probe_count,
                            fault_tolerant,
                            phase: AttachPhase::Binding,
                            outcomes,
                        },
                        AttachAction::Bind { index: next_index },
                    )
                } else {
                    (
                        Attachment {
                            probe_count,
                            fault_tolerant,
                            phase: AttachPhase::Attached,
                            outcomes,
                        },
                        AttachAction::Complete,
                    )
                }
            },
            _ => (Attachment { probe_count, fault_tolerant, phase, outcomes }, AttachAction::Rejected),
        }
    }

    /// The phase that the attachment is in.
    pub fn phase(&self) -> (phase: AttachPhase)
        ensures
            phase == self.state().phase,
    {
        self.phase
    }

    /// The probes bound and the probes skipped so far.
    pub fn report(&self) -> (report: AttachmentReport)
        ensures
            report.succeeded@ == positions_of(self.state().outcomes, true),
            report.failed@ == positions_of(self.state().outcomes, false),
    {
        let mut succeeded: Vec<usize> = Vec::new();
        let mut failed: Vec<usize> = Vec::new();
        let mut i: usize = 0;
        while i < self.outcomes.len()
            invariant
                i <= self.outcomes@.len(),
                succeeded@ == positions_of(self.outcomes@.take(i as int), true),
                failed@ == positions_of(self.outcomes@.take(i as int), false),
            decreases self.outcomes@.len() - i,
        {
            proof {
                assert(self.outcomes@.take(i + 1).drop_last() =~= self.outcomes@.take(i as int));
            }
            if self.outcomes[i] {
                succeeded.push(i);
            } else {
                failed.push(i);
            }
            i += 1;
        }
        proof {
            assert(self.outcomes@.take(i as int) =~= self.outcomes@);
        }
        AttachmentReport { succeeded, failed }
    }
}

/// The state in which every attachment starts.
pub open spec fn fresh() -> AttachState {
    AttachState { phase: AttachPhase::Loading, outcomes: Seq::empty() }
}

/// The events of an attachment whose program loads and whose probes then
/// end as `outcomes` says, in order.
pub open spec fn binding_events(outcomes: Seq<bool>) -> Seq<AttachEvent> {
    Seq::new(
        outcomes.len() + 1,
        |i: int|
            if i == 0 {
                AttachEvent::ProgramLoaded(true)
            } else {
                AttachEvent::Bound(outcomes[i - 1])
            },
    )
}

/// The actions of an attachment in which `count` probes are asked for, one
/// after the other.
pub open spec fn binding_actions(count: nat) -> Seq<AttachAction> {
    Seq::new(count, |i: int| AttachAction::Bind { index: i as usize })
}

/// While no failure ends the attachment, the probes are asked for in order:
/// after the program and the first `tried` outcomes, the next probe is
/// asked for, or the attachment is complete where none is left.
proof fn binding_proceeds(
    probe_count: nat,
    fault_tolerant: bool,
    outcomes: Seq<bool>,
    tried: nat,
)
    requires
        probe_count <= usize::MAX,
        tried <= outcomes.len() <= probe_count,
        forall|i: int| 0 <= i < tried ==> fault_tolerant || outcomes[i],
    ensures
        attach_run(probe_count, fault_tolerant, fresh(), binding_events(outcomes).take(tried + 1 as int))
            == (
            AttachState {
                phase: if tried < probe_count {
                    AttachPhase::Binding
                } else {
                    AttachPhase::Attached
                },
                outcomes: outcomes.take(tried as int),
            },
            if tried < probe_count {
                binding_actions(tried + 1)
            } else {
                binding_actions(tried).push(AttachAction::Complete)
            },
        ),
    decreases tried,
{
    let events = binding_events(outcomes).take(tried + 1 as int);
    let run = attach_run(probe_count, fault_tolerant, fresh(), events);
    if tried == 0 {
        assert(events.drop_last() =~= Seq::<AttachEvent>::empty());
        assert(attach_run(probe_count, fault_tolerant, fresh(), events.drop_last()) == (
            fresh(),
            Seq::<AttachAction>::empty(),
        ));
        assert(events.last() == AttachEvent::ProgramLoaded(true));
        assert(run.0.outcomes =~= outcomes.take(0));
        if 0 < probe_count {
            assert(run.1 =~= binding_actions(1));
        } else {
            assert(run.1 =~= binding_actions(0).push(AttachAction::Complete));
        }
    } else {
        let before = (tried - 1) as nat;
        binding_proceeds(probe_count, fault_tolerant, outcomes, before);
        assert(events.drop_last() =~= binding_events(outcomes).take(before + 1 as int));
        assert(events.last() == AttachEvent::Bound(outcomes[before as int]));
        assert(outcomes.take(before as int).push(outcomes[before as int]) =~= outcomes.take(
            tried as int,
        ));
        assert(run.0.outcomes =~= outcomes.take(tried as int));
        if tried < probe_count {
            assert(run.1 =~= binding_actions(tried + 1));
        } else {
            assert(run.1 =~= binding_actions(tried).push(AttachAction::Complete));
        }
    }
}

/// With fault tolerance no probe ends the attachment: whatever the outcome
/// of each probe, every probe of the target is asked for in order, the
/// attachment ends complete, and its outcomes are those reported.
pub proof fn fault_tolerant_attachment_completes(probe_count: nat, outcomes: Seq<bool>)
    requires
        probe_count <= usize::MAX,
        outcomes.len() == probe_count,
    ensures
        attach_run(probe_count, true, fresh(), binding_events(outcomes)) == (
            AttachState { phase: AttachPhase::Attached, outcomes },
            binding_actions(probe_count).push(AttachAction::Complete),
        ),
{
    binding_proceeds(probe_count, true, outcomes, probe_count);
    assert(binding_events(outcomes).take(probe_count + 1 as int) =~= binding_events(outcomes));
    assert(outcomes.take(probe_count as int) =~= outcomes);
}

/// Without fault tolerance the first probe that cannot be bound ends the
/// attachment: the probes up to it are asked for in order, the error names
/// its position, and no later probe is tried.
pub proof fn strict_attachment_stops_at_first_failure(probe_count: nat, outcomes: Seq<bool>)
    requires
        probe_count <= usize::MAX,
        0 < outcomes.len() <= probe_count,
        !outcomes.last(),
        forall|i: int| 0 <= i < outcomes.len() - 1 ==> outcomes[i],
    ensures
        attach_run(probe_count, false, fresh(), binding_events(outcomes)) == (
            AttachState { phase: AttachPhase::Failed, outcomes },
            binding_actions(outcomes.len()).push(
                AttachAction::Abort(
                    AttachError::ProbeAttach { index: (outcomes.len() - 1) as usize },
                ),
            ),
        ),
{
    let before = (outcomes.len() - 1) as nat;
    let events = binding_events(outcomes);
    binding_proceeds(probe_count, false, outcomes, before);
    assert(events.drop_last() =~= events.take(before + 1 as int));
    assert(events.last() == AttachEvent::Bound(false));
    assert(outcomes.take(before as int).push(false) =~= outcomes);
    let run = attach_run(probe_count, false, fresh(), events);
    assert(run.0.outcomes =~= outcomes);
}

/// A program that cannot be loaded ends the attachment, fault tolerant or
/// not, before any probe is tried.
pub proof fn load_failure_is_fatal(probe_count: nat, fault_tolerant: bool)
    ensures
        attach_next(probe_count, fault_tolerant, fresh(), AttachEvent::ProgramLoaded(false)) == (
            AttachState { phase: AttachPhase::Failed, outcomes: Seq::empty() },
            AttachAction::Abort(AttachError::ProgramLoad),
        ),
{
}

} // verus!
