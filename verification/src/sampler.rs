//! The sampler: its construction from the outcome of the attachment, and the
//! cycle it runs on every tick.

use vstd::prelude::*;
use crate::attach::AttachError;
use crate::cycle::{
    cycle_next, cycle_valid, observations, CycleAction, CycleEvent, CycleState, Observation,
    Phase, SamplerModel, TickError,
};
use crate::probe::{table_names, InstrumentationTarget};
use crate::stat::{descriptors, resolve, StatisticDescriptor};
use crate::table::{CounterTable, CounterTableSnapshot};

verus! {

/// What the configuration supplies to the sampler.
#[derive(Debug)]
pub struct SamplerSettings {
    /// Whether the sampler is enabled when it is constructed.
    pub enabled: bool,
    /// Whether a failure to set up the instrumentation is bypassed.
    pub fault_tolerant: bool,
    /// The statistics to publish, in order.
    pub statistics: Vec<StatisticDescriptor>,
}

/// The sampler of the key distribution daemon. `H` is the handle of the
/// attached instrumentation program.
pub struct Krb5kdc<H> {
    handle: Option<H>,
    target: InstrumentationTarget,
    statistics: Vec<StatisticDescriptor>,
    fault_tolerant: bool,
    registered: bool,
    phase: Phase,
    captured_at: u64,
    cursor: usize,
    gathered: CounterTableSnapshot,
    pending: Vec<Observation>,
}

/// What becomes of a sampler that was to be started.
pub enum Launch<H> {
    /// The sampler is not enabled, and nothing is started.
    Disabled,
    /// The sampler runs its cycle until it is no longer polled.
    Run(Krb5kdc<H>),
    /// The sampler could not be constructed, and the agent stops.
    Fatal(AttachError),
}

/// The observations of a tick: every statistic resolved against the tables
/// that were read.
fn observe(snapshot: &CounterTableSnapshot, stats: &Vec<StatisticDescriptor>, captured_at: u64) -> (pending:
    Vec<Observation>)
    ensures
        pending@ == observations(snapshot@, descriptors(stats@), captured_at),
{
    let resolved = resolve(snapshot, stats);
    let mut pending: Vec<Observation> = Vec::new();
    let mut i: usize = 0;
    while i < resolved.len()
        invariant
            i <= resolved@.len(),
            resolved@.len() == stats@.len(),
            pending@.len() == i,
            forall|j: int|
                0 <= j < resolved@.len() ==> (#[trigger] resolved@[j]).0@ == stats@[j]@
                    && resolved@[j].1 == crate::stat::resolved_value(snapshot@, stats@[j]@),
            forall|j: int|
                0 <= j < i ==> pending@[j] == observations(
                    snapshot@,
                    descriptors(stats@),
                    captured_at,
                )[j],
        decreases resolved@.len() - i,
    {
        pending.push(
            Observation {
                identity: resolved[i].0.external_identity,
                captured_at,
                value: resolved[i].1,
            },
        );
        i += 1;
    }
    proof {
        assert(pending@ =~= observations(snapshot@, descriptors(stats@), captured_at));
    }
    pending
}

impl<H> Krb5kdc<H> {
    #[verifier::type_invariant]
    spec fn well_formed(&self) -> bool {
        &&& cycle_valid(self.model(), self.cycle())
        &&& self.phase == Phase::ReadingCounters ==> self.cursor < self.target.probe_specs@.len()
    }

    /// The configuration that the cycle depends on.
    pub closed spec fn model(&self) -> SamplerModel {
        SamplerModel {
            has_handle: self.handle.is_some(),
            table_names: table_names(self.target.probe_specs@),
            stats: descriptors(self.statistics@),
        }
    }

    /// The state of the cycle.
    pub closed spec fn cycle(&self) -> CycleState {
        CycleState {
            phase: self.phase,
            captured_at: self.captured_at,
            cursor: self.cursor as nat,
            gathered: self.gathered@,
            pending: self.pending@,
        }
    }

    /// The handle that the sampler holds, if any.
    pub closed spec fn spec_handle(&self) -> Option<H> {
        self.handle
    }

    /// Whether a failure to set up the instrumentation was to be bypassed.
    pub closed spec fn spec_fault_tolerant(&self) -> bool {
        self.fault_tolerant
    }

    /// Whether the sampler was enabled when it was constructed.
    pub closed spec fn spec_registered(&self) -> bool {
        self.registered
    }

    /// The target whose probes feed the sampler.
    pub closed spec fn spec_target(&self) -> InstrumentationTarget {
        self.target
    }

    /// The statistics that the sampler publishes.
    pub closed spec fn spec_statistics(&self) -> Vec<StatisticDescriptor> {
        self.statistics
    }

    /// Whether this is the sampler, not yet polled, that is constructed from
    /// these settings, this target and this outcome of the attachment: it
    /// holds the handle where there is one, and none after an error.
    pub open spec fn constructed_from(
        &self,
        settings: SamplerSettings,
        target: InstrumentationTarget,
        init: Result<Option<H>, AttachError>,
    ) -> bool {
        &&& self.spec_handle() == (match init {
            Ok(handle) => handle,
            Err(_) => None,
        })
        &&& self.spec_target() == target
        &&& self.spec_statistics() == settings.statistics
        &&& self.spec_fault_tolerant() == settings.fault_tolerant
        &&& self.spec_registered() == settings.enabled
        &&& self.model() == (SamplerModel {
            has_handle: init matches Ok(Some(_)),
            table_names: table_names(target.probe_specs@),
            stats: descriptors(settings.statistics@),
        })
        &&& self.cycle() == crate::cycle::idle(0)
    }

    /// Constructs the sampler from the outcome of the attachment.
    ///
    /// `init` is the handle of the attached program, nothing where the
    /// platform has no instrumentation, or the error that ended the
    /// attachment. With an error the construction fails, unless the settings
    /// are fault tolerant: then the sampler is constructed without a handle,
    /// and stays without one.
    pub fn new(
        settings: SamplerSettings,
        target: InstrumentationTarget,
        init: Result<Option<H>, AttachError>,
    ) -> (constructed: Result<Krb5kdc<H>, AttachError>)
        ensures
            constructed.is_err() <==> init.is_err() && !settings.fault_tolerant,
            constructed matches Err(error) ==> init == Err::<Option<H>, AttachError>(error),
            constructed matches Ok(sampler) ==> sampler.constructed_from(settings, target, init),
    {
        let handle = match init {
            Ok(handle) => handle,
            Err(error) => {
                if !settings.fault_tolerant {
                    return Err(error);
                }
                None
            },
        };
        let sampler = Krb5kdc {
            handle,
            target,
            statistics: settings.statistics,
            fault_tolerant: settings.fault_tolerant,
            registered: settings.enabled,
            phase: Phase::Idle,
            captured_at: 0,
            cursor: 0,
            gathered: CounterTableSnapshot::new(),
            pending: Vec::new(),
        };
        proof {
            assert(sampler.cycle().gathered =~= crate::cycle::idle(0).gathered);
            assert(sampler.cycle().pending =~= crate::cycle::idle(0).pending);
        }
        Ok(sampler)
    }

    /// Starts the sampler, where it is enabled.
    ///
    /// A sampler that is not enabled is not constructed, whatever `init`
    /// holds. One that is enabled runs, with or without a handle, unless the
    /// attachment ended in an error and the settings are not fault tolerant:
    /// that error is fatal, and no tick ever runs.
    pub fn spawn(
        settings: SamplerSettings,
        target: InstrumentationTarget,
        init: Result<Option<H>, AttachError>,
    ) -> (launch: Launch<H>)
        ensures
            !settings.enabled ==> launch is Disabled,
            settings.enabled && init.is_err() && !settings.fault_tolerant ==> (launch
                matches Launch::Fatal(error) && init == Err::<Option<H>, AttachError>(error)),
            settings.enabled && (init.is_ok() || settings.fault_tolerant) ==> (launch
                matches Launch::Run(sampler) && sampler.constructed_from(settings, target, init)),
    {
        if !settings.enabled {
            return Launch::Disabled;
        }
        match Self::new(settings, target, init) {
            Ok(sampler) => Launch::Run(sampler),
            Err(error) => Launch::Fatal(error),
        }
    }

    /// The handle of the attached program, where there is one.
    pub fn handle(&self) -> (handle: Option<&H>)
        ensures
            handle.is_some() == self.spec_handle().is_some(),
            handle matches Some(attached) ==> self.spec_handle() == Some(*attached),
    {
        self.handle.as_ref()
    }

    /// The target whose probes feed the sampler.
    pub fn target(&self) -> (target: &InstrumentationTarget)
        ensures
            *target == self.spec_target(),
    {
        &self.target
    }

    /// The statistics that the sampler publishes, in order.
    pub fn statistics(&self) -> (statistics: &Vec<StatisticDescriptor>)
        ensures
            *statistics == self.spec_statistics(),
    {
        &self.statistics
    }

    /// Whether a failure to set up the instrumentation was to be bypassed.
    pub fn fault_tolerant(&self) -> (fault_tolerant: bool)
        ensures
            fault_tolerant == self.spec_fault_tolerant(),
    {
        self.fault_tolerant
    }

    /// Whether the sampler was enabled when it was constructed, so that its
    /// statistics are to be registered with the metrics sink.
    pub fn registered(&self) -> (registered: bool)
        ensures
            registered == self.spec_registered(),
    {
        self.registered
    }

    /// The phase that the cycle is in.
    pub fn phase(&self) -> (phase: Phase)
        ensures
            phase == self.cycle().phase,
    {
        self.phase
    }

    /// The instant at which the last tick was captured, zero before the
    /// first.
    pub fn last_sample(&self) -> (captured_at: u64)
        ensures
            captured_at == self.cycle().captured_at,
    {
        self.captured_at
    }

    /// Takes the outcome of the action last asked for and says what is done
    /// next. The handle, the target and the statistics stay as they are.
    pub fn step(self, event: CycleEvent) -> (next: (Krb5kdc<H>, CycleAction))
        ensures
            next.0.spec_handle() == self.spec_handle(),
            next.0.spec_target() == self.spec_target(),
            next.0.spec_statistics() == self.spec_statistics(),
            next.0.spec_fault_tolerant() == self.spec_fault_tolerant(),
            next.0.spec_registered() == self.spec_registered(),
            next.0.model() == self.model(),
            (next.0.cycle(), next.1) == cycle_next(self.model(), self.cycle(), event),
            cycle_valid(next.0.model(), next.0.cycle()),
    {
        proof {
            use_type_invariant(&self);
        }
        let Krb5kdc {
            handle,
            target,
            statistics,
            fault_tolerant,
            registered,
            phase,
            captured_at,
            cursor,
            gathered,
            pending,
        } = self;
        match (phase, event) {
            (Phase::Idle, CycleEvent::Begin) => (
                Krb5kdc {
                    handle,
                    target,
                    statistics,
                    fault_tolerant,
                    registered,
                    phase: Phase::WaitingForTick,
                    captured_at,
                    cursor,
                    gathered,
                    pending,
                },
                CycleAction::AwaitTick,
            ),
            (Phase::WaitingForTick, CycleEvent::Tick { captured_at: now }) => (
                Krb5kdc {
                    handle,
                    target,
                    statistics,
                    fault_tolerant,
                    registered,
                    phase: Phase::CheckingEnabled,
                    captured_at: now,
                    cursor,
                    gathered,
                    pending,
                },
                CycleAction::CheckEnabled,
            ),
            (Phase::CheckingEnabled, CycleEvent::Enablement(false)) => (
                Krb5kdc {
                    handle,
                    target,
                    statistics,
                    fault_tolerant,
                    registered,
                    phase: Phase::Idle,
                    captured_at,
                    cursor: 0,
                    gathered: CounterTableSnapshot::new(),
                    pending: Vec::new(),
                },
                CycleAction::Finished,
            ),
            (Phase::CheckingEnabled, CycleEvent::Enablement(true)) => {
                if handle.is_none() || target.probe_specs.len() == 0 {
                    let snapshot = CounterTableSnapshot::new();
                    Self::emit(
                        handle,
                        target,
                        statistics,
                        fault_tolerant,
                        registered,
                        captured_at,
                        snapshot,
                    )
                } else {
                    (
                        Krb5kdc {
                            handle,
                            target,
                            statistics,
                            fault_tolerant,
                            registered,
                            phase: Phase::ReadingCounters,
                            captured_at,
                            cursor,
                            gathered,
                            pending,
                        },
                        CycleAction::ReadTable { index: 0 },
                    )
                }
            },
            (Phase::ReadingCounters, CycleEvent::TableRead(None)) => (
                Krb5kdc {
                    handle,
                    target,
                    statistics,
                    fault_tolerant,
                    registered,
                    phase: Phase::Idle,
                    captured_at,
                    cursor: 0,
                    gathered: CounterTableSnapshot::new(),
                    pending: Vec::new(),
                },
                CycleAction::Failed(TickError::TableRead { index: cursor }),
            ),
            (Phase::ReadingCounters, CycleEvent::TableRead(Some(entries))) => {
                let mut gathered = gathered;
                let name = target.probe_specs[cursor].table_name.clone();
                gathered.insert(CounterTable { name, entries });
                let count = target.probe_specs.len();
                if cursor + 1 < count {
                    (
                        Krb5kdc {
                            handle,
                            target,
                            statistics,
                            fault_tolerant,
                            registered,
                            phase: Phase::ReadingCounters,
                            captured_at,
                            cursor: cursor + 1,
                            gathered,
                            pending,
                        },
                        CycleAction::ReadTable { index: cursor + 1 },
                    )
                } else {
                    Self::emit(
                        handle,
                        target,
                        statistics,
                        fault_tolerant,
                        registered,
                        captured_at,
                        gathered,
                    )
                }
            },
            (Phase::Emitting, CycleEvent::Recorded(false)) => (
                Krb5kdc {
                    handle,
                    target,
                    statistics,
                    fault_tolerant,
                    registered,
                    phase: Phase::Idle,
                    captured_at,
                    cursor: 0,
                    gathered: CounterTableSnapshot::new(),
                    pending: Vec::new(),
                },
                CycleAction::Failed(TickError::Emit { index: cursor }),
            ),
            (Phase::Emitting, CycleEvent::Recorded(true)) => {
                let count = pending.len();
                if cursor + 1 < count {
                    let observation = pending[cursor + 1];
                    (
                        Krb5kdc {
                            handle,
                            target,
                            statistics,
                            fault_tolerant,
                            registered,
                            phase: Phase::Emitting,
                            captured_at,
                            cursor: cursor + 1,
                            gathered,
                            pending,
                        },
                        CycleAction::Record(observation),
                    )
                } else {
                    (
                        Krb5kdc {
                            handle,
                            target,
                            statistics,
                            fault_tolerant,
                            registered,
                            phase: Phase::Idle,
                            captured_at,
                            cursor: 0,
                            gathered: CounterTableSnapshot::new(),
                            pending: Vec::new(),
                        },
                        CycleAction::Finished,
                    )
                }
            },
            (phase, _) => (
                Krb5kdc {
                    handle,
                    target,
                    statistics,
                    fault_tolerant,
                    registered,
                    phase,
                    captured_at,
                    cursor,
                    gathered,
                    pending,
                },
                CycleAction::Rejected,
            ),
        }
    }

    /// Enters the emission of a tick with the tables that were read.
    fn emit(
        handle: Option<H>,
        target: InstrumentationTarget,
        statistics: Vec<StatisticDescriptor>,
        fault_tolerant: bool,
        registered: bool,
        captured_at: u64,
        snapshot: CounterTableSnapshot,
    ) -> (next: (Krb5kdc<H>, CycleAction))
        ensures
            next.0.spec_handle() == handle,
            next.0.spec_target() == target,
            next.0.spec_statistics() == statistics,
            next.0.spec_fault_tolerant() == fault_tolerant,
            next.0.spec_registered() == registered,
            (next.0.cycle(), next.1) == crate::cycle::start_emitting(
                (SamplerModel {
                    has_handle: handle.is_some(),
                    table_names: table_names(target.probe_specs@),
                    stats: descriptors(statistics@),
                }),
                captured_at,
                snapshot@,
            ),
    {
        let pending = observe(&snapshot, &statistics, captured_at);
        if pending.len() == 0 {
            (
                Krb5kdc {
                    handle,
                    target,
                    statistics,
                    fault_tolerant,
                    registered,
                    phase: Phase::Idle,
                    captured_at,
                    cursor: 0,
                    gathered: CounterTableSnapshot::new(),
                    pending: Vec::new(),
                },
                CycleAction::Finished,
            )
        } else {
            let first = pending[0];
            (
                Krb5kdc {
                    handle,
                    target,
                    statistics,
                    fault_tolerant,
                    registered,
                    phase: Phase::Emitting,
                    captured_at,
                    cursor: 0,
                    gathered: CounterTableSnapshot::new(),
                    pending,
                },
                CycleAction::Record(first),
            )
        }
    }
}

} // verus!
