//! Instrumentation points: what is bound to which function of the target
//! binary, and the counter table each probe feeds.

use vstd::prelude::*;

verus! {

/// Whether a probe fires when the instrumented function is entered or when
/// it returns.
#[derive(Clone, Copy, Debug, PartialEq, Eq, Structural)]
pub enum ProbeKind {
    EntryProbe,
    ReturnProbe,
}

/// One instrumented function: the handler bound to it, the symbol it is
/// bound at, when it fires, and the counter table that the handler fills.
#[derive(Debug)]
pub struct ProbeSpec {
    pub handler_name: String,
    pub target_symbol: String,
    pub kind: ProbeKind,
    pub table_name: String,
}

/// A probe specification as a mathematical value.
pub struct ProbeSpecView {
    pub handler_name: Seq<char>,
    pub target_symbol: Seq<char>,
    pub kind: ProbeKind,
    pub table_name: Seq<char>,
}

impl View for ProbeSpec {
    type V = ProbeSpecView;

    open spec fn view(&self) -> ProbeSpecView {
        ProbeSpecView {
            handler_name: self.handler_name@,
            target_symbol: self.target_symbol@,
            kind: self.kind,
            table_name: self.table_name@,
        }
    }
}

/// The binary to instrument and the probes to bind in it, in binding order.
#[derive(Debug)]
pub struct InstrumentationTarget {
    pub binary_path: String,
    pub probe_specs: Vec<ProbeSpec>,
}

/// The probe specifications of the key distribution daemon.
pub open spec fn krb5kdc_probes() -> Seq<ProbeSpecView> {
    seq![
        ProbeSpecView {
            handler_name: "count_finish_process_as_req"@,
            target_symbol: "finish_process_as_req"@,
            kind: ProbeKind::EntryProbe,
            table_name: "counts_finish_process_as_req"@,
        },
        ProbeSpecView {
            handler_name: "count_finish_dispatch_cache"@,
            target_symbol: "finish_dispatch_cache"@,
            kind: ProbeKind::EntryProbe,
            table_name: "counts_finish_dispatch_cache"@,
        },
        ProbeSpecView {
            handler_name: "count_process_tgs_req"@,
            target_symbol: "process_tgs_req"@,
            kind: ProbeKind::ReturnProbe,
            table_name: "counts_process_tgs_req"@,
        },
    ]
}

/// The names of the counter tables that a list of probes feeds, in order.
pub open spec fn table_names(specs: Seq<ProbeSpec>) -> Seq<Seq<char>> {
    Seq::new(specs.len(), |i: int| specs[i].table_name@)
}

impl ProbeSpec {
    /// A probe that binds `handler_name` at `target_symbol` and feeds
    /// `table_name`.
    pub fn new(
        handler_name: String,
        target_symbol: String,
        kind: ProbeKind,
        table_name: String,
    ) -> (spec: ProbeSpec)
        ensures
            spec.handler_name == handler_name,
            spec.target_symbol == target_symbol,
            spec.kind == kind,
            spec.table_name == table_name,
    {
        ProbeSpec { handler_name, target_symbol, kind, table_name }
    }
}

impl InstrumentationTarget {
    /// A target with the given probes.
    pub fn new(binary_path: String, probe_specs: Vec<ProbeSpec>) -> (target: InstrumentationTarget)
        ensures
            target.binary_path == binary_path,
            target.probe_specs == probe_specs,
    {
        InstrumentationTarget { binary_path, probe_specs }
    }

    /// The key distribution daemon at `binary_path`, with its three probes:
    /// two on entry to the functions that finish an authentication request
    /// and a cache dispatch, one on return from the function that processes
    /// a ticket-granting request.
    pub fn krb5kdc(binary_path: String) -> (target: InstrumentationTarget)
        ensures
            target.binary_path == binary_path,
            target.probe_specs@.len() == 3,
            forall|i: int| 0 <= i < 3 ==> (#[trigger] target.probe_specs@[i])@ == krb5kdc_probes()[i],
    {
        let mut probe_specs: Vec<ProbeSpec> = Vec::new();
        probe_specs.push(
            ProbeSpec {
                handler_name: "count_finish_process_as_req".to_owned(),
                target_symbol: "finish_process_as_req".to_owned(),
                kind: ProbeKind::EntryProbe,
                table_name: "counts_finish_process_as_req".to_owned(),
            },
        );
        probe_specs.push(
            ProbeSpec {
                handler_name: "count_finish_dispatch_cache".to_owned(),
                target_symbol: "finish_dispatch_cache".to_owned(),
                kind: ProbeKind::EntryProbe,
                table_name: "counts_finish_dispatch_cache".to_owned(),
            },
        );
        probe_specs.push(
            ProbeSpec {
                handler_name: "count_process_tgs_req".to_owned(),
                target_symbol: "process_tgs_req".to_owned(),
                kind: ProbeKind::ReturnProbe,
                table_name: "counts_process_tgs_req".to_owned(),
            },
        );
        InstrumentationTarget { binary_path, probe_specs }
    }
}

} // verus!
