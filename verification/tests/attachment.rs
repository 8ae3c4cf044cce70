use krb5kdc_sampler::attach::{
    AttachAction, AttachError, AttachEvent, AttachPhase, Attachment,
};
use krb5kdc_sampler::probe::{InstrumentationTarget, ProbeKind, ProbeSpec};

fn daemon() -> InstrumentationTarget {
    InstrumentationTarget::krb5kdc("/usr/sbin/krb5kdc".to_string())
}

fn run(target: &InstrumentationTarget, fault_tolerant: bool, events: &[AttachEvent]) -> (
    Attachment,
    Vec<AttachAction>,
) {
    let (mut attachment, first) = Attachment::new(target, fault_tolerant);
    let mut actions = vec![first];
    for event in events {
        let (next, action) = attachment.step(*event);
        attachment = next;
        actions.push(action);
    }
    (attachment, actions)
}

#[test]
fn daemon_has_three_probes() {
    let target = daemon();
    assert_eq!(target.binary_path, "/usr/sbin/krb5kdc");
    assert_eq!(target.probe_specs.len(), 3);
    let expected = [
        ("count_finish_process_as_req", "finish_process_as_req", ProbeKind::EntryProbe,
            "counts_finish_process_as_req"),
        ("count_finish_dispatch_cache", "finish_dispatch_cache", ProbeKind::EntryProbe,
            "counts_finish_dispatch_cache"),
        ("count_process_tgs_req", "process_tgs_req", ProbeKind::ReturnProbe,
            "counts_process_tgs_req"),
    ];
    for i in 0..3 {
        assert_eq!(target.probe_specs[i].handler_name, expected[i].0);
        assert_eq!(target.probe_specs[i].target_symbol, expected[i].1);
        assert_eq!(target.probe_specs[i].kind, expected[i].2);
        assert_eq!(target.probe_specs[i].table_name, expected[i].3);
    }
}

#[test]
fn probe_spec_keeps_its_fields() {
    let spec = ProbeSpec::new(
        "handler".to_string(),
        "symbol".to_string(),
        ProbeKind::ReturnProbe,
        "table".to_string(),
    );
    assert_eq!(spec.handler_name, "handler");
    assert_eq!(spec.target_symbol, "symbol");
    assert_eq!(spec.kind, ProbeKind::ReturnProbe);
    assert_eq!(spec.table_name, "table");
    let target = InstrumentationTarget::new("/bin/daemon".to_string(), vec![spec]);
    assert_eq!(target.binary_path, "/bin/daemon");
    assert_eq!(target.probe_specs.len(), 1);
}

#[test]
fn attachment_starts_by_loading() {
    let (attachment, action) = Attachment::new(&daemon(), false);
    assert_eq!(action, AttachAction::LoadProgram);
    assert_eq!(attachment.phase(), AttachPhase::Loading);
    let report = attachment.report();
    assert!(report.succeeded.is_empty());
    assert!(report.failed.is_empty());
}

#[test]
fn all_probes_bind() {
    let events = [
        AttachEvent::ProgramLoaded(true),
        AttachEvent::Bound(true),
        AttachEvent::Bound(true),
        AttachEvent::Bound(true),
    ];
    for fault_tolerant in [false, true] {
        let (attachment, actions) = run(&daemon(), fault_tolerant, &events);
        assert_eq!(
            actions,
            vec![
                AttachAction::LoadProgram,
                AttachAction::Bind { index: 0 },
                AttachAction::Bind { index: 1 },
                AttachAction::Bind { index: 2 },
                AttachAction::Complete,
            ]
        );
        assert_eq!(attachment.phase(), AttachPhase::Attached);
        let report = attachment.report();
        assert_eq!(report.succeeded, vec![0, 1, 2]);
        assert!(report.failed.is_empty());
    }
}

#[test]
fn fault_tolerant_attachment_skips_failed_probe() {
    let events = [
        AttachEvent::ProgramLoaded(true),
        AttachEvent::Bound(true),
        AttachEvent::Bound(false),
        AttachEvent::Bound(true),
    ];
    let (attachment, actions) = run(&daemon(), true, &events);
    assert_eq!(
        actions,
        vec![
            AttachAction::LoadProgram,
            AttachAction::Bind { index: 0 },
            AttachAction::Bind { index: 1 },
            AttachAction::Bind { index: 2 },
            AttachAction::Complete,
        ]
    );
    assert_eq!(attachment.phase(), AttachPhase::Attached);
    let report = attachment.report();
    assert_eq!(report.succeeded, vec![0, 2]);
    assert_eq!(report.failed, vec![1]);
}

#[test]
fn fault_tolerant_attachment_completes_when_every_probe_fails() {
    let events = [
        AttachEvent::ProgramLoaded(true),
        AttachEvent::Bound(false),
        AttachEvent::Bound(false),
        AttachEvent::Bound(false),
    ];
    let (attachment, actions) = run(&daemon(), true, &events);
    assert_eq!(actions[4], AttachAction::Complete);
    assert_eq!(attachment.phase(), AttachPhase::Attached);
    let report = attachment.report();
    assert!(report.succeeded.is_empty());
    assert_eq!(report.failed, vec![0, 1, 2]);
}

#[test]
fn strict_attachment_stops_at_failed_probe() {
    let events = [
        AttachEvent::ProgramLoaded(true),
        AttachEvent::Bound(true),
        AttachEvent::Bound(false),
    ];
    let (attachment, actions) = run(&daemon(), false, &events);
    assert_eq!(
        actions,
        vec![
            AttachAction::LoadProgram,
            AttachAction::Bind { index: 0 },
            AttachAction::Bind { index: 1 },
            AttachAction::Abort(AttachError::ProbeAttach { index: 1 }),
        ]
    );
    assert_eq!(attachment.phase(), AttachPhase::Failed);
    let (attachment, action) = attachment.step(AttachEvent::Bound(true));
    assert_eq!(action, AttachAction::Rejected);
    assert_eq!(attachment.phase(), AttachPhase::Failed);
    let report = attachment.report();
    assert_eq!(report.succeeded, vec![0]);
    assert_eq!(report.failed, vec![1]);
}

#[test]
fn load_failure_is_fatal_even_when_fault_tolerant() {
    for fault_tolerant in [false, true] {
        let (attachment, actions) =
            run(&daemon(), fault_tolerant, &[AttachEvent::ProgramLoaded(false)]);
        assert_eq!(
            actions,
            vec![AttachAction::LoadProgram, AttachAction::Abort(AttachError::ProgramLoad)]
        );
        assert_eq!(attachment.phase(), AttachPhase::Failed);
    }
}

#[test]
fn target_without_probes_is_complete_once_loaded() {
    let target = InstrumentationTarget::new("/bin/daemon".to_string(), Vec::new());
    let (attachment, actions) = run(&target, false, &[AttachEvent::ProgramLoaded(true)]);
    assert_eq!(actions, vec![AttachAction::LoadProgram, AttachAction::Complete]);
    assert_eq!(attachment.phase(), AttachPhase::Attached);
}

#[test]
fn event_of_another_phase_is_rejected() {
    let (attachment, _) = Attachment::new(&daemon(), true);
    let (attachment, action) = attachment.step(AttachEvent::Bound(true));
    assert_eq!(action, AttachAction::Rejected);
    assert_eq!(attachment.phase(), AttachPhase::Loading);
    let (attachment, _) = attachment.step(AttachEvent::ProgramLoaded(true));
    let (attachment, action) = attachment.step(AttachEvent::ProgramLoaded(true));
    assert_eq!(action, AttachAction::Rejected);
    assert_eq!(attachment.phase(), AttachPhase::Binding);
    let (attachment, _) = run(
        &daemon(),
        true,
        &[
            AttachEvent::ProgramLoaded(true),
            AttachEvent::Bound(true),
            AttachEvent::Bound(true),
            AttachEvent::Bound(true),
        ],
    );
    let (attachment, action) = attachment.step(AttachEvent::Bound(false));
    assert_eq!(action, AttachAction::Rejected);
    assert_eq!(attachment.phase(), AttachPhase::Attached);
    assert_eq!(attachment.report().succeeded, vec![0, 1, 2]);
}
