use systemd_bus::call::{
    classify_error, complete_call, decode_text, decode_unit, prepare_call, CallOutcome, Operation, RemoteObjectRef,
    RpcError, CALL_TIMEOUT_MS, HEALTH_TIMEOUT_MS,
};
use systemd_bus::manager::{decode_jobs, decode_units, property_list, DbusConnectionManager, ManagerCall};
use systemd_bus::mode::Mode;
use systemd_bus::signals::{identify_signal, Signal};
use systemd_bus::wire::{ObjectPath, WireKind, WireValue};

fn path(s: &str) -> ObjectPath {
    ObjectPath::new(s.to_string()).unwrap()
}

fn unit_fields(name: &str) -> Vec<WireValue> {
    vec![
        WireValue::Str(name.to_string()),
        WireValue::Str("desc".to_string()),
        WireValue::Str("loaded".to_string()),
        WireValue::Str("active".to_string()),
        WireValue::Str("running".to_string()),
        WireValue::Str("".to_string()),
        WireValue::ObjPath(path("/org/freedesktop/systemd1/unit/x")),
        WireValue::Uint32(0),
        WireValue::Str("".to_string()),
        WireValue::ObjPath(path("/")),
    ]
}

#[test]
fn start_unit_request_follows_descriptor() {
    let target = RemoteObjectRef::systemd();
    let call = ManagerCall::StartUnit { name: "a.service".to_string(), mode: Mode::Replace };
    assert_eq!(call.operation(), Operation::StartUnit);
    let req = call.into_request(&target);
    assert_eq!(req.destination, "org.freedesktop.systemd1");
    assert_eq!(req.path.as_str(), "/org/freedesktop/systemd1");
    assert_eq!(req.interface, "org.freedesktop.systemd1.Manager");
    assert_eq!(req.member, "StartUnit");
    assert_eq!(req.args, vec![WireValue::Str("a.service".to_string()), WireValue::Str("replace".to_string())]);
    assert_eq!(req.timeout_ms, CALL_TIMEOUT_MS);
    assert_eq!(CALL_TIMEOUT_MS, 10000);
}

#[test]
fn descriptor_table_entries() {
    let d = Operation::KillUnit.descriptor();
    assert_eq!(d.member, "KillUnit");
    assert_eq!(d.args, vec![WireKind::Str, WireKind::Str, WireKind::Int32]);
    assert!(d.reply.is_empty());
    let d = Operation::ListJobs.descriptor();
    assert!(d.args.is_empty());
    assert_eq!(d.reply, vec![WireKind::Array]);
    assert_eq!(Operation::Dump.descriptor().reply, vec![WireKind::Str]);
    assert_eq!(Operation::GetJob.descriptor().reply, vec![WireKind::ObjPath]);
}

#[test]
fn properties_become_pairs() {
    let list = property_list(vec![
        ("Description".to_string(), WireValue::Str("demo".to_string())),
        ("CPUWeight".to_string(), WireValue::Uint64(50)),
    ]);
    assert_eq!(
        list,
        WireValue::Array(vec![
            WireValue::Struct(vec![WireValue::Str("Description".to_string()), WireValue::Str("demo".to_string())]),
            WireValue::Struct(vec![WireValue::Str("CPUWeight".to_string()), WireValue::Uint64(50)]),
        ])
    );
    let req = ManagerCall::SetUnitProperties {
        name: "e.service".to_string(),
        runtime: true,
        properties: vec![("Description".to_string(), WireValue::Str("demo".to_string()))],
    }
    .into_request(&RemoteObjectRef::systemd());
    assert_eq!(req.member, "SetUnitProperties");
    assert_eq!(req.args.len(), 3);
    assert_eq!(req.args[1], WireValue::Bool(true));
}

#[test]
fn transient_unit_request() {
    let req = ManagerCall::StartTransientUnit {
        name: "run-1.service".to_string(),
        mode: Mode::Fail,
        properties: vec![],
        aux: vec![("run-1.scope".to_string(), vec![])],
    }
    .into_request(&RemoteObjectRef::systemd());
    assert_eq!(req.args[1], WireValue::Str("fail".to_string()));
    assert_eq!(req.args[2], WireValue::Array(vec![]));
    assert_eq!(
        req.args[3],
        WireValue::Array(vec![WireValue::Struct(vec![
            WireValue::Str("run-1.scope".to_string()),
            WireValue::Array(vec![]),
        ])])
    );
}

#[test]
fn prepare_call_checks_argument_shape() {
    let target = RemoteObjectRef::systemd();
    let ok = prepare_call(&target, Operation::GetJob, vec![WireValue::Uint32(4)]).unwrap();
    assert_eq!(ok.member, "GetJob");
    let err = prepare_call(&target, Operation::GetJob, vec![WireValue::Str("4".to_string())]);
    assert_eq!(
        err.err(),
        Some(RpcError::Marshalling {
            interface: "org.freedesktop.systemd1.Manager".to_string(),
            member: "GetJob".to_string(),
            expected: vec![WireKind::Uint32],
            actual: vec![WireKind::Str],
        })
    );
}

#[test]
fn reply_of_wrong_shape_is_marshalling_error() {
    let r = complete_call(Operation::StartUnit, CallOutcome::Reply(vec![WireValue::Str("/x".to_string())]));
    assert_eq!(
        r,
        Err(RpcError::Marshalling {
            interface: "org.freedesktop.systemd1.Manager".to_string(),
            member: "StartUnit".to_string(),
            expected: vec![WireKind::ObjPath],
            actual: vec![WireKind::Str],
        })
    );
}

#[test]
fn bus_errors_are_classified() {
    let t = classify_error("org.freedesktop.DBus.Error.Timeout".to_string(), "Timeout waiting for reply".to_string());
    assert_eq!(t, RpcError::Timeout);
    let n = classify_error("org.freedesktop.DBus.Error.NoReply".to_string(), "".to_string());
    assert_eq!(n, RpcError::Timeout);
    let d = classify_error("org.freedesktop.DBus.Error.Disconnected".to_string(), "gone".to_string());
    assert_eq!(d, RpcError::Transport { message: "gone".to_string() });
    let r = classify_error("org.freedesktop.systemd1.NoSuchUnit".to_string(), "no".to_string());
    assert_eq!(r, RpcError::Remote { code: "org.freedesktop.systemd1.NoSuchUnit".to_string(), message: "no".to_string() });
}

#[test]
fn text_and_empty_replies() {
    let dump = decode_text(Operation::Dump, CallOutcome::Reply(vec![WireValue::Str("state".to_string())]));
    assert_eq!(dump, Ok("state".to_string()));
    assert_eq!(decode_unit(Operation::Subscribe, CallOutcome::Reply(vec![])), Ok(()));
    assert!(decode_unit(Operation::Subscribe, CallOutcome::Reply(vec![WireValue::Bool(true)])).is_err());
}

#[test]
fn unit_list_decodes_each_record() {
    let reply = CallOutcome::Reply(vec![WireValue::Array(vec![
        WireValue::Struct(unit_fields("a.service")),
        WireValue::Struct(unit_fields("b.service")),
    ])]);
    let units = decode_units(Operation::ListUnits, reply).unwrap();
    assert_eq!(units.len(), 2);
    assert_eq!(units[0].name, "a.service");
    assert_eq!(units[1].name, "b.service");
    assert_eq!(units[1].status, "running");
}

#[test]
fn unit_list_with_bad_record_is_marshalling_error() {
    let mut bad = unit_fields("b.service");
    bad[7] = WireValue::Str("0".to_string());
    let reply = CallOutcome::Reply(vec![WireValue::Array(vec![WireValue::Struct(unit_fields("a.service")), WireValue::Struct(bad)])]);
    match decode_units(Operation::ListUnits, reply) {
        Err(RpcError::Marshalling { member, expected, actual, .. }) => {
            assert_eq!(member, "ListUnits");
            assert_eq!(expected.len(), 10);
            assert_eq!(actual[7], WireKind::Str);
        }
        other => panic!("unexpected {:?}", other),
    }
    let reply = CallOutcome::Reply(vec![WireValue::Array(vec![WireValue::Uint32(1)])]);
    match decode_units(Operation::ListUnits, reply) {
        Err(RpcError::Marshalling { actual, .. }) => assert_eq!(actual, vec![WireKind::Uint32]),
        other => panic!("unexpected {:?}", other),
    }
}

#[test]
fn job_list_decodes() {
    let job = vec![
        WireValue::Uint32(5),
        WireValue::Str("f.service".to_string()),
        WireValue::Str("stop".to_string()),
        WireValue::Str("running".to_string()),
        WireValue::ObjPath(path("/org/freedesktop/systemd1/job/5")),
        WireValue::ObjPath(path("/org/freedesktop/systemd1/unit/f")),
    ];
    let jobs = decode_jobs(Operation::ListJobs, CallOutcome::Reply(vec![WireValue::Array(vec![WireValue::Struct(job)])])).unwrap();
    assert_eq!(jobs.len(), 1);
    assert_eq!(jobs[0].job_id, 5);
    assert_eq!(jobs[0].job_type, "stop");
    let err = decode_jobs(Operation::ListJobs, CallOutcome::Error { name: "org.freedesktop.DBus.Error.AccessDenied".to_string(), message: "no".to_string() });
    assert!(matches!(err, Err(RpcError::Remote { .. })));
}

#[test]
fn health_check_is_a_short_ping() {
    let req = DbusConnectionManager::health_check_request();
    assert_eq!(req.interface, "org.freedesktop.DBus.Peer");
    assert_eq!(req.member, "Ping");
    assert_eq!(req.path.as_str(), "/org/freedesktop/DBus");
    assert_eq!(req.timeout_ms, HEALTH_TIMEOUT_MS);
    assert_eq!(HEALTH_TIMEOUT_MS, 1000);
    assert!(DbusConnectionManager::recycle(&CallOutcome::Reply(vec![])));
    assert!(!DbusConnectionManager::recycle(&CallOutcome::Error { name: "x.Y".to_string(), message: "".to_string() }));
}

#[test]
fn signals_are_identified() {
    assert_eq!(identify_signal("org.freedesktop.systemd1.Manager", "JobRemoved"), Some(Signal::JobRemoved));
    assert_eq!(identify_signal("org.freedesktop.DBus.Properties", "PropertiesChanged"), Some(Signal::PropertiesChanged));
    assert_eq!(identify_signal("org.freedesktop.DBus.Properties", "JobNew"), None);
    assert_eq!(Signal::StartupFinished.member(), "StartupFinished");
}

#[test]
fn signal_payload_shapes() {
    assert_eq!(Signal::JobNew.shape(), vec![WireKind::Uint32, WireKind::ObjPath, WireKind::Str]);
    assert_eq!(Signal::Reloading.shape(), vec![WireKind::Bool]);
    assert!(Signal::UnitFilesChanged.shape().is_empty());
    assert_eq!(Signal::PropertiesChanged.interface(), "org.freedesktop.DBus.Properties");
}
