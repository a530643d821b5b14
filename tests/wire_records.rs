use systemd_bus::job::{read_job_dto, Job, Systemd1ManagerJobNew, Systemd1ManagerJobRemoved};
use systemd_bus::manager::{Systemd1ManagerReloading, Systemd1ManagerStartupFinished};
use systemd_bus::properties::DBusPropertiesPropertiesChanged;
use systemd_bus::unit::{
    read_unit_status_dto, Systemd1ManagerUnitFilesChanged, Systemd1ManagerUnitNew, Systemd1ManagerUnitRemoved,
    SystemdUnitStatus,
};
use systemd_bus::wire::{check_shape, valid_object_path, ObjectPath, TypeMismatchError, WireKind, WireValue};

fn path(s: &str) -> ObjectPath {
    ObjectPath::new(s.to_string()).unwrap()
}

#[test]
fn object_path_grammar() {
    assert!(valid_object_path("/"));
    assert!(valid_object_path("/org/freedesktop/systemd1"));
    assert!(valid_object_path("/org/freedesktop/systemd1/unit/sshd_2eservice"));
    assert!(!valid_object_path(""));
    assert!(!valid_object_path("org/freedesktop"));
    assert!(!valid_object_path("/org/"));
    assert!(!valid_object_path("//org"));
    assert!(!valid_object_path("/org/free-desktop"));
    assert!(ObjectPath::new("/a//b".to_string()).is_none());
    assert_eq!(path("/a/b").as_str(), "/a/b");
}

#[test]
fn shape_check_reports_first_difference() {
    let args = vec![WireValue::Uint32(1), WireValue::Str("x".to_string())];
    assert_eq!(check_shape(&args, &vec![WireKind::Uint32, WireKind::Str]), Ok(()));
    assert_eq!(
        check_shape(&args, &vec![WireKind::Uint32, WireKind::ObjPath]),
        Err(TypeMismatchError { position: 1, expected: Some(WireKind::ObjPath), found: Some(WireKind::Str) })
    );
    assert_eq!(
        check_shape(&args, &vec![WireKind::Uint32]),
        Err(TypeMismatchError { position: 1, expected: None, found: Some(WireKind::Str) })
    );
    assert_eq!(
        check_shape(&args, &vec![WireKind::Uint32, WireKind::Str, WireKind::Bool]),
        Err(TypeMismatchError { position: 2, expected: Some(WireKind::Bool), found: None })
    );
}

#[test]
fn job_new_round_trip() {
    let sig = Systemd1ManagerJobNew { id: 17, job_path: path("/org/freedesktop/systemd1/job/17"), unit: "a.service".to_string() };
    let mut out = Vec::new();
    sig.append(&mut out);
    assert_eq!(out.len(), 3);
    assert_eq!(out[0], WireValue::Uint32(17));
    assert_eq!(Systemd1ManagerJobNew::read(out), Ok(sig));
}

#[test]
fn job_new_rejects_wrong_shape() {
    let args = vec![WireValue::Uint32(17), WireValue::Str("/j".to_string()), WireValue::Str("a.service".to_string())];
    assert_eq!(
        Systemd1ManagerJobNew::read(args),
        Err(TypeMismatchError { position: 1, expected: Some(WireKind::ObjPath), found: Some(WireKind::Str) })
    );
}

#[test]
fn job_removed_round_trip() {
    let sig = Systemd1ManagerJobRemoved {
        id: 3,
        job_path: path("/org/freedesktop/systemd1/job/3"),
        unit: "b.service".to_string(),
        result: "done".to_string(),
    };
    let mut out = vec![WireValue::Bool(true)];
    sig.append(&mut out);
    assert_eq!(out.len(), 5);
    out.remove(0);
    assert_eq!(Systemd1ManagerJobRemoved::read(out), Ok(sig));
}

#[test]
fn unit_signals_round_trip() {
    let added = Systemd1ManagerUnitNew { arg0: "c.service".to_string(), arg1: path("/org/freedesktop/systemd1/unit/c") };
    let mut out = Vec::new();
    added.append(&mut out);
    assert_eq!(Systemd1ManagerUnitNew::read(out), Ok(added));

    let removed = Systemd1ManagerUnitRemoved { arg0: "c.service".to_string(), arg1: path("/u") };
    let mut out = Vec::new();
    removed.append(&mut out);
    assert_eq!(Systemd1ManagerUnitRemoved::read(out), Ok(removed));

    let mut out = Vec::new();
    Systemd1ManagerUnitFilesChanged.append(&mut out);
    assert!(out.is_empty());
    assert_eq!(Systemd1ManagerUnitFilesChanged::read(out), Ok(Systemd1ManagerUnitFilesChanged));
    assert_eq!(
        Systemd1ManagerUnitFilesChanged::read(vec![WireValue::Bool(false)]),
        Err(TypeMismatchError { position: 0, expected: None, found: Some(WireKind::Bool) })
    );
}

#[test]
fn startup_and_reloading_round_trip() {
    let done = Systemd1ManagerStartupFinished { arg0: 1, arg1: 2, arg2: 3, arg3: 4, arg4: 5, arg5: u64::MAX };
    let mut out = Vec::new();
    done.append(&mut out);
    assert_eq!(out[5], WireValue::Uint64(u64::MAX));
    assert_eq!(Systemd1ManagerStartupFinished::read(out), Ok(done));

    let r = Systemd1ManagerReloading { arg0: true };
    let mut out = Vec::new();
    r.append(&mut out);
    assert_eq!(out, vec![WireValue::Bool(true)]);
    assert_eq!(Systemd1ManagerReloading::read(out), Ok(Systemd1ManagerReloading { arg0: true }));
}

#[test]
fn properties_changed_round_trip() {
    let make = || DBusPropertiesPropertiesChanged {
        interface: "org.freedesktop.systemd1.Unit".to_string(),
        changed_properties: vec![
            ("ActiveState".to_string(), WireValue::Str("active".to_string())),
            ("NRestarts".to_string(), WireValue::Uint32(2)),
        ],
        invalidated_properties: vec!["Job".to_string()],
    };
    let mut out = Vec::new();
    make().append(&mut out);
    assert_eq!(out.len(), 3);
    assert_eq!(DBusPropertiesPropertiesChanged::read(out), Ok(make()));
}

#[test]
fn job_dto_round_trip() {
    let job = Job {
        job_id: 9,
        name: "d.service".to_string(),
        job_type: "start".to_string(),
        job_state: "waiting".to_string(),
        job_path: path("/org/freedesktop/systemd1/job/9"),
        path: path("/org/freedesktop/systemd1/unit/d"),
    };
    let mut out = Vec::new();
    job.append(&mut out);
    let dto = read_job_dto(out).unwrap();
    assert_eq!(dto.0, 9);
    assert_eq!(dto.3, "waiting");
    let back = Job::from(dto);
    assert_eq!(back, job);
}

#[test]
fn unit_status_dto_round_trip() {
    let unit = SystemdUnitStatus {
        name: "sshd.service".to_string(),
        description: "OpenSSH server".to_string(),
        loaded: "loaded".to_string(),
        active: "active".to_string(),
        status: "running".to_string(),
        hwid: "".to_string(),
        object_path: path("/org/freedesktop/systemd1/unit/sshd_2eservice"),
        jod_id: 0,
        job_type: "".to_string(),
        job_path: path("/"),
    };
    let mut out = Vec::new();
    unit.append(&mut out);
    assert_eq!(out.len(), 10);
    let back = SystemdUnitStatus::from(read_unit_status_dto(out).unwrap());
    assert_eq!(back, unit);
}
