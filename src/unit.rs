use vstd::prelude::*;
use crate::wire::{
    check_shape, into_path, into_string, into_u32, kinds, reports_mismatch, take_last, ObjectPath,
    TypeMismatchError, WireKind, WireValue,
};

verus! {

/// A unit as the manager lists it, in wire order: name, description, load
/// state, active state, sub state, followed unit, unit object, job id, job
/// type and job object.
pub type UnitStatusDto = (String, String, String, String, String, String, ObjectPath, u32, String, ObjectPath);

/// The positional shape of a listed unit.
pub open spec fn unit_status_shape() -> Seq<WireKind> {
    seq![
        WireKind::Str, WireKind::Str, WireKind::Str, WireKind::Str, WireKind::Str,
        WireKind::Str, WireKind::ObjPath, WireKind::Uint32, WireKind::Str, WireKind::ObjPath,
    ]
}

pub(crate) fn unit_status_shape_vec() -> (r: Vec<WireKind>)
    ensures
        r@ == unit_status_shape(),
{
    vec![
        WireKind::Str, WireKind::Str, WireKind::Str, WireKind::Str, WireKind::Str,
        WireKind::Str, WireKind::ObjPath, WireKind::Uint32, WireKind::Str, WireKind::ObjPath,
    ]
}

/// The values of a listed unit, in wire order.
pub open spec fn unit_status_dto_wire(d: UnitStatusDto) -> Seq<WireValue> {
    seq![
        WireValue::Str(d.0), WireValue::Str(d.1), WireValue::Str(d.2), WireValue::Str(d.3),
        WireValue::Str(d.4), WireValue::Str(d.5), WireValue::ObjPath(d.6), WireValue::Uint32(d.7),
        WireValue::Str(d.8), WireValue::ObjPath(d.9),
    ]
}

/// The listed unit whose values are `s`, which has the listed-unit shape.
pub open spec fn unit_status_dto_of(s: Seq<WireValue>) -> UnitStatusDto {
    (
        s[0]->Str_0, s[1]->Str_0, s[2]->Str_0, s[3]->Str_0, s[4]->Str_0,
        s[5]->Str_0, s[6]->ObjPath_0, s[7]->Uint32_0, s[8]->Str_0, s[9]->ObjPath_0,
    )
}

/// Reads the fields of one listed unit.
pub fn read_unit_status_dto(fields: Vec<WireValue>) -> (r: Result<UnitStatusDto, TypeMismatchError>)
    ensures
        match r {
            Ok(d) => kinds(fields@) == unit_status_shape() && d == unit_status_dto_of(fields@),
            Err(e) => kinds(fields@) != unit_status_shape() && reports_mismatch(
                e,
                kinds(fields@),
                unit_status_shape(),
            ),
        },
{
    let shape = unit_status_shape_vec();
    match check_shape(&fields, &shape) {
        Err(e) => Err(e),
        Ok(()) => {
            let ghost s = fields@;
            assert(s.len() == kinds(s).len());
            assert(kinds(s)[0] == WireKind::Str && kinds(s)[1] == WireKind::Str);
            assert(kinds(s)[2] == WireKind::Str && kinds(s)[3] == WireKind::Str);
            assert(kinds(s)[4] == WireKind::Str && kinds(s)[5] == WireKind::Str);
            assert(kinds(s)[6] == WireKind::ObjPath && kinds(s)[7] == WireKind::Uint32);
            assert(kinds(s)[8] == WireKind::Str && kinds(s)[9] == WireKind::ObjPath);
            let mut fields = fields;
            let job_path = into_path(take_last(&mut fields));
            let job_type = into_string(take_last(&mut fields));
            let job_id = into_u32(take_last(&mut fields));
            let object_path = into_path(take_last(&mut fields));
            let followed = into_string(take_last(&mut fields));
            let sub = into_string(take_last(&mut fields));
            let active = into_string(take_last(&mut fields));
            let loaded = into_string(take_last(&mut fields));
            let description = into_string(take_last(&mut fields));
            let name = into_string(take_last(&mut fields));
            Ok((name, description, loaded, active, sub, followed, object_path, job_id, job_type, job_path))
        },
    }
}

/// A unit of the manager, by field name.
#[derive(Clone, Debug, PartialEq, Eq)]
pub struct SystemdUnitStatus {
    pub name: String,
    pub description: String,
    pub loaded: String,
    pub active: String,
    pub status: String,
    pub hwid: String,
    pub object_path: ObjectPath,
    pub jod_id: u32,
    pub job_type: String,
    pub job_path: ObjectPath,
}

impl SystemdUnitStatus {
    /// The wire tuple of this unit.
    pub open spec fn dto(self) -> UnitStatusDto {
        (
            self.name, self.description, self.loaded, self.active, self.status,
            self.hwid, self.object_path, self.jod_id, self.job_type, self.job_path,
        )
    }

    /// The unit named by the fields of `u`.
    pub open spec fn of_dto(u: UnitStatusDto) -> SystemdUnitStatus {
        SystemdUnitStatus {
            name: u.0,
            description: u.1,
            loaded: u.2,
            active: u.3,
            status: u.4,
            hwid: u.5,
            object_path: u.6,
            jod_id: u.7,
            job_type: u.8,
            job_path: u.9,
        }
    }

    /// Appends the fields of this unit to `out`, in wire order.
    pub fn append(&self, out: &mut Vec<WireValue>)
        ensures
            final(out)@ == old(out)@ + unit_status_dto_wire(self.dto()),
    {
        out.push(WireValue::Str(self.name.clone()));
        out.push(WireValue::Str(self.description.clone()));
        out.push(WireValue::Str(self.loaded.clone()));
        out.push(WireValue::Str(self.active.clone()));
        out.push(WireValue::Str(self.status.clone()));
        out.push(WireValue::Str(self.hwid.clone()));
        out.push(WireValue::ObjPath(self.object_path.duplicate()));
        out.push(WireValue::Uint32(self.jod_id));
        out.push(WireValue::Str(self.job_type.clone()));
        out.push(WireValue::ObjPath(self.job_path.duplicate()));
        assert(final(out)@ =~= old(out)@ + unit_status_dto_wire(self.dto()));
    }
}

impl From<UnitStatusDto> for SystemdUnitStatus {
    fn from(u: UnitStatusDto) -> (r: SystemdUnitStatus) {
        SystemdUnitStatus {
            name: u.0,
            description: u.1,
            loaded: u.2,
            active: u.3,
            status: u.4,
            hwid: u.5,
            object_path: u.6,
            jod_id: u.7,
            job_type: u.8,
            job_path: u.9,
        }
    }
}

impl vstd::std_specs::convert::FromSpecImpl<UnitStatusDto> for SystemdUnitStatus {
    open spec fn obeys_from_spec() -> bool {
        true
    }

    open spec fn from_spec(u: UnitStatusDto) -> SystemdUnitStatus {
        SystemdUnitStatus::of_dto(u)
    }
}

/// A unit as wire values reads back as the same unit: the fields have the
/// listed-unit shape, and the tuple they give names the unit again.
pub proof fn lemma_unit_status_round_trip(u: SystemdUnitStatus)
    ensures
        kinds(unit_status_dto_wire(u.dto())) == unit_status_shape(),
        SystemdUnitStatus::of_dto(unit_status_dto_of(unit_status_dto_wire(u.dto()))) == u,
{
    assert(kinds(unit_status_dto_wire(u.dto())) =~= unit_status_shape());
}

/// Signal sent when the manager loads a unit.
#[derive(Clone, Debug, PartialEq, Eq)]
pub struct Systemd1ManagerUnitNew {
    pub arg0: String,
    pub arg1: ObjectPath,
}

impl Systemd1ManagerUnitNew {
    /// The positional shape of this record on the wire.
    pub open spec fn shape() -> Seq<WireKind> {
        seq![WireKind::Str, WireKind::ObjPath]
    }

    /// The values of this record, in wire order.
    pub open spec fn wire(self) -> Seq<WireValue> {
        seq![WireValue::Str(self.arg0), WireValue::ObjPath(self.arg1)]
    }

    /// The record whose values are `s`, which has the record's shape.
    pub open spec fn of_wire(s: Seq<WireValue>) -> Self {
        Systemd1ManagerUnitNew { arg0: s[0]->Str_0, arg1: s[1]->ObjPath_0 }
    }

    pub(crate) fn shape_vec() -> (r: Vec<WireKind>)
        ensures
            r@ == Self::shape(),
    {
        vec![WireKind::Str, WireKind::ObjPath]
    }

    /// Appends the values of this record to `out`, in wire order.
    pub fn append(&self, out: &mut Vec<WireValue>)
        ensures
            final(out)@ == old(out)@ + self.wire(),
    {
        out.push(WireValue::Str(self.arg0.clone()));
        out.push(WireValue::ObjPath(self.arg1.duplicate()));
        assert(final(out)@ =~= old(out)@ + self.wire());
    }

    /// Reads the record from `args`: `Ok` exactly when the values have the
    /// record's shape, else the first position where they break it.
    pub fn read(args: Vec<WireValue>) -> (r: Result<Systemd1ManagerUnitNew, TypeMismatchError>)
        ensures
            match r {
                Ok(x) => kinds(args@) == Self::shape() && x == Self::of_wire(args@),
                Err(e) => kinds(args@) != Self::shape() && reports_mismatch(e, kinds(args@), Self::shape()),
            },
    {
        let shape = Self::shape_vec();
        match check_shape(&args, &shape) {
            Err(e) => Err(e),
            Ok(()) => {
                let ghost s = args@;
                assert(s.len() == kinds(s).len());
                assert(kinds(s)[0] == WireKind::Str);
                assert(kinds(s)[1] == WireKind::ObjPath);
                let mut args = args;
                let arg1 = into_path(take_last(&mut args));
                let arg0 = into_string(take_last(&mut args));
                Ok(Systemd1ManagerUnitNew { arg0, arg1 })
            },
        }
    }
}

/// A unit-new signal read back from its own values is the same signal.
pub proof fn lemma_unit_new_round_trip(x: Systemd1ManagerUnitNew)
    ensures
        kinds(x.wire()) == Systemd1ManagerUnitNew::shape(),
        Systemd1ManagerUnitNew::of_wire(x.wire()) == x,
{
    assert(kinds(x.wire()) =~= Systemd1ManagerUnitNew::shape());
}

/// Signal sent when the manager unloads a unit.
#[derive(Clone, Debug, PartialEq, Eq)]
pub struct Systemd1ManagerUnitRemoved {
    pub arg0: String,
    pub arg1: ObjectPath,
}

impl Systemd1ManagerUnitRemoved {
    /// The positional shape of this record on the wire.
    pub open spec fn shape() -> Seq<WireKind> {
        seq![WireKind::Str, WireKind::ObjPath]
    }

    /// The values of this record, in wire order.
    pub open spec fn wire(self) -> Seq<WireValue> {
        seq![WireValue::Str(self.arg0), WireValue::ObjPath(self.arg1)]
    }

    /// The record whose values are `s`, which has the record's shape.
    pub open spec fn of_wire(s: Seq<WireValue>) -> Self {
        Systemd1ManagerUnitRemoved { arg0: s[0]->Str_0, arg1: s[1]->ObjPath_0 }
    }

    pub(crate) fn shape_vec() -> (r: Vec<WireKind>)
        ensures
            r@ == Self::shape(),
    {
        vec![WireKind::Str, WireKind::ObjPath]
    }

    /// Appends the values of this record to `out`, in wire order.
    pub fn append(&self, out: &mut Vec<WireValue>)
        ensures
            final(out)@ == old(out)@ + self.wire(),
    {
        out.push(WireValue::Str(self.arg0.clone()));
        out.push(WireValue::ObjPath(self.arg1.duplicate()));
        assert(final(out)@ =~= old(out)@ + self.wire());
    }

    /// Reads the record from `args`: `Ok` exactly when the values have the
    /// record's shape, else the first position where they break it.
    pub fn read(args: Vec<WireValue>) -> (r: Result<Systemd1ManagerUnitRemoved, TypeMismatchError>)
        ensures
            match r {
                Ok(x) => kinds(args@) == Self::shape() && x == Self::of_wire(args@),
                Err(e) => kinds(args@) != Self::shape() && reports_mismatch(e, kinds(args@), Self::shape()),
            },
    {
        let shape = Self::shape_vec();
        match check_shape(&args, &shape) {
            Err(e) => Err(e),
            Ok(()) => {
                let ghost s = args@;
                assert(s.len() == kinds(s).len());
                assert(kinds(s)[0] == WireKind::Str);
                assert(kinds(s)[1] == WireKind::ObjPath);
                let mut args = args;
                let arg1 = into_path(take_last(&mut args));
                let arg0 = into_string(take_last(&mut args));
                Ok(Systemd1ManagerUnitRemoved { arg0, arg1 })
            },
        }
    }
}

/// A unit-removed signal read back from its own values is the same signal.
pub proof fn lemma_unit_removed_round_trip(x: Systemd1ManagerUnitRemoved)
    ensures
        kinds(x.wire()) == Systemd1ManagerUnitRemoved::shape(),
        Systemd1ManagerUnitRemoved::of_wire(x.wire()) == x,
{
    assert(kinds(x.wire()) =~= Systemd1ManagerUnitRemoved::shape());
}

/// Signal sent when unit files on disk change; it carries no values.
#[derive(Clone, Debug, PartialEq, Eq)]
pub struct Systemd1ManagerUnitFilesChanged;

impl Systemd1ManagerUnitFilesChanged {
    /// The positional shape of this record on the wire.
    pub open spec fn shape() -> Seq<WireKind> {
        seq![]
    }

    /// The values of this record, in wire order.
    pub open spec fn wire(self) -> Seq<WireValue> {
        seq![]
    }

    /// The record whose values are `s`, which has the record's shape.
    pub open spec fn of_wire(s: Seq<WireValue>) -> Self {
        Systemd1ManagerUnitFilesChanged
    }

    pub(crate) fn shape_vec() -> (r: Vec<WireKind>)
        ensures
            r@ == Self::shape(),
    {
        Vec::new()
    }

    /// Appends the values of this record to `out`, in wire order.
    pub fn append(&self, out: &mut Vec<WireValue>)
        ensures
            final(out)@ == old(out)@ + self.wire(),
    {
        assert(final(out)@ =~= old(out)@ + self.wire());
    }

    /// Reads the record from `args`: `Ok` exactly when the values have the
    /// record's shape, else the first position where they break it.
    pub fn read(args: Vec<WireValue>) -> (r: Result<Systemd1ManagerUnitFilesChanged, TypeMismatchError>)
        ensures
            match r {
                Ok(x) => kinds(args@) == Self::shape() && x == Self::of_wire(args@),
                Err(e) => kinds(args@) != Self::shape() && reports_mismatch(e, kinds(args@), Self::shape()),
            },
    {
        let shape = Self::shape_vec();
        match check_shape(&args, &shape) {
            Err(e) => Err(e),
            Ok(()) => {
                Ok(Systemd1ManagerUnitFilesChanged)
            },
        }
    }
}

/// A unit-files-changed signal read back from its own values is the same signal.
pub proof fn lemma_unit_files_changed_round_trip(x: Systemd1ManagerUnitFilesChanged)
    ensures
        kinds(x.wire()) == Systemd1ManagerUnitFilesChanged::shape(),
        Systemd1ManagerUnitFilesChanged::of_wire(x.wire()) == x,
{
    assert(kinds(x.wire()) =~= Systemd1ManagerUnitFilesChanged::shape());
}

} // verus!
