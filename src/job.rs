use vstd::prelude::*;
use crate::wire::{
    check_shape, into_path, into_string, into_u32, kinds, reports_mismatch, take_last, ObjectPath,
    TypeMismatchError, WireKind, WireValue,
};

verus! {

/// A queued job as the manager lists it: id, unit, job type, state, job
/// object and unit object, in wire order.
pub type JobDto = (u32, String, String, String, ObjectPath, ObjectPath);

/// The positional shape of a listed job.
pub open spec fn job_shape() -> Seq<WireKind> {
    seq![WireKind::Uint32, WireKind::Str, WireKind::Str, WireKind::Str, WireKind::ObjPath, WireKind::ObjPath]
}

pub(crate) fn job_shape_vec() -> (r: Vec<WireKind>)
    ensures
        r@ == job_shape(),
{
    vec![WireKind::Uint32, WireKind::Str, WireKind::Str, WireKind::Str, WireKind::ObjPath, WireKind::ObjPath]
}

/// The values of a listed job, in wire order.
pub open spec fn job_dto_wire(d: JobDto) -> Seq<WireValue> {
    seq![
        WireValue::Uint32(d.0),
        WireValue::Str(d.1),
        WireValue::Str(d.2),
        WireValue::Str(d.3),
        WireValue::ObjPath(d.4),
        WireValue::ObjPath(d.5),
    ]
}

/// The job whose values are `s`, which has the job shape.
pub open spec fn job_dto_of(s: Seq<WireValue>) -> JobDto {
    (s[0]->Uint32_0, s[1]->Str_0, s[2]->Str_0, s[3]->Str_0, s[4]->ObjPath_0, s[5]->ObjPath_0)
}

/// Reads the fields of one listed job.
pub fn read_job_dto(fields: Vec<WireValue>) -> (r: Result<JobDto, TypeMismatchError>)
    ensures
        match r {
            Ok(d) => kinds(fields@) == job_shape() && d == job_dto_of(fields@),
            Err(e) => kinds(fields@) != job_shape() && reports_mismatch(e, kinds(fields@), job_shape()),
        },
{
    let shape = job_shape_vec();
    match check_shape(&fields, &shape) {
        Err(e) => Err(e),
        Ok(()) => {
            let ghost s = fields@;
            assert(s.len() == kinds(s).len());
            assert(kinds(s)[5] == WireKind::ObjPath && kinds(s)[4] == WireKind::ObjPath);
            assert(kinds(s)[0] == WireKind::Uint32 && kinds(s)[1] == WireKind::Str);
            assert(kinds(s)[2] == WireKind::Str && kinds(s)[3] == WireKind::Str);
            let mut fields = fields;
            let path = into_path(take_last(&mut fields));
            let job_path = into_path(take_last(&mut fields));
            let state = into_string(take_last(&mut fields));
            let job_type = into_string(take_last(&mut fields));
            let name = into_string(take_last(&mut fields));
            let id = into_u32(take_last(&mut fields));
            Ok((id, name, job_type, state, job_path, path))
        },
    }
}

/// A job of the manager, by field name.
#[derive(Debug, PartialEq, Eq)]
pub struct Job {
    pub job_id: u32,
    pub name: String,
    pub job_type: String,
    pub job_state: String,
    pub job_path: ObjectPath,
    pub path: ObjectPath,
}

impl Job {
    /// The wire tuple of this job.
    pub open spec fn dto(self) -> JobDto {
        (self.job_id, self.name, self.job_type, self.job_state, self.job_path, self.path)
    }

    /// The job named by the fields of `j`.
    pub open spec fn of_dto(j: JobDto) -> Job {
        Job { job_id: j.0, name: j.1, job_type: j.2, job_state: j.3, job_path: j.4, path: j.5 }
    }

    /// Appends the fields of this job to `out`, in wire order.
    pub fn append(&self, out: &mut Vec<WireValue>)
        ensures
            final(out)@ == old(out)@ + job_dto_wire(self.dto()),
    {
        out.push(WireValue::Uint32(self.job_id));
        out.push(WireValue::Str(self.name.clone()));
        out.push(WireValue::Str(self.job_type.clone()));
        out.push(WireValue::Str(self.job_state.clone()));
        out.push(WireValue::ObjPath(self.job_path.duplicate()));
        out.push(WireValue::ObjPath(self.path.duplicate()));
        assert(final(out)@ =~= old(out)@ + job_dto_wire(self.dto()));
    }
}

impl From<JobDto> for Job {
    fn from(j: JobDto) -> (r: Job) {
        Job { job_id: j.0, name: j.1, job_type: j.2, job_state: j.3, job_path: j.4, path: j.5 }
    }
}

impl vstd::std_specs::convert::FromSpecImpl<JobDto> for Job {
    open spec fn obeys_from_spec() -> bool {
        true
    }

    open spec fn from_spec(j: JobDto) -> Job {
        Job::of_dto(j)
    }
}

/// A job as wire values reads back as the same job: the fields have the job
/// shape, and the tuple they give names the job again.
pub proof fn lemma_job_round_trip(j: Job)
    ensures
        kinds(job_dto_wire(j.dto())) == job_shape(),
        Job::of_dto(job_dto_of(job_dto_wire(j.dto()))) == j,
{
    assert(kinds(job_dto_wire(j.dto())) =~= job_shape());
}

/// Signal sent when the manager queues a new job.
#[derive(Clone, Debug, PartialEq, Eq)]
pub struct Systemd1ManagerJobNew {
    pub id: u32,
    pub job_path: ObjectPath,
    pub unit: String,
}

impl Systemd1ManagerJobNew {
    /// The positional shape of this record on the wire.
    pub open spec fn shape() -> Seq<WireKind> {
        seq![WireKind::Uint32, WireKind::ObjPath, WireKind::Str]
    }

    /// The values of this record, in wire order.
    pub open spec fn wire(self) -> Seq<WireValue> {
        seq![WireValue::Uint32(self.id), WireValue::ObjPath(self.job_path), WireValue::Str(self.unit)]
    }

    /// The record whose values are `s`, which has the record's shape.
    pub open spec fn of_wire(s: Seq<WireValue>) -> Self {
        Systemd1ManagerJobNew { id: s[0]->Uint32_0, job_path: s[1]->ObjPath_0, unit: s[2]->Str_0 }
    }

    pub(crate) fn shape_vec() -> (r: Vec<WireKind>)
        ensures
            r@ == Self::shape(),
    {
        vec![WireKind::Uint32, WireKind::ObjPath, WireKind::Str]
    }

    /// Appends the values of this record to `out`, in wire order.
    pub fn append(&self, out: &mut Vec<WireValue>)
        ensures
            final(out)@ == old(out)@ + self.wire(),
    {
        out.push(WireValue::Uint32(self.id));
        out.push(WireValue::ObjPath(self.job_path.duplicate()));
        out.push(WireValue::Str(self.unit.clone()));
        assert(final(out)@ =~= old(out)@ + self.wire());
    }

    /// Reads the record from `args`: `Ok` exactly when the values have the
    /// record's shape, else the first position where they break it.
    pub fn read(args: Vec<WireValue>) -> (r: Result<Systemd1ManagerJobNew, TypeMismatchError>)
        ensures
            match r {
                Ok(x) => kinds(args@) == Self::shape() && x == Self::of_wire(args@),
                Err(e) => kinds(args@) != Self::shape() && reports_mismatch(e, kinds(args@), Self::shape()),
            },
    {
        let shape = Self::shape_vec();
        match check_shape(&args, &shape) {
            Err(e) => Err(e),
            Ok(()) => {
                let ghost s = args@;
                assert(s.len() == kinds(s).len());
                assert(kinds(s)[0] == WireKind::Uint32);
                assert(kinds(s)[1] == WireKind::ObjPath);
                assert(kinds(s)[2] == WireKind::Str);
                let mut args = args;
                let unit = into_string(take_last(&mut args));
                let job_path = into_path(take_last(&mut args));
                let id = into_u32(take_last(&mut args));
                Ok(Systemd1ManagerJobNew { id, job_path, unit })
            },
        }
    }
}

/// A new-job signal read back from its own values is the same signal.
pub proof fn lemma_job_new_round_trip(x: Systemd1ManagerJobNew)
    ensures
        kinds(x.wire()) == Systemd1ManagerJobNew::shape(),
        Systemd1ManagerJobNew::of_wire(x.wire()) == x,
{
    assert(kinds(x.wire()) =~= Systemd1ManagerJobNew::shape());
}

/// Signal sent when a job of the manager finishes or is cancelled.
#[derive(Clone, Debug, PartialEq, Eq)]
pub struct Systemd1ManagerJobRemoved {
    pub id: u32,
    pub job_path: ObjectPath,
    pub unit: String,
    pub result: String,
}

impl Systemd1ManagerJobRemoved {
    /// The positional shape of this record on the wire.
    pub open spec fn shape() -> Seq<WireKind> {
        seq![WireKind::Uint32, WireKind::ObjPath, WireKind::Str, WireKind::Str]
    }

    /// The values of this record, in wire order.
    pub open spec fn wire(self) -> Seq<WireValue> {
        seq![WireValue::Uint32(self.id), WireValue::ObjPath(self.job_path), WireValue::Str(self.unit), WireValue::Str(self.result)]
    }

    /// The record whose values are `s`, which has the record's shape.
    pub open spec fn of_wire(s: Seq<WireValue>) -> Self {
        Systemd1ManagerJobRemoved { id: s[0]->Uint32_0, job_path: s[1]->ObjPath_0, unit: s[2]->Str_0, result: s[3]->Str_0 }
    }

    pub(crate) fn shape_vec() -> (r: Vec<WireKind>)
        ensures
            r@ == Self::shape(),
    {
        vec![WireKind::Uint32, WireKind::ObjPath, WireKind::Str, WireKind::Str]
    }

    /// Appends the values of this record to `out`, in wire order.
    pub fn append(&self, out: &mut Vec<WireValue>)
        ensures
            final(out)@ == old(out)@ + self.wire(),
    {
        out.push(WireValue::Uint32(self.id));
        out.push(WireValue::ObjPath(self.job_path.duplicate()));
        out.push(WireValue::Str(self.unit.clone()));
        out.push(WireValue::Str(self.result.clone()));
        assert(final(out)@ =~= old(out)@ + self.wire());
    }

    /// Reads the record from `args`: `Ok` exactly when the values have the
    /// record's shape, else the first position where they break it.
    pub fn read(args: Vec<WireValue>) -> (r: Result<Systemd1ManagerJobRemoved, TypeMismatchError>)
        ensures
            match r {
                Ok(x) => kinds(args@) == Self::shape() && x == Self::of_wire(args@),
                Err(e) => kinds(args@) != Self::shape() && reports_mismatch(e, kinds(args@), Self::shape()),
            },
    {
        let shape = Self::shape_vec();
        match check_shape(&args, &shape) {
            Err(e) => Err(e),
            Ok(()) => {
                let ghost s = args@;
                assert(s.len() == kinds(s).len());
                assert(kinds(s)[0] == WireKind::Uint32);
                assert(kinds(s)[1] == WireKind::ObjPath);
                assert(kinds(s)[2] == WireKind::Str);
                assert(kinds(s)[3] == WireKind::Str);
                let mut args = args;
                let result = into_string(take_last(&mut args));
                let unit = into_string(take_last(&mut args));
                let job_path = into_path(take_last(&mut args));
                let id = into_u32(take_last(&mut args));
                Ok(Systemd1ManagerJobRemoved { id, job_path, unit, result })
            },
        }
    }
}

/// A job-removed signal read back from its own values is the same signal.
pub proof fn lemma_job_removed_round_trip(x: Systemd1ManagerJobRemoved)
    ensures
        kinds(x.wire()) == Systemd1ManagerJobRemoved::shape(),
        Systemd1ManagerJobRemoved::of_wire(x.wire()) == x,
{
    assert(kinds(x.wire()) =~= Systemd1ManagerJobRemoved::shape());
}


} // verus!
