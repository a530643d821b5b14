use vstd::prelude::*;
use crate::call::{
    arg_shape, arg_signature, call_error, kinds_of, manager_interface, marshalling, marshalling_error, member_of, reply_fits,
    reply_shape, reply_values, request_for, complete_call, CallOutcome, CallRequest, Operation, RemoteObjectRef,
    RpcError, CALL_TIMEOUT_MS, HEALTH_TIMEOUT_MS,
};
use crate::job::{job_dto_of, job_shape, job_shape_vec, read_job_dto, Job};
use crate::mode::{mode_token, Mode};
use crate::unit::{read_unit_status_dto, unit_status_dto_of, unit_status_shape, unit_status_shape_vec, SystemdUnitStatus};
use crate::wire::{
    check_shape, into_bool, into_items, into_u64, kind_of, kinds, reports_mismatch, take_last, TypeMismatchError,
    WireKind, WireValue,
};

verus! {

/// Signal sent when boot-up finishes: the firmware, loader, kernel, initrd,
/// userspace and total times, in microseconds.
#[derive(Clone, Debug, PartialEq, Eq)]
pub struct Systemd1ManagerStartupFinished {
    pub arg0: u64,
    pub arg1: u64,
    pub arg2: u64,
    pub arg3: u64,
    pub arg4: u64,
    pub arg5: u64,
}

impl Systemd1ManagerStartupFinished {
    /// The positional shape of this record on the wire.
    pub open spec fn shape() -> Seq<WireKind> {
        seq![WireKind::Uint64, WireKind::Uint64, WireKind::Uint64, WireKind::Uint64, WireKind::Uint64, WireKind::Uint64]
    }

    /// The values of this record, in wire order.
    pub open spec fn wire(self) -> Seq<WireValue> {
        seq![WireValue::Uint64(self.arg0), WireValue::Uint64(self.arg1), WireValue::Uint64(self.arg2), WireValue::Uint64(self.arg3), WireValue::Uint64(self.arg4), WireValue::Uint64(self.arg5)]
    }

    /// The record whose values are `s`, which has the record's shape.
    pub open spec fn of_wire(s: Seq<WireValue>) -> Self {
        Systemd1ManagerStartupFinished { arg0: s[0]->Uint64_0, arg1: s[1]->Uint64_0, arg2: s[2]->Uint64_0, arg3: s[3]->Uint64_0, arg4: s[4]->Uint64_0, arg5: s[5]->Uint64_0 }
    }

    pub(crate) fn shape_vec() -> (r: Vec<WireKind>)
        ensures
            r@ == Self::shape(),
    {
        vec![WireKind::Uint64, WireKind::Uint64, WireKind::Uint64, WireKind::Uint64, WireKind::Uint64, WireKind::Uint64]
    }

    /// Appends the values of this record to `out`, in wire order.
    pub fn append(&self, out: &mut Vec<WireValue>)
        ensures
            final(out)@ == old(out)@ + self.wire(),
    {
        out.push(WireValue::Uint64(self.arg0));
        out.push(WireValue::Uint64(self.arg1));
        out.push(WireValue::Uint64(self.arg2));
        out.push(WireValue::Uint64(self.arg3));
        out.push(WireValue::Uint64(self.arg4));
        out.push(WireValue::Uint64(self.arg5));
        assert(final(out)@ =~= old(out)@ + self.wire());
    }

    /// Reads the record from `args`: `Ok` exactly when the values have the
    /// record's shape, else the first position where they break it.
    pub fn read(args: Vec<WireValue>) -> (r: Result<Systemd1ManagerStartupFinished, TypeMismatchError>)
        ensures
            match r {
                Ok(x) => kinds(args@) == Self::shape() && x == Self::of_wire(args@),
                Err(e) => kinds(args@) != Self::shape() && reports_mismatch(e, kinds(args@), Self::shape()),
            },
    {
        let shape = Self::shape_vec();
        match check_shape(&args, &shape) {
            Err(e) => Err(e),
            Ok(()) => {
                let ghost s = args@;
                assert(s.len() == kinds(s).len());
                assert(kinds(s)[0] == WireKind::Uint64);
                assert(kinds(s)[1] == WireKind::Uint64);
                assert(kinds(s)[2] == WireKind::Uint64);
                assert(kinds(s)[3] == WireKind::Uint64);
                assert(kinds(s)[4] == WireKind::Uint64);
                assert(kinds(s)[5] == WireKind::Uint64);
                let mut args = args;
                let arg5 = into_u64(take_last(&mut args));
                let arg4 = into_u64(take_last(&mut args));
                let arg3 = into_u64(take_last(&mut args));
                let arg2 = into_u64(take_last(&mut args));
                let arg1 = into_u64(take_last(&mut args));
                let arg0 = into_u64(take_last(&mut args));
                Ok(Systemd1ManagerStartupFinished { arg0, arg1, arg2, arg3, arg4, arg5 })
            },
        }
    }
}

/// A startup-finished signal read back from its own values is the same signal.
pub proof fn lemma_startup_finished_round_trip(x: Systemd1ManagerStartupFinished)
    ensures
        kinds(x.wire()) == Systemd1ManagerStartupFinished::shape(),
        Systemd1ManagerStartupFinished::of_wire(x.wire()) == x,
{
    assert(kinds(x.wire()) =~= Systemd1ManagerStartupFinished::shape());
}

/// Signal sent before (`true`) and after (`false`) the manager reloads.
#[derive(Clone, Debug, PartialEq, Eq)]
pub struct Systemd1ManagerReloading {
    pub arg0: bool,
}

impl Systemd1ManagerReloading {
    /// The positional shape of this record on the wire.
    pub open spec fn shape() -> Seq<WireKind> {
        seq![WireKind::Bool]
    }

    /// The values of this record, in wire order.
    pub open spec fn wire(self) -> Seq<WireValue> {
        seq![WireValue::Bool(self.arg0)]
    }

    /// The record whose values are `s`, which has the record's shape.
    pub open spec fn of_wire(s: Seq<WireValue>) -> Self {
        Systemd1ManagerReloading { arg0: s[0]->Bool_0 }
    }

    pub(crate) fn shape_vec() -> (r: Vec<WireKind>)
        ensures
            r@ == Self::shape(),
    {
        vec![WireKind::Bool]
    }

    /// Appends the values of this record to `out`, in wire order.
    pub fn append(&self, out: &mut Vec<WireValue>)
        ensures
            final(out)@ == old(out)@ + self.wire(),
    {
        out.push(WireValue::Bool(self.arg0));
        assert(final(out)@ =~= old(out)@ + self.wire());
    }

    /// Reads the record from `args`: `Ok` exactly when the values have the
    /// record's shape, else the first position where they break it.
    pub fn read(args: Vec<WireValue>) -> (r: Result<Systemd1ManagerReloading, TypeMismatchError>)
        ensures
            match r {
                Ok(x) => kinds(args@) == Self::shape() && x == Self::of_wire(args@),
                Err(e) => kinds(args@) != Self::shape() && reports_mismatch(e, kinds(args@), Self::shape()),
            },
    {
        let shape = Self::shape_vec();
        match check_shape(&args, &shape) {
            Err(e) => Err(e),
            Ok(()) => {
                let ghost s = args@;
                assert(s.len() == kinds(s).len());
                assert(kinds(s)[0] == WireKind::Bool);
                let mut args = args;
                let arg0 = into_bool(take_last(&mut args));
                Ok(Systemd1ManagerReloading { arg0 })
            },
        }
    }
}

/// A reloading signal read back from its own values is the same signal.
pub proof fn lemma_reloading_round_trip(x: Systemd1ManagerReloading)
    ensures
        kinds(x.wire()) == Systemd1ManagerReloading::shape(),
        Systemd1ManagerReloading::of_wire(x.wire()) == x,
{
    assert(kinds(x.wire()) =~= Systemd1ManagerReloading::shape());
}
/// `w` is the list of `(name, value)` pairs `props`, as an array of pairs.
pub open spec fn is_property_list(w: WireValue, props: Seq<(String, WireValue)>) -> bool {
    &&& w is Array
    &&& w->Array_0@.len() == props.len()
    &&& forall|i: int|
        0 <= i < props.len() ==> {
            let item = #[trigger] w->Array_0@[i];
            &&& item is Struct
            &&& item->Struct_0@ == seq![WireValue::Str(props[i].0), props[i].1]
        }
}

/// `w` is the list of `(unit, properties)` pairs `aux`, as an array of pairs.
pub open spec fn is_aux_list(w: WireValue, aux: Seq<(String, Vec<(String, WireValue)>)>) -> bool {
    &&& w is Array
    &&& w->Array_0@.len() == aux.len()
    &&& forall|i: int|
        0 <= i < aux.len() ==> {
            let item = #[trigger] w->Array_0@[i];
            &&& item is Struct
            &&& item->Struct_0@.len() == 2
            &&& item->Struct_0@[0] == WireValue::Str(aux[i].0)
            &&& is_property_list(item->Struct_0@[1], aux[i].1@)
        }
}

/// The `(name, value)` pairs `props` as an array of pairs.
pub fn property_list(props: Vec<(String, WireValue)>) -> (r: WireValue)
    ensures
        is_property_list(r, props@),
{
    let ghost all = props@;
    let mut props = props;
    let mut items: Vec<WireValue> = Vec::new();
    while props.len() > 0
        invariant
            items@.len() + props@.len() == all.len(),
            props@ == all.subrange(items@.len() as int, all.len() as int),
            forall|i: int|
                0 <= i < items@.len() ==> {
                    let item = #[trigger] items@[i];
                    &&& item is Struct
                    &&& item->Struct_0@ == seq![WireValue::Str(all[i].0), all[i].1]
                },
        decreases props.len(),
    {
        let ghost k = items@.len() as int;
        let (name, value) = props.remove(0);
        assert(all[k] == (name, value));
        let pair = vec![WireValue::Str(name), value];
        items.push(WireValue::Struct(pair));
        assert(props@ =~= all.subrange(items@.len() as int, all.len() as int));
    }
    WireValue::Array(items)
}

/// The `(unit, properties)` pairs `aux` as an array of pairs.
pub fn aux_list(aux: Vec<(String, Vec<(String, WireValue)>)>) -> (r: WireValue)
    ensures
        is_aux_list(r, aux@),
{
    let ghost all = aux@;
    let mut aux = aux;
    let mut items: Vec<WireValue> = Vec::new();
    while aux.len() > 0
        invariant
            items@.len() + aux@.len() == all.len(),
            aux@ == all.subrange(items@.len() as int, all.len() as int),
            forall|i: int|
                0 <= i < items@.len() ==> {
                    let item = #[trigger] items@[i];
                    &&& item is Struct
                    &&& item->Struct_0@.len() == 2
                    &&& item->Struct_0@[0] == WireValue::Str(all[i].0)
                    &&& is_property_list(item->Struct_0@[1], all[i].1@)
                },
        decreases aux.len(),
    {
        let ghost k = items@.len() as int;
        let (unit, props) = aux.remove(0);
        assert(all[k] == (unit, props));
        let pair = vec![WireValue::Str(unit), property_list(props)];
        items.push(WireValue::Struct(pair));
        assert(aux@ =~= all.subrange(items@.len() as int, all.len() as int));
    }
    WireValue::Array(items)
}

/// A call of the manager together with its arguments.
#[derive(Debug, PartialEq)]
pub enum ManagerCall {
    /// Returns the object of a loaded unit.
    GetUnit { name: String },
    /// Returns the object of the unit that a process belongs to.
    GetUnitByPid { pid: u32 },
    /// Queues a start job for a unit.
    StartUnit { name: String, mode: Mode },
    /// Queues a start job for a unit, replacing a job of another unit.
    StartUnitReplace { old_unit: String, new_unit: String, mode: Mode },
    /// Queues a stop job for a unit.
    StopUnit { name: String, mode: Mode },
    /// Queues a reload job for a unit.
    ReloadUnit { name: String, mode: Mode },
    /// Queues a restart job for a unit.
    RestartUnit { name: String, mode: Mode },
    /// Queues a restart job for a unit that is running.
    TryRestartUnit { name: String, mode: Mode },
    /// Queues a reload job, or a restart job where the unit cannot reload.
    ReloadOrRestartUnit { name: String, mode: Mode },
    /// Queues a reload job, or a restart job of a running unit that cannot reload.
    ReloadOrTryRestartUnit { name: String, mode: Mode },
    /// Sends a signal to the processes of a unit.
    KillUnit { name: String, who: String, signal: i32 },
    /// Clears the failed state of a unit.
    ResetFailedUnit { name: String },
    /// Changes properties of a unit.
    SetUnitProperties { name: String, runtime: bool, properties: Vec<(String, WireValue)> },
    /// Creates and starts a unit that lives until it stops.
    StartTransientUnit { name: String, mode: Mode, properties: Vec<(String, WireValue)>, aux: Vec<(String, Vec<(String, WireValue)>)> },
    /// Returns the object of a job.
    GetJob { id: u32 },
    /// Cancels a job.
    CancelJob { id: u32 },
    /// Cancels every job.
    ClearJobs,
    /// Clears the failed state of every unit.
    ResetFailed,
    /// Lists the loaded units.
    ListUnits,
    /// Lists the loaded units whose states are named.
    ListUnitsFiltered { names: Vec<String> },
    /// Lists the queued jobs.
    ListJobs,
    /// Asks the manager to send its signals.
    Subscribe,
    /// Asks the manager to stop sending its signals.
    Unsubscribe,
    /// Returns a text dump of the manager's state.
    Dump,
    /// Reloads the configuration of the manager.
    Reload,
    /// Asks the manager to exit.
    Exit,
    /// Asks the manager to reboot.
    Reboot,
    /// Asks the manager to power off.
    PowerOff,
    /// Asks the manager to halt.
    Halt,
    /// Asks the manager to boot a new kernel.
    Kexec,
    /// Switches to a new root file system.
    SwitchRoot { new_root: String, init: String },
    /// Sets variables of the manager's environment.
    SetEnvironment { names: Vec<String> },
    /// Unsets variables of the manager's environment.
    UnsetEnvironment { names: Vec<String> },
    /// Sets the log level of the manager.
    SetLogLevel { value: String },
    /// Sets the log target of the manager.
    SetLogTarget { value: String },
    /// Sets the runtime watchdog period, in microseconds.
    SetRuntimeWatchdogUsec { value: u64 },
}

/// The operation that a call makes.
pub open spec fn operation_of(c: ManagerCall) -> Operation {
    match c {
        ManagerCall::GetUnit { .. } => Operation::GetUnit,
        ManagerCall::GetUnitByPid { .. } => Operation::GetUnitByPid,
        ManagerCall::StartUnit { .. } => Operation::StartUnit,
        ManagerCall::StartUnitReplace { .. } => Operation::StartUnitReplace,
        ManagerCall::StopUnit { .. } => Operation::StopUnit,
        ManagerCall::ReloadUnit { .. } => Operation::ReloadUnit,
        ManagerCall::RestartUnit { .. } => Operation::RestartUnit,
        ManagerCall::TryRestartUnit { .. } => Operation::TryRestartUnit,
        ManagerCall::ReloadOrRestartUnit { .. } => Operation::ReloadOrRestartUnit,
        ManagerCall::ReloadOrTryRestartUnit { .. } => Operation::ReloadOrTryRestartUnit,
        ManagerCall::KillUnit { .. } => Operation::KillUnit,
        ManagerCall::ResetFailedUnit { .. } => Operation::ResetFailedUnit,
        ManagerCall::SetUnitProperties { .. } => Operation::SetUnitProperties,
        ManagerCall::StartTransientUnit { .. } => Operation::StartTransientUnit,
        ManagerCall::GetJob { .. } => Operation::GetJob,
        ManagerCall::CancelJob { .. } => Operation::CancelJob,
        ManagerCall::ClearJobs => Operation::ClearJobs,
        ManagerCall::ResetFailed => Operation::ResetFailed,
        ManagerCall::ListUnits => Operation::ListUnits,
        ManagerCall::ListUnitsFiltered { .. } => Operation::ListUnitsFiltered,
        ManagerCall::ListJobs => Operation::ListJobs,
        ManagerCall::Subscribe => Operation::Subscribe,
        ManagerCall::Unsubscribe => Operation::Unsubscribe,
        ManagerCall::Dump => Operation::Dump,
        ManagerCall::Reload => Operation::Reload,
        ManagerCall::Exit => Operation::Exit,
        ManagerCall::Reboot => Operation::Reboot,
        ManagerCall::PowerOff => Operation::PowerOff,
        ManagerCall::Halt => Operation::Halt,
        ManagerCall::Kexec => Operation::Kexec,
        ManagerCall::SwitchRoot { .. } => Operation::SwitchRoot,
        ManagerCall::SetEnvironment { .. } => Operation::SetEnvironment,
        ManagerCall::UnsetEnvironment { .. } => Operation::UnsetEnvironment,
        ManagerCall::SetLogLevel { .. } => Operation::SetLogLevel,
        ManagerCall::SetLogTarget { .. } => Operation::SetLogTarget,
        ManagerCall::SetRuntimeWatchdogUsec { .. } => Operation::SetRuntimeWatchdogUsec,
    }
}

/// `s` holds the arguments of `c`, in wire order.
pub open spec fn args_fit(c: ManagerCall, s: Seq<WireValue>) -> bool {
    match c {
        ManagerCall::GetUnit { name } => s.len() == 1 && s[0] == WireValue::Str(name),
        ManagerCall::GetUnitByPid { pid } => s.len() == 1 && s[0] == WireValue::Uint32(pid),
        ManagerCall::StartUnit { name, mode } => s.len() == 2 && s[0] == WireValue::Str(name) && s[1] is Str && s[1]->Str_0@ == mode_token(mode),
        ManagerCall::StartUnitReplace { old_unit, new_unit, mode } => s.len() == 3 && s[0] == WireValue::Str(old_unit) && s[1] == WireValue::Str(new_unit) && s[2] is Str && s[2]->Str_0@ == mode_token(mode),
        ManagerCall::StopUnit { name, mode } => s.len() == 2 && s[0] == WireValue::Str(name) && s[1] is Str && s[1]->Str_0@ == mode_token(mode),
        ManagerCall::ReloadUnit { name, mode } => s.len() == 2 && s[0] == WireValue::Str(name) && s[1] is Str && s[1]->Str_0@ == mode_token(mode),
        ManagerCall::RestartUnit { name, mode } => s.len() == 2 && s[0] == WireValue::Str(name) && s[1] is Str && s[1]->Str_0@ == mode_token(mode),
        ManagerCall::TryRestartUnit { name, mode } => s.len() == 2 && s[0] == WireValue::Str(name) && s[1] is Str && s[1]->Str_0@ == mode_token(mode),
        ManagerCall::ReloadOrRestartUnit { name, mode } => s.len() == 2 && s[0] == WireValue::Str(name) && s[1] is Str && s[1]->Str_0@ == mode_token(mode),
        ManagerCall::ReloadOrTryRestartUnit { name, mode } => s.len() == 2 && s[0] == WireValue::Str(name) && s[1] is Str && s[1]->Str_0@ == mode_token(mode),
        ManagerCall::KillUnit { name, who, signal } => s.len() == 3 && s[0] == WireValue::Str(name) && s[1] == WireValue::Str(who) && s[2] == WireValue::Int32(signal),
        ManagerCall::ResetFailedUnit { name } => s.len() == 1 && s[0] == WireValue::Str(name),
        ManagerCall::SetUnitProperties { name, runtime, properties } => s.len() == 3 && s[0] == WireValue::Str(name) && s[1] == WireValue::Bool(runtime) && is_property_list(s[2], properties@),
        ManagerCall::StartTransientUnit { name, mode, properties, aux } => s.len() == 4 && s[0] == WireValue::Str(name) && s[1] is Str && s[1]->Str_0@ == mode_token(mode) && is_property_list(s[2], properties@) && is_aux_list(s[3], aux@),
        ManagerCall::GetJob { id } => s.len() == 1 && s[0] == WireValue::Uint32(id),
        ManagerCall::CancelJob { id } => s.len() == 1 && s[0] == WireValue::Uint32(id),
        ManagerCall::ClearJobs => s.len() == 0,
        ManagerCall::ResetFailed => s.len() == 0,
        ManagerCall::ListUnits => s.len() == 0,
        ManagerCall::ListUnitsFiltered { names } => s.len() == 1 && s[0] == WireValue::StrArray(names),
        ManagerCall::ListJobs => s.len() == 0,
        ManagerCall::Subscribe => s.len() == 0,
        ManagerCall::Unsubscribe => s.len() == 0,
        ManagerCall::Dump => s.len() == 0,
        ManagerCall::Reload => s.len() == 0,
        ManagerCall::Exit => s.len() == 0,
        ManagerCall::Reboot => s.len() == 0,
        ManagerCall::PowerOff => s.len() == 0,
        ManagerCall::Halt => s.len() == 0,
        ManagerCall::Kexec => s.len() == 0,
        ManagerCall::SwitchRoot { new_root, init } => s.len() == 2 && s[0] == WireValue::Str(new_root) && s[1] == WireValue::Str(init),
        ManagerCall::SetEnvironment { names } => s.len() == 1 && s[0] == WireValue::StrArray(names),
        ManagerCall::UnsetEnvironment { names } => s.len() == 1 && s[0] == WireValue::StrArray(names),
        ManagerCall::SetLogLevel { value } => s.len() == 1 && s[0] == WireValue::Str(value),
        ManagerCall::SetLogTarget { value } => s.len() == 1 && s[0] == WireValue::Str(value),
        ManagerCall::SetRuntimeWatchdogUsec { value } => s.len() == 1 && s[0] == WireValue::Uint64(value),
    }
}

impl ManagerCall {
    /// The operation that this call makes.
    pub fn operation(&self) -> (r: Operation)
        ensures
            r == operation_of(*self),
    {
        match self {
            ManagerCall::GetUnit { .. } => Operation::GetUnit,
            ManagerCall::GetUnitByPid { .. } => Operation::GetUnitByPid,
            ManagerCall::StartUnit { .. } => Operation::StartUnit,
            ManagerCall::StartUnitReplace { .. } => Operation::StartUnitReplace,
            ManagerCall::StopUnit { .. } => Operation::StopUnit,
            ManagerCall::ReloadUnit { .. } => Operation::ReloadUnit,
            ManagerCall::RestartUnit { .. } => Operation::RestartUnit,
            ManagerCall::TryRestartUnit { .. } => Operation::TryRestartUnit,
            ManagerCall::ReloadOrRestartUnit { .. } => Operation::ReloadOrRestartUnit,
            ManagerCall::ReloadOrTryRestartUnit { .. } => Operation::ReloadOrTryRestartUnit,
            ManagerCall::KillUnit { .. } => Operation::KillUnit,
            ManagerCall::ResetFailedUnit { .. } => Operation::ResetFailedUnit,
            ManagerCall::SetUnitProperties { .. } => Operation::SetUnitProperties,
            ManagerCall::StartTransientUnit { .. } => Operation::StartTransientUnit,
            ManagerCall::GetJob { .. } => Operation::GetJob,
            ManagerCall::CancelJob { .. } => Operation::CancelJob,
            ManagerCall::ClearJobs => Operation::ClearJobs,
            ManagerCall::ResetFailed => Operation::ResetFailed,
            ManagerCall::ListUnits => Operation::ListUnits,
            ManagerCall::ListUnitsFiltered { .. } => Operation::ListUnitsFiltered,
            ManagerCall::ListJobs => Operation::ListJobs,
            ManagerCall::Subscribe => Operation::Subscribe,
            ManagerCall::Unsubscribe => Operation::Unsubscribe,
            ManagerCall::Dump => Operation::Dump,
            ManagerCall::Reload => Operation::Reload,
            ManagerCall::Exit => Operation::Exit,
            ManagerCall::Reboot => Operation::Reboot,
            ManagerCall::PowerOff => Operation::PowerOff,
            ManagerCall::Halt => Operation::Halt,
            ManagerCall::Kexec => Operation::Kexec,
            ManagerCall::SwitchRoot { .. } => Operation::SwitchRoot,
            ManagerCall::SetEnvironment { .. } => Operation::SetEnvironment,
            ManagerCall::UnsetEnvironment { .. } => Operation::UnsetEnvironment,
            ManagerCall::SetLogLevel { .. } => Operation::SetLogLevel,
            ManagerCall::SetLogTarget { .. } => Operation::SetLogTarget,
            ManagerCall::SetRuntimeWatchdogUsec { .. } => Operation::SetRuntimeWatchdogUsec,
        }
    }

    /// The arguments of this call, in wire order.
    pub fn into_args(self) -> (r: Vec<WireValue>)
        ensures
            args_fit(self, r@),
            kinds(r@) == arg_shape(operation_of(self)),
    {
        let ghost c = self;
        let r = match self {
            ManagerCall::GetUnit { name } => vec![WireValue::Str(name)],
            ManagerCall::GetUnitByPid { pid } => vec![WireValue::Uint32(pid)],
            ManagerCall::StartUnit { name, mode } => vec![WireValue::Str(name), WireValue::Str(mode.token().to_owned())],
            ManagerCall::StartUnitReplace { old_unit, new_unit, mode } => vec![WireValue::Str(old_unit), WireValue::Str(new_unit), WireValue::Str(mode.token().to_owned())],
            ManagerCall::StopUnit { name, mode } => vec![WireValue::Str(name), WireValue::Str(mode.token().to_owned())],
            ManagerCall::ReloadUnit { name, mode } => vec![WireValue::Str(name), WireValue::Str(mode.token().to_owned())],
            ManagerCall::RestartUnit { name, mode } => vec![WireValue::Str(name), WireValue::Str(mode.token().to_owned())],
            ManagerCall::TryRestartUnit { name, mode } => vec![WireValue::Str(name), WireValue::Str(mode.token().to_owned())],
            ManagerCall::ReloadOrRestartUnit { name, mode } => vec![WireValue::Str(name), WireValue::Str(mode.token().to_owned())],
            ManagerCall::ReloadOrTryRestartUnit { name, mode } => vec![WireValue::Str(name), WireValue::Str(mode.token().to_owned())],
            ManagerCall::KillUnit { name, who, signal } => vec![WireValue::Str(name), WireValue::Str(who), WireValue::Int32(signal)],
            ManagerCall::ResetFailedUnit { name } => vec![WireValue::Str(name)],
            ManagerCall::SetUnitProperties { name, runtime, properties } => vec![WireValue::Str(name), WireValue::Bool(runtime), property_list(properties)],
            ManagerCall::StartTransientUnit { name, mode, properties, aux } => vec![WireValue::Str(name), WireValue::Str(mode.token().to_owned()), property_list(properties), aux_list(aux)],
            ManagerCall::GetJob { id } => vec![WireValue::Uint32(id)],
            ManagerCall::CancelJob { id } => vec![WireValue::Uint32(id)],
            ManagerCall::ClearJobs => Vec::new(),
            ManagerCall::ResetFailed => Vec::new(),
            ManagerCall::ListUnits => Vec::new(),
            ManagerCall::ListUnitsFiltered { names } => vec![WireValue::StrArray(names)],
            ManagerCall::ListJobs => Vec::new(),
            ManagerCall::Subscribe => Vec::new(),
            ManagerCall::Unsubscribe => Vec::new(),
            ManagerCall::Dump => Vec::new(),
            ManagerCall::Reload => Vec::new(),
            ManagerCall::Exit => Vec::new(),
            ManagerCall::Reboot => Vec::new(),
            ManagerCall::PowerOff => Vec::new(),
            ManagerCall::Halt => Vec::new(),
            ManagerCall::Kexec => Vec::new(),
            ManagerCall::SwitchRoot { new_root, init } => vec![WireValue::Str(new_root), WireValue::Str(init)],
            ManagerCall::SetEnvironment { names } => vec![WireValue::StrArray(names)],
            ManagerCall::UnsetEnvironment { names } => vec![WireValue::StrArray(names)],
            ManagerCall::SetLogLevel { value } => vec![WireValue::Str(value)],
            ManagerCall::SetLogTarget { value } => vec![WireValue::Str(value)],
            ManagerCall::SetRuntimeWatchdogUsec { value } => vec![WireValue::Uint64(value)],
        };
        assert(kinds(r@) =~= arg_shape(operation_of(c)));
        r
    }
}

impl ManagerCall {
    /// This call, addressed to `target` as the descriptor of its operation fixes.
    pub fn into_request(self, target: &RemoteObjectRef) -> (r: CallRequest)
        ensures
            r.destination@ == target.service@,
            r.path == target.path,
            r.interface@ == manager_interface(),
            r.member@ == member_of(operation_of(self)),
            r.signature@ == arg_signature(operation_of(self)),
            args_fit(self, r.args@),
            kinds(r.args@) == arg_shape(operation_of(self)),
            r.timeout_ms == CALL_TIMEOUT_MS,
    {
        let op = self.operation();
        let args = self.into_args();
        request_for(target, op, args)
    }
}

/// The items of a list reply.
pub open spec fn list_items(outcome: CallOutcome) -> Seq<WireValue> {
    reply_values(outcome)[0]->Array_0@
}

/// The shape of one item of a list: its fields if it is a record, else its kind alone.
pub open spec fn item_kinds(v: WireValue) -> Seq<WireKind> {
    if v is Struct {
        kinds(v->Struct_0@)
    } else {
        seq![kind_of(v)]
    }
}

/// Every item is a record of the given shape.
pub open spec fn items_fit(items: Seq<WireValue>, shape: Seq<WireKind>) -> bool {
    forall|i: int| 0 <= i < items.len() ==> item_kinds(#[trigger] items[i]) == shape && items[i] is Struct
}

/// `e` reports the first item of `items` that breaks `shape`.
pub open spec fn item_error(e: RpcError, op: Operation, items: Seq<WireValue>, shape: Seq<WireKind>) -> bool {
    exists|i: int|
        0 <= i < items.len() && items_fit(items.subrange(0, i), shape) && !(item_kinds(#[trigger] items[i]) == shape
            && items[i] is Struct) && marshalling_error(e, op, shape, item_kinds(items[i]))
}

fn item_shape_error(op: Operation, shape: Vec<WireKind>, item: &WireValue) -> (r: RpcError)
    ensures
        marshalling_error(r, op, shape@, item_kinds(*item)),
{
    let actual = match item {
        WireValue::Struct(fields) => kinds_of(fields),
        _ => {
            let a = vec![item.kind()];
            assert(a@ =~= item_kinds(*item));
            a
        },
    };
    marshalling(op, shape, actual)
}

/// The units that a list call of `op` returns.
pub fn decode_units(op: Operation, outcome: CallOutcome) -> (r: Result<Vec<SystemdUnitStatus>, RpcError>)
    requires
        reply_shape(op) == seq![WireKind::Array],
    ensures
        r is Ok <==> reply_fits(op, outcome) && items_fit(list_items(outcome), unit_status_shape()),
        r matches Ok(us) ==> {
            &&& us@.len() == list_items(outcome).len()
            &&& forall|i: int|
                0 <= i < us@.len() ==> #[trigger] us@[i] == SystemdUnitStatus::of_dto(
                    unit_status_dto_of(list_items(outcome)[i]->Struct_0@),
                )
        },
        r matches Err(e) ==> if reply_fits(op, outcome) {
            item_error(e, op, list_items(outcome), unit_status_shape())
        } else {
            call_error(op, outcome, e)
        },
{
    let ghost fits = reply_fits(op, outcome);
    let ghost given = outcome;
    let values = match complete_call(op, outcome) {
        Ok(v) => v,
        Err(e) => return Err(e),
    };
    let mut values = values;
    assert(kinds(values@) == reply_shape(op));
    assert(values@.len() == kinds(values@).len());
    assert(kinds(values@)[0] == WireKind::Array);
    let items = into_items(take_last(&mut values));
    let ghost all = items@;
    assert(all == list_items(given));
    let mut items = items;
    let mut out: Vec<SystemdUnitStatus> = Vec::new();
    while items.len() > 0
        invariant
            given == outcome,
            reply_fits(op, given),
            all == list_items(given),
            out@.len() + items@.len() == all.len(),
            items@ == all.subrange(out@.len() as int, all.len() as int),
            items_fit(all.subrange(0, out@.len() as int), unit_status_shape()),
            forall|i: int|
                0 <= i < out@.len() ==> #[trigger] out@[i] == SystemdUnitStatus::of_dto(
                    unit_status_dto_of(all[i]->Struct_0@),
                ),
        decreases items.len(),
    {
        let ghost k = out@.len() as int;
        let item = items.remove(0);
        assert(all[k] == item);
        if item.kind() != WireKind::Struct {
            let e = item_shape_error(op, unit_status_shape_vec(), &item);
            assert(!(item_kinds(all[k]) == unit_status_shape() && all[k] is Struct));
            assert(item_error(e, op, all, unit_status_shape()));
            assert(!items_fit(all, unit_status_shape()));
            return Err(e);
        }
        let ghost whole = item;
        let fields = into_items(item);
        let actual = kinds_of(&fields);
        match read_unit_status_dto(fields) {
            Ok(d) => {
                out.push(SystemdUnitStatus::from(d));
                assert(all.subrange(0, out@.len() as int) =~= all.subrange(0, k).push(whole));
            },
            Err(_) => {
                let e = marshalling(op, unit_status_shape_vec(), actual);
                assert(item_kinds(all[k]) == kinds(whole->Struct_0@));
                assert(!(item_kinds(all[k]) == unit_status_shape() && all[k] is Struct));
                assert(item_error(e, op, all, unit_status_shape()));
                return Err(e);
            },
        }
        assert(items@ =~= all.subrange(out@.len() as int, all.len() as int));
    }
    assert(all.subrange(0, all.len() as int) =~= all);
    Ok(out)
}

/// The jobs that a list call of `op` returns.
pub fn decode_jobs(op: Operation, outcome: CallOutcome) -> (r: Result<Vec<Job>, RpcError>)
    requires
        reply_shape(op) == seq![WireKind::Array],
    ensures
        r is Ok <==> reply_fits(op, outcome) && items_fit(list_items(outcome), job_shape()),
        r matches Ok(js) ==> {
            &&& js@.len() == list_items(outcome).len()
            &&& forall|i: int|
                0 <= i < js@.len() ==> #[trigger] js@[i] == Job::of_dto(
                    job_dto_of(list_items(outcome)[i]->Struct_0@),
                )
        },
        r matches Err(e) ==> if reply_fits(op, outcome) {
            item_error(e, op, list_items(outcome), job_shape())
        } else {
            call_error(op, outcome, e)
        },
{
    let ghost fits = reply_fits(op, outcome);
    let ghost given = outcome;
    let values = match complete_call(op, outcome) {
        Ok(v) => v,
        Err(e) => return Err(e),
    };
    let mut values = values;
    assert(kinds(values@) == reply_shape(op));
    assert(values@.len() == kinds(values@).len());
    assert(kinds(values@)[0] == WireKind::Array);
    let items = into_items(take_last(&mut values));
    let ghost all = items@;
    assert(all == list_items(given));
    let mut items = items;
    let mut out: Vec<Job> = Vec::new();
    while items.len() > 0
        invariant
            given == outcome,
            reply_fits(op, given),
            all == list_items(given),
            out@.len() + items@.len() == all.len(),
            items@ == all.subrange(out@.len() as int, all.len() as int),
            items_fit(all.subrange(0, out@.len() as int), job_shape()),
            forall|i: int|
                0 <= i < out@.len() ==> #[trigger] out@[i] == Job::of_dto(
                    job_dto_of(all[i]->Struct_0@),
                ),
        decreases items.len(),
    {
        let ghost k = out@.len() as int;
        let item = items.remove(0);
        assert(all[k] == item);
        if item.kind() != WireKind::Struct {
            let e = item_shape_error(op, job_shape_vec(), &item);
            assert(!(item_kinds(all[k]) == job_shape() && all[k] is Struct));
            assert(item_error(e, op, all, job_shape()));
            assert(!items_fit(all, job_shape()));
            return Err(e);
        }
        let ghost whole = item;
        let fields = into_items(item);
        let actual = kinds_of(&fields);
        match read_job_dto(fields) {
            Ok(d) => {
                out.push(Job::from(d));
                assert(all.subrange(0, out@.len() as int) =~= all.subrange(0, k).push(whole));
            },
            Err(_) => {
                let e = marshalling(op, job_shape_vec(), actual);
                assert(item_kinds(all[k]) == kinds(whole->Struct_0@));
                assert(!(item_kinds(all[k]) == job_shape() && all[k] is Struct));
                assert(item_error(e, op, all, job_shape()));
                return Err(e);
            },
        }
        assert(items@ =~= all.subrange(out@.len() as int, all.len() as int));
    }
    assert(all.subrange(0, all.len() as int) =~= all);
    Ok(out)
}


/// Opens and vets the links of the pool. A link counts as healthy when a
/// ping of the bus itself, with a short window, gets any reply.
#[derive(Clone, Copy, Debug)]
pub struct DbusConnectionManager;

impl DbusConnectionManager {
    /// The ping that checks a link.
    pub fn health_check_request() -> (r: CallRequest)
        ensures
            r.destination@ == "org.freedesktop.DBus"@,
            r.path@ == "/org/freedesktop/DBus"@,
            r.interface@ == "org.freedesktop.DBus.Peer"@,
            r.member@ == "Ping"@,
            r.signature@.len() == 0,
            r.args@.len() == 0,
            r.timeout_ms == HEALTH_TIMEOUT_MS,
    {
        CallRequest {
            destination: "org.freedesktop.DBus".to_owned(),
            path: crate::wire::ObjectPath::from_known("/org/freedesktop/DBus"),
            interface: "org.freedesktop.DBus.Peer".to_owned(),
            member: "Ping".to_owned(),
            signature: String::new(),
            args: Vec::new(),
            timeout_ms: HEALTH_TIMEOUT_MS,
        }
    }

    /// Whether the ping's outcome shows the link reusable: any reply does,
    /// an error does not.
    pub fn recycle(outcome: &CallOutcome) -> (r: bool)
        ensures
            r == (*outcome is Reply),
    {
        match outcome {
            CallOutcome::Reply(_) => true,
            CallOutcome::Error { .. } => false,
        }
    }
}

} // verus!
