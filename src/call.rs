use vstd::prelude::*;
use crate::wire::{check_shape, kinds, ObjectPath, WireKind, WireValue};

verus! {

/// The operations of the manager that this library calls.
#[derive(Clone, Copy, Debug, PartialEq, Eq, Structural)]
pub enum Operation {
    GetUnit,
    GetUnitByPid,
    StartUnit,
    StartUnitReplace,
    StopUnit,
    ReloadUnit,
    RestartUnit,
    TryRestartUnit,
    ReloadOrRestartUnit,
    ReloadOrTryRestartUnit,
    KillUnit,
    ResetFailedUnit,
    SetUnitProperties,
    StartTransientUnit,
    GetJob,
    CancelJob,
    ClearJobs,
    ResetFailed,
    ListUnits,
    ListUnitsFiltered,
    ListJobs,
    Subscribe,
    Unsubscribe,
    Dump,
    Reload,
    Exit,
    Reboot,
    PowerOff,
    Halt,
    Kexec,
    SwitchRoot,
    SetEnvironment,
    UnsetEnvironment,
    SetLogLevel,
    SetLogTarget,
    SetRuntimeWatchdogUsec,
}

/// The member name of each operation.
pub open spec fn member_of(op: Operation) -> Seq<char> {
    match op {
        Operation::GetUnit => "GetUnit"@,
        Operation::GetUnitByPid => "GetUnitByPid"@,
        Operation::StartUnit => "StartUnit"@,
        Operation::StartUnitReplace => "StartUnitReplace"@,
        Operation::StopUnit => "StopUnit"@,
        Operation::ReloadUnit => "ReloadUnit"@,
        Operation::RestartUnit => "RestartUnit"@,
        Operation::TryRestartUnit => "TryRestartUnit"@,
        Operation::ReloadOrRestartUnit => "ReloadOrRestartUnit"@,
        Operation::ReloadOrTryRestartUnit => "ReloadOrTryRestartUnit"@,
        Operation::KillUnit => "KillUnit"@,
        Operation::ResetFailedUnit => "ResetFailedUnit"@,
        Operation::SetUnitProperties => "SetUnitProperties"@,
        Operation::StartTransientUnit => "StartTransientUnit"@,
        Operation::GetJob => "GetJob"@,
        Operation::CancelJob => "CancelJob"@,
        Operation::ClearJobs => "ClearJobs"@,
        Operation::ResetFailed => "ResetFailed"@,
        Operation::ListUnits => "ListUnits"@,
        Operation::ListUnitsFiltered => "ListUnitsFiltered"@,
        Operation::ListJobs => "ListJobs"@,
        Operation::Subscribe => "Subscribe"@,
        Operation::Unsubscribe => "Unsubscribe"@,
        Operation::Dump => "Dump"@,
        Operation::Reload => "Reload"@,
        Operation::Exit => "Exit"@,
        Operation::Reboot => "Reboot"@,
        Operation::PowerOff => "PowerOff"@,
        Operation::Halt => "Halt"@,
        Operation::Kexec => "Kexec"@,
        Operation::SwitchRoot => "SwitchRoot"@,
        Operation::SetEnvironment => "SetEnvironment"@,
        Operation::UnsetEnvironment => "UnsetEnvironment"@,
        Operation::SetLogLevel => "SetLogLevel"@,
        Operation::SetLogTarget => "SetLogTarget"@,
        Operation::SetRuntimeWatchdogUsec => "SetRuntimeWatchdogUsec"@,
    }
}

/// The positional shape of each operation's arguments.
pub open spec fn arg_shape(op: Operation) -> Seq<WireKind> {
    match op {
        Operation::GetUnit => seq![WireKind::Str],
        Operation::GetUnitByPid => seq![WireKind::Uint32],
        Operation::StartUnit => seq![WireKind::Str, WireKind::Str],
        Operation::StartUnitReplace => seq![WireKind::Str, WireKind::Str, WireKind::Str],
        Operation::StopUnit => seq![WireKind::Str, WireKind::Str],
        Operation::ReloadUnit => seq![WireKind::Str, WireKind::Str],
        Operation::RestartUnit => seq![WireKind::Str, WireKind::Str],
        Operation::TryRestartUnit => seq![WireKind::Str, WireKind::Str],
        Operation::ReloadOrRestartUnit => seq![WireKind::Str, WireKind::Str],
        Operation::ReloadOrTryRestartUnit => seq![WireKind::Str, WireKind::Str],
        Operation::KillUnit => seq![WireKind::Str, WireKind::Str, WireKind::Int32],
        Operation::ResetFailedUnit => seq![WireKind::Str],
        Operation::SetUnitProperties => seq![WireKind::Str, WireKind::Bool, WireKind::Array],
        Operation::StartTransientUnit => seq![WireKind::Str, WireKind::Str, WireKind::Array, WireKind::Array],
        Operation::GetJob => seq![WireKind::Uint32],
        Operation::CancelJob => seq![WireKind::Uint32],
        Operation::ClearJobs => Seq::empty(),
        Operation::ResetFailed => Seq::empty(),
        Operation::ListUnits => Seq::empty(),
        Operation::ListUnitsFiltered => seq![WireKind::StrArray],
        Operation::ListJobs => Seq::empty(),
        Operation::Subscribe => Seq::empty(),
        Operation::Unsubscribe => Seq::empty(),
        Operation::Dump => Seq::empty(),
        Operation::Reload => Seq::empty(),
        Operation::Exit => Seq::empty(),
        Operation::Reboot => Seq::empty(),
        Operation::PowerOff => Seq::empty(),
        Operation::Halt => Seq::empty(),
        Operation::Kexec => Seq::empty(),
        Operation::SwitchRoot => seq![WireKind::Str, WireKind::Str],
        Operation::SetEnvironment => seq![WireKind::StrArray],
        Operation::UnsetEnvironment => seq![WireKind::StrArray],
        Operation::SetLogLevel => seq![WireKind::Str],
        Operation::SetLogTarget => seq![WireKind::Str],
        Operation::SetRuntimeWatchdogUsec => seq![WireKind::Uint64],
    }
}

/// The positional shape of each operation's reply.
pub open spec fn reply_shape(op: Operation) -> Seq<WireKind> {
    match op {
        Operation::GetUnit => seq![WireKind::ObjPath],
        Operation::GetUnitByPid => seq![WireKind::ObjPath],
        Operation::StartUnit => seq![WireKind::ObjPath],
        Operation::StartUnitReplace => seq![WireKind::ObjPath],
        Operation::StopUnit => seq![WireKind::ObjPath],
        Operation::ReloadUnit => seq![WireKind::ObjPath],
        Operation::RestartUnit => seq![WireKind::ObjPath],
        Operation::TryRestartUnit => seq![WireKind::ObjPath],
        Operation::ReloadOrRestartUnit => seq![WireKind::ObjPath],
        Operation::ReloadOrTryRestartUnit => seq![WireKind::ObjPath],
        Operation::KillUnit => Seq::empty(),
        Operation::ResetFailedUnit => Seq::empty(),
        Operation::SetUnitProperties => Seq::empty(),
        Operation::StartTransientUnit => seq![WireKind::ObjPath],
        Operation::GetJob => seq![WireKind::ObjPath],
        Operation::CancelJob => Seq::empty(),
        Operation::ClearJobs => Seq::empty(),
        Operation::ResetFailed => Seq::empty(),
        Operation::ListUnits => seq![WireKind::Array],
        Operation::ListUnitsFiltered => seq![WireKind::Array],
        Operation::ListJobs => seq![WireKind::Array],
        Operation::Subscribe => Seq::empty(),
        Operation::Unsubscribe => Seq::empty(),
        Operation::Dump => seq![WireKind::Str],
        Operation::Reload => Seq::empty(),
        Operation::Exit => Seq::empty(),
        Operation::Reboot => Seq::empty(),
        Operation::PowerOff => Seq::empty(),
        Operation::Halt => Seq::empty(),
        Operation::Kexec => Seq::empty(),
        Operation::SwitchRoot => Seq::empty(),
        Operation::SetEnvironment => Seq::empty(),
        Operation::UnsetEnvironment => Seq::empty(),
        Operation::SetLogLevel => Seq::empty(),
        Operation::SetLogTarget => Seq::empty(),
        Operation::SetRuntimeWatchdogUsec => Seq::empty(),
    }
}

impl Operation {
    /// The member name of this operation.
    pub fn member(&self) -> (r: &'static str)
        ensures
            r@ == member_of(*self),
    {
        match self {
            Operation::GetUnit => "GetUnit",
            Operation::GetUnitByPid => "GetUnitByPid",
            Operation::StartUnit => "StartUnit",
            Operation::StartUnitReplace => "StartUnitReplace",
            Operation::StopUnit => "StopUnit",
            Operation::ReloadUnit => "ReloadUnit",
            Operation::RestartUnit => "RestartUnit",
            Operation::TryRestartUnit => "TryRestartUnit",
            Operation::ReloadOrRestartUnit => "ReloadOrRestartUnit",
            Operation::ReloadOrTryRestartUnit => "ReloadOrTryRestartUnit",
            Operation::KillUnit => "KillUnit",
            Operation::ResetFailedUnit => "ResetFailedUnit",
            Operation::SetUnitProperties => "SetUnitProperties",
            Operation::StartTransientUnit => "StartTransientUnit",
            Operation::GetJob => "GetJob",
            Operation::CancelJob => "CancelJob",
            Operation::ClearJobs => "ClearJobs",
            Operation::ResetFailed => "ResetFailed",
            Operation::ListUnits => "ListUnits",
            Operation::ListUnitsFiltered => "ListUnitsFiltered",
            Operation::ListJobs => "ListJobs",
            Operation::Subscribe => "Subscribe",
            Operation::Unsubscribe => "Unsubscribe",
            Operation::Dump => "Dump",
            Operation::Reload => "Reload",
            Operation::Exit => "Exit",
            Operation::Reboot => "Reboot",
            Operation::PowerOff => "PowerOff",
            Operation::Halt => "Halt",
            Operation::Kexec => "Kexec",
            Operation::SwitchRoot => "SwitchRoot",
            Operation::SetEnvironment => "SetEnvironment",
            Operation::UnsetEnvironment => "UnsetEnvironment",
            Operation::SetLogLevel => "SetLogLevel",
            Operation::SetLogTarget => "SetLogTarget",
            Operation::SetRuntimeWatchdogUsec => "SetRuntimeWatchdogUsec",
        }
    }

    /// The shape of this operation's arguments.
    pub fn arg_kinds(&self) -> (r: Vec<WireKind>)
        ensures
            r@ == arg_shape(*self),
    {
        match self {
            Operation::GetUnit => vec![WireKind::Str],
            Operation::GetUnitByPid => vec![WireKind::Uint32],
            Operation::StartUnit => vec![WireKind::Str, WireKind::Str],
            Operation::StartUnitReplace => vec![WireKind::Str, WireKind::Str, WireKind::Str],
            Operation::StopUnit => vec![WireKind::Str, WireKind::Str],
            Operation::ReloadUnit => vec![WireKind::Str, WireKind::Str],
            Operation::RestartUnit => vec![WireKind::Str, WireKind::Str],
            Operation::TryRestartUnit => vec![WireKind::Str, WireKind::Str],
            Operation::ReloadOrRestartUnit => vec![WireKind::Str, WireKind::Str],
            Operation::ReloadOrTryRestartUnit => vec![WireKind::Str, WireKind::Str],
            Operation::KillUnit => vec![WireKind::Str, WireKind::Str, WireKind::Int32],
            Operation::ResetFailedUnit => vec![WireKind::Str],
            Operation::SetUnitProperties => vec![WireKind::Str, WireKind::Bool, WireKind::Array],
            Operation::StartTransientUnit => vec![WireKind::Str, WireKind::Str, WireKind::Array, WireKind::Array],
            Operation::GetJob => vec![WireKind::Uint32],
            Operation::CancelJob => vec![WireKind::Uint32],
            Operation::ClearJobs => Vec::new(),
            Operation::ResetFailed => Vec::new(),
            Operation::ListUnits => Vec::new(),
            Operation::ListUnitsFiltered => vec![WireKind::StrArray],
            Operation::ListJobs => Vec::new(),
            Operation::Subscribe => Vec::new(),
            Operation::Unsubscribe => Vec::new(),
            Operation::Dump => Vec::new(),
            Operation::Reload => Vec::new(),
            Operation::Exit => Vec::new(),
            Operation::Reboot => Vec::new(),
            Operation::PowerOff => Vec::new(),
            Operation::Halt => Vec::new(),
            Operation::Kexec => Vec::new(),
            Operation::SwitchRoot => vec![WireKind::Str, WireKind::Str],
            Operation::SetEnvironment => vec![WireKind::StrArray],
            Operation::UnsetEnvironment => vec![WireKind::StrArray],
            Operation::SetLogLevel => vec![WireKind::Str],
            Operation::SetLogTarget => vec![WireKind::Str],
            Operation::SetRuntimeWatchdogUsec => vec![WireKind::Uint64],
        }
    }

    /// The shape of this operation's reply.
    pub fn reply_kinds(&self) -> (r: Vec<WireKind>)
        ensures
            r@ == reply_shape(*self),
    {
        match self {
            Operation::GetUnit => vec![WireKind::ObjPath],
            Operation::GetUnitByPid => vec![WireKind::ObjPath],
            Operation::StartUnit => vec![WireKind::ObjPath],
            Operation::StartUnitReplace => vec![WireKind::ObjPath],
            Operation::StopUnit => vec![WireKind::ObjPath],
            Operation::ReloadUnit => vec![WireKind::ObjPath],
            Operation::RestartUnit => vec![WireKind::ObjPath],
            Operation::TryRestartUnit => vec![WireKind::ObjPath],
            Operation::ReloadOrRestartUnit => vec![WireKind::ObjPath],
            Operation::ReloadOrTryRestartUnit => vec![WireKind::ObjPath],
            Operation::KillUnit => Vec::new(),
            Operation::ResetFailedUnit => Vec::new(),
            Operation::SetUnitProperties => Vec::new(),
            Operation::StartTransientUnit => vec![WireKind::ObjPath],
            Operation::GetJob => vec![WireKind::ObjPath],
            Operation::CancelJob => Vec::new(),
            Operation::ClearJobs => Vec::new(),
            Operation::ResetFailed => Vec::new(),
            Operation::ListUnits => vec![WireKind::Array],
            Operation::ListUnitsFiltered => vec![WireKind::Array],
            Operation::ListJobs => vec![WireKind::Array],
            Operation::Subscribe => Vec::new(),
            Operation::Unsubscribe => Vec::new(),
            Operation::Dump => vec![WireKind::Str],
            Operation::Reload => Vec::new(),
            Operation::Exit => Vec::new(),
            Operation::Reboot => Vec::new(),
            Operation::PowerOff => Vec::new(),
            Operation::Halt => Vec::new(),
            Operation::Kexec => Vec::new(),
            Operation::SwitchRoot => Vec::new(),
            Operation::SetEnvironment => Vec::new(),
            Operation::UnsetEnvironment => Vec::new(),
            Operation::SetLogLevel => Vec::new(),
            Operation::SetLogTarget => Vec::new(),
            Operation::SetRuntimeWatchdogUsec => Vec::new(),
        }
    }
}

/// The full wire signature of each operation's arguments.
pub open spec fn arg_signature(op: Operation) -> Seq<char> {
    match op {
        Operation::GetUnit => "s"@,
        Operation::GetUnitByPid => "u"@,
        Operation::StartUnit => "ss"@,
        Operation::StartUnitReplace => "sss"@,
        Operation::StopUnit => "ss"@,
        Operation::ReloadUnit => "ss"@,
        Operation::RestartUnit => "ss"@,
        Operation::TryRestartUnit => "ss"@,
        Operation::ReloadOrRestartUnit => "ss"@,
        Operation::ReloadOrTryRestartUnit => "ss"@,
        Operation::KillUnit => "ssi"@,
        Operation::ResetFailedUnit => "s"@,
        Operation::SetUnitProperties => "sba(sv)"@,
        Operation::StartTransientUnit => "ssa(sv)a(sa(sv))"@,
        Operation::GetJob => "u"@,
        Operation::CancelJob => "u"@,
        Operation::ClearJobs => ""@,
        Operation::ResetFailed => ""@,
        Operation::ListUnits => ""@,
        Operation::ListUnitsFiltered => "as"@,
        Operation::ListJobs => ""@,
        Operation::Subscribe => ""@,
        Operation::Unsubscribe => ""@,
        Operation::Dump => ""@,
        Operation::Reload => ""@,
        Operation::Exit => ""@,
        Operation::Reboot => ""@,
        Operation::PowerOff => ""@,
        Operation::Halt => ""@,
        Operation::Kexec => ""@,
        Operation::SwitchRoot => "ss"@,
        Operation::SetEnvironment => "as"@,
        Operation::UnsetEnvironment => "as"@,
        Operation::SetLogLevel => "s"@,
        Operation::SetLogTarget => "s"@,
        Operation::SetRuntimeWatchdogUsec => "t"@,
    }
}

impl Operation {
    /// The full wire signature of this operation's arguments.
    pub fn signature(&self) -> (r: &'static str)
        ensures
            r@ == arg_signature(*self),
    {
        match self {
            Operation::GetUnit => "s",
            Operation::GetUnitByPid => "u",
            Operation::StartUnit => "ss",
            Operation::StartUnitReplace => "sss",
            Operation::StopUnit => "ss",
            Operation::ReloadUnit => "ss",
            Operation::RestartUnit => "ss",
            Operation::TryRestartUnit => "ss",
            Operation::ReloadOrRestartUnit => "ss",
            Operation::ReloadOrTryRestartUnit => "ss",
            Operation::KillUnit => "ssi",
            Operation::ResetFailedUnit => "s",
            Operation::SetUnitProperties => "sba(sv)",
            Operation::StartTransientUnit => "ssa(sv)a(sa(sv))",
            Operation::GetJob => "u",
            Operation::CancelJob => "u",
            Operation::ClearJobs => "",
            Operation::ResetFailed => "",
            Operation::ListUnits => "",
            Operation::ListUnitsFiltered => "as",
            Operation::ListJobs => "",
            Operation::Subscribe => "",
            Operation::Unsubscribe => "",
            Operation::Dump => "",
            Operation::Reload => "",
            Operation::Exit => "",
            Operation::Reboot => "",
            Operation::PowerOff => "",
            Operation::Halt => "",
            Operation::Kexec => "",
            Operation::SwitchRoot => "ss",
            Operation::SetEnvironment => "as",
            Operation::UnsetEnvironment => "as",
            Operation::SetLogLevel => "s",
            Operation::SetLogTarget => "s",
            Operation::SetRuntimeWatchdogUsec => "t",
        }
    }
}

/// How long a call may wait for its reply, in milliseconds.
pub const CALL_TIMEOUT_MS: u64 = 10000;

/// How long a health check may wait for its reply, in milliseconds.
pub const HEALTH_TIMEOUT_MS: u64 = 1000;

/// The interface of the manager object.
pub open spec fn manager_interface() -> Seq<char> {
    "org.freedesktop.systemd1.Manager"@
}

/// What fixes one operation on the wire.
pub struct CallDescriptor {
    pub interface: &'static str,
    pub member: &'static str,
    pub signature: &'static str,
    pub args: Vec<WireKind>,
    pub reply: Vec<WireKind>,
    pub timeout_ms: u64,
}

impl Operation {
    /// The descriptor of this operation.
    pub fn descriptor(&self) -> (r: CallDescriptor)
        ensures
            r.interface@ == manager_interface(),
            r.member@ == member_of(*self),
            r.signature@ == arg_signature(*self),
            r.args@ == arg_shape(*self),
            r.reply@ == reply_shape(*self),
            r.timeout_ms == CALL_TIMEOUT_MS,
    {
        CallDescriptor {
            interface: "org.freedesktop.systemd1.Manager",
            member: self.member(),
            signature: self.signature(),
            args: self.arg_kinds(),
            reply: self.reply_kinds(),
            timeout_ms: CALL_TIMEOUT_MS,
        }
    }
}

/// An addressable endpoint: a service name and an object path.
pub struct RemoteObjectRef {
    pub service: String,
    pub path: ObjectPath,
}

impl RemoteObjectRef {
    /// The manager object of systemd.
    pub fn systemd() -> (r: RemoteObjectRef)
        ensures
            r.service@ == "org.freedesktop.systemd1"@,
            r.path@ == "/org/freedesktop/systemd1"@,
    {
        RemoteObjectRef {
            service: "org.freedesktop.systemd1".to_owned(),
            path: ObjectPath::from_known("/org/freedesktop/systemd1"),
        }
    }
}

/// Why a call did not give a result.
#[derive(Debug, PartialEq)]
pub enum RpcError {
    /// A link could not be opened.
    Connection { message: String },
    /// The pool could not provide a link.
    PoolExhaustedOrCreateFailed,
    /// The link broke during the call.
    Transport { message: String },
    /// No reply came within the call's window.
    Timeout,
    /// The service rejected the call.
    Remote { code: String, message: String },
    /// Values did not have the shape that the operation fixes.
    Marshalling { interface: String, member: String, expected: Vec<WireKind>, actual: Vec<WireKind> },
}

/// `e` reports that values of shape `actual` came where `op` fixes `expected`.
pub open spec fn marshalling_error(e: RpcError, op: Operation, expected: Seq<WireKind>, actual: Seq<WireKind>) -> bool {
    &&& e matches RpcError::Marshalling { interface, member, expected: x, actual: y }
    &&& interface@ == manager_interface()
    &&& member@ == member_of(op)
    &&& x@ == expected
    &&& y@ == actual
}

/// Bus errors that mean no reply came in time.
pub open spec fn is_timeout_name(name: Seq<char>) -> bool {
    name == "org.freedesktop.DBus.Error.Timeout"@ || name == "org.freedesktop.DBus.Error.NoReply"@
}

/// Bus errors that mean the link itself failed.
pub open spec fn is_transport_name(name: Seq<char>) -> bool {
    name == "org.freedesktop.DBus.Error.Disconnected"@ || name == "org.freedesktop.DBus.Error.IOError"@
}

/// The error that a bus error of the given name and message stands for:
/// timeouts, broken links, and otherwise the service's own rejection,
/// passed on verbatim.
pub open spec fn classifies(e: RpcError, name: Seq<char>, message: Seq<char>) -> bool {
    if is_timeout_name(name) {
        e is Timeout
    } else if is_transport_name(name) {
        e matches RpcError::Transport { message: m } && m@ == message
    } else {
        e matches RpcError::Remote { code, message: m } && code@ == name && m@ == message
    }
}

/// Whether two texts are equal.
pub fn same_text(a: &str, b: &str) -> (r: bool)
    ensures
        r == (a@ == b@),
{
    let n = a.unicode_len();
    if n != b.unicode_len() {
        return false;
    }
    let mut i: usize = 0;
    while i < n
        invariant
            n == a@.len() == b@.len(),
            i <= n,
            forall|j: int| 0 <= j < i ==> a@[j] == b@[j],
        decreases n - i,
    {
        if a.get_char(i) != b.get_char(i) {
            return false;
        }
        i = i + 1;
    }
    assert(a@ =~= b@);
    true
}

/// The error that a bus error reply stands for.
pub fn classify_error(name: String, message: String) -> (r: RpcError)
    ensures
        classifies(r, name@, message@),
{
    let n = name.as_str();
    if same_text(n, "org.freedesktop.DBus.Error.Timeout") || same_text(n, "org.freedesktop.DBus.Error.NoReply") {
        RpcError::Timeout
    } else if same_text(n, "org.freedesktop.DBus.Error.Disconnected") || same_text(
        n,
        "org.freedesktop.DBus.Error.IOError",
    ) {
        RpcError::Transport { message }
    } else {
        RpcError::Remote { code: name, message }
    }
}

/// Whether an error leaves the link unusable: only a broken transport does;
/// a timeout or a rejection by the service leaves it reusable.
pub fn breaks_link<T>(r: &Result<T, RpcError>) -> (b: bool)
    ensures
        b == (r matches Err(e) && e is Transport),
{
    match r {
        Err(RpcError::Transport { .. }) => true,
        _ => false,
    }
}

/// The shape of `args`.
pub fn kinds_of(args: &Vec<WireValue>) -> (r: Vec<WireKind>)
    ensures
        r@ == kinds(args@),
{
    let mut r: Vec<WireKind> = Vec::new();
    let mut i: usize = 0;
    while i < args.len()
        invariant
            i <= args.len(),
            r@ == kinds(args@).subrange(0, i as int),
        decreases args.len() - i,
    {
        r.push(args[i].kind());
        i = i + 1;
        assert(r@ =~= kinds(args@).subrange(0, i as int));
    }
    assert(r@ =~= kinds(args@));
    r
}

pub(crate) fn marshalling(op: Operation, expected: Vec<WireKind>, actual: Vec<WireKind>) -> (r: RpcError)
    ensures
        marshalling_error(r, op, expected@, actual@),
{
    RpcError::Marshalling {
        interface: "org.freedesktop.systemd1.Manager".to_owned(),
        member: op.member().to_owned(),
        expected,
        actual,
    }
}

/// A call ready to go on the wire.
pub struct CallRequest {
    pub destination: String,
    pub path: ObjectPath,
    pub interface: String,
    pub member: String,
    pub signature: String,
    pub args: Vec<WireValue>,
    pub timeout_ms: u64,
}

/// The call of `op` on `target` with `args`, as the descriptor of `op` fixes it.
pub(crate) fn request_for(target: &RemoteObjectRef, op: Operation, args: Vec<WireValue>) -> (q: CallRequest)
    ensures
        q.destination@ == target.service@,
        q.path == target.path,
        q.interface@ == manager_interface(),
        q.member@ == member_of(op),
        q.signature@ == arg_signature(op),
        q.args@ == args@,
        q.timeout_ms == CALL_TIMEOUT_MS,
{
    let d = op.descriptor();
    CallRequest {
        destination: target.service.clone(),
        path: target.path.duplicate(),
        interface: d.interface.to_owned(),
        member: d.member.to_owned(),
        signature: d.signature.to_owned(),
        args,
        timeout_ms: d.timeout_ms,
    }
}

/// Builds the call of `op` on `target`: `Ok` exactly when `args` have the
/// shape that the operation fixes.
pub fn prepare_call(target: &RemoteObjectRef, op: Operation, args: Vec<WireValue>) -> (r: Result<CallRequest, RpcError>)
    ensures
        r is Ok <==> kinds(args@) == arg_shape(op),
        r matches Ok(q) ==> {
            &&& q.destination@ == target.service@
            &&& q.path == target.path
            &&& q.interface@ == manager_interface()
            &&& q.member@ == member_of(op)
            &&& q.signature@ == arg_signature(op)
            &&& q.args@ == args@
            &&& q.timeout_ms == CALL_TIMEOUT_MS
        },
        r matches Err(e) ==> marshalling_error(e, op, arg_shape(op), kinds(args@)),
{
    let d = op.descriptor();
    match check_shape(&args, &d.args) {
        Ok(()) => Ok(request_for(target, op, args)),
        Err(_) => {
            let actual = kinds_of(&args);
            Err(marshalling(op, d.args, actual))
        },
    }
}

/// What came back for a call: reply values, or a bus error.
pub enum CallOutcome {
    Reply(Vec<WireValue>),
    Error { name: String, message: String },
}

/// The reply has the shape that `op` fixes.
pub open spec fn reply_fits(op: Operation, outcome: CallOutcome) -> bool {
    outcome matches CallOutcome::Reply(v) && kinds(v@) == reply_shape(op)
}

/// `e` is the error that `outcome` of a call of `op` gives.
pub open spec fn call_error(op: Operation, outcome: CallOutcome, e: RpcError) -> bool {
    match outcome {
        CallOutcome::Reply(v) => kinds(v@) != reply_shape(op) && marshalling_error(e, op, reply_shape(op), kinds(v@)),
        CallOutcome::Error { name, message } => classifies(e, name@, message@),
    }
}

/// The values of a reply.
pub open spec fn reply_values(outcome: CallOutcome) -> Seq<WireValue> {
    outcome->Reply_0@
}

/// Checks what came back for a call of `op`: the reply values when they have
/// the shape that the operation fixes, else the error they stand for.
pub fn complete_call(op: Operation, outcome: CallOutcome) -> (r: Result<Vec<WireValue>, RpcError>)
    ensures
        r is Ok <==> reply_fits(op, outcome),
        r matches Ok(v) ==> v@ == reply_values(outcome),
        r matches Err(e) ==> call_error(op, outcome, e),
{
    match outcome {
        CallOutcome::Reply(values) => {
            let want = op.reply_kinds();
            match check_shape(&values, &want) {
                Ok(()) => Ok(values),
                Err(_) => {
                    let actual = kinds_of(&values);
                    Err(marshalling(op, want, actual))
                },
            }
        },
        CallOutcome::Error { name, message } => Err(classify_error(name, message)),
    }
}

/// The object path that a call of `op` returns.
pub fn decode_path(op: Operation, outcome: CallOutcome) -> (r: Result<ObjectPath, RpcError>)
    requires
        reply_shape(op) == seq![WireKind::ObjPath],
    ensures
        r is Ok <==> reply_fits(op, outcome),
        r matches Ok(p) ==> p == reply_values(outcome)[0]->ObjPath_0,
        r matches Err(e) ==> call_error(op, outcome, e),
{
    match complete_call(op, outcome) {
        Ok(values) => {
            let mut values = values;
            assert(kinds(values@) == reply_shape(op));
            assert(values@.len() == kinds(values@).len());
            assert(kinds(values@)[0] == WireKind::ObjPath);
            Ok(crate::wire::into_path(crate::wire::take_last(&mut values)))
        },
        Err(e) => Err(e),
    }
}

/// The text that a call of `op` returns.
pub fn decode_text(op: Operation, outcome: CallOutcome) -> (r: Result<String, RpcError>)
    requires
        reply_shape(op) == seq![WireKind::Str],
    ensures
        r is Ok <==> reply_fits(op, outcome),
        r matches Ok(s) ==> s == reply_values(outcome)[0]->Str_0,
        r matches Err(e) ==> call_error(op, outcome, e),
{
    match complete_call(op, outcome) {
        Ok(values) => {
            let mut values = values;
            assert(kinds(values@) == reply_shape(op));
            assert(values@.len() == kinds(values@).len());
            assert(kinds(values@)[0] == WireKind::Str);
            Ok(crate::wire::into_string(crate::wire::take_last(&mut values)))
        },
        Err(e) => Err(e),
    }
}

/// The outcome of a call of `op` that returns nothing.
pub fn decode_unit(op: Operation, outcome: CallOutcome) -> (r: Result<(), RpcError>)
    requires
        reply_shape(op) == Seq::<WireKind>::empty(),
    ensures
        r is Ok <==> reply_fits(op, outcome),
        r matches Err(e) ==> call_error(op, outcome, e),
{
    match complete_call(op, outcome) {
        Ok(_) => Ok(()),
        Err(e) => Err(e),
    }
}

} // verus!
