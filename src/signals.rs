use vstd::prelude::*;
use crate::job::{Systemd1ManagerJobNew, Systemd1ManagerJobRemoved};
use crate::manager::{Systemd1ManagerReloading, Systemd1ManagerStartupFinished};
use crate::properties::DBusPropertiesPropertiesChanged;
use crate::unit::{Systemd1ManagerUnitFilesChanged, Systemd1ManagerUnitNew, Systemd1ManagerUnitRemoved};
use crate::wire::WireKind;
use crate::call::same_text;

verus! {

/// The broadcasts that this library reads.
#[derive(Clone, Copy, Debug, PartialEq, Eq, Structural)]
pub enum Signal {
    JobNew,
    JobRemoved,
    UnitNew,
    UnitRemoved,
    UnitFilesChanged,
    StartupFinished,
    Reloading,
    PropertiesChanged,
}

/// The interface that sends each signal.
pub open spec fn signal_interface(s: Signal) -> Seq<char> {
    match s {
        Signal::JobNew => "org.freedesktop.systemd1.Manager"@,
        Signal::JobRemoved => "org.freedesktop.systemd1.Manager"@,
        Signal::UnitNew => "org.freedesktop.systemd1.Manager"@,
        Signal::UnitRemoved => "org.freedesktop.systemd1.Manager"@,
        Signal::UnitFilesChanged => "org.freedesktop.systemd1.Manager"@,
        Signal::StartupFinished => "org.freedesktop.systemd1.Manager"@,
        Signal::Reloading => "org.freedesktop.systemd1.Manager"@,
        Signal::PropertiesChanged => "org.freedesktop.DBus.Properties"@,
    }
}

/// The member name of each signal.
pub open spec fn signal_member(s: Signal) -> Seq<char> {
    match s {
        Signal::JobNew => "JobNew"@,
        Signal::JobRemoved => "JobRemoved"@,
        Signal::UnitNew => "UnitNew"@,
        Signal::UnitRemoved => "UnitRemoved"@,
        Signal::UnitFilesChanged => "UnitFilesChanged"@,
        Signal::StartupFinished => "StartupFinished"@,
        Signal::Reloading => "Reloading"@,
        Signal::PropertiesChanged => "PropertiesChanged"@,
    }
}

/// The payload shape of each signal: that of the record that carries it.
pub open spec fn signal_shape(s: Signal) -> Seq<WireKind> {
    match s {
        Signal::JobNew => Systemd1ManagerJobNew::shape(),
        Signal::JobRemoved => Systemd1ManagerJobRemoved::shape(),
        Signal::UnitNew => Systemd1ManagerUnitNew::shape(),
        Signal::UnitRemoved => Systemd1ManagerUnitRemoved::shape(),
        Signal::UnitFilesChanged => Systemd1ManagerUnitFilesChanged::shape(),
        Signal::StartupFinished => Systemd1ManagerStartupFinished::shape(),
        Signal::Reloading => Systemd1ManagerReloading::shape(),
        Signal::PropertiesChanged => DBusPropertiesPropertiesChanged::shape(),
    }
}

impl Signal {
    /// The interface that sends this signal.
    pub fn interface(&self) -> (r: &'static str)
        ensures
            r@ == signal_interface(*self),
    {
        match self {
            Signal::JobNew => "org.freedesktop.systemd1.Manager",
            Signal::JobRemoved => "org.freedesktop.systemd1.Manager",
            Signal::UnitNew => "org.freedesktop.systemd1.Manager",
            Signal::UnitRemoved => "org.freedesktop.systemd1.Manager",
            Signal::UnitFilesChanged => "org.freedesktop.systemd1.Manager",
            Signal::StartupFinished => "org.freedesktop.systemd1.Manager",
            Signal::Reloading => "org.freedesktop.systemd1.Manager",
            Signal::PropertiesChanged => "org.freedesktop.DBus.Properties",
        }
    }

    /// The payload shape of this signal.
    pub fn shape(&self) -> (r: Vec<WireKind>)
        ensures
            r@ == signal_shape(*self),
    {
        match self {
            Signal::JobNew => Systemd1ManagerJobNew::shape_vec(),
            Signal::JobRemoved => Systemd1ManagerJobRemoved::shape_vec(),
            Signal::UnitNew => Systemd1ManagerUnitNew::shape_vec(),
            Signal::UnitRemoved => Systemd1ManagerUnitRemoved::shape_vec(),
            Signal::UnitFilesChanged => Systemd1ManagerUnitFilesChanged::shape_vec(),
            Signal::StartupFinished => Systemd1ManagerStartupFinished::shape_vec(),
            Signal::Reloading => Systemd1ManagerReloading::shape_vec(),
            Signal::PropertiesChanged => DBusPropertiesPropertiesChanged::shape_vec(),
        }
    }

    /// The member name of this signal.
    pub fn member(&self) -> (r: &'static str)
        ensures
            r@ == signal_member(*self),
    {
        match self {
            Signal::JobNew => "JobNew",
            Signal::JobRemoved => "JobRemoved",
            Signal::UnitNew => "UnitNew",
            Signal::UnitRemoved => "UnitRemoved",
            Signal::UnitFilesChanged => "UnitFilesChanged",
            Signal::StartupFinished => "StartupFinished",
            Signal::Reloading => "Reloading",
            Signal::PropertiesChanged => "PropertiesChanged",
        }
    }
}

/// Every signal, in table order.
pub fn all_signals() -> (r: Vec<Signal>)
    ensures
        forall|s: Signal| r@.contains(s),
{
    let r = vec![Signal::JobNew, Signal::JobRemoved, Signal::UnitNew, Signal::UnitRemoved, Signal::UnitFilesChanged, Signal::StartupFinished, Signal::Reloading, Signal::PropertiesChanged];
    assert forall|s: Signal| r@.contains(s) by {
        match s {
            Signal::JobNew => assert(r@[0] == s),
            Signal::JobRemoved => assert(r@[1] == s),
            Signal::UnitNew => assert(r@[2] == s),
            Signal::UnitRemoved => assert(r@[3] == s),
            Signal::UnitFilesChanged => assert(r@[4] == s),
            Signal::StartupFinished => assert(r@[5] == s),
            Signal::Reloading => assert(r@[6] == s),
            Signal::PropertiesChanged => assert(r@[7] == s),
        }
    }
    r
}

/// The signal that arrived with this interface and member name, if it is
/// one of the table.
pub fn identify_signal(interface: &str, member: &str) -> (r: Option<Signal>)
    ensures
        r matches Some(s) ==> signal_interface(s) == interface@ && signal_member(s) == member@,
        r is None ==> forall|s: Signal| !(signal_interface(s) == interface@ && signal_member(s) == member@),
{
    let table = all_signals();
    let mut i: usize = 0;
    while i < table.len()
        invariant
            i <= table.len(),
            forall|s: Signal| table@.contains(s),
            forall|j: int| 0 <= j < i ==> !(signal_interface(#[trigger] table@[j]) == interface@ && signal_member(table@[j]) == member@),
        decreases table.len() - i,
    {
        let s = table[i];
        if same_text(s.interface(), interface) && same_text(s.member(), member) {
            return Some(s);
        }
        i = i + 1;
    }
    assert forall|s: Signal| !(signal_interface(s) == interface@ && signal_member(s) == member@) by {
        assert(table@.contains(s));
        let j = choose|j: int| 0 <= j < table@.len() && table@[j] == s;
        assert(table@[j] == s);
    }
    None
}

} // verus!
