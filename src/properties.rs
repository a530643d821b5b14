use vstd::prelude::*;
use crate::wire::{
    check_shape, into_entries, into_string, into_strings, kinds, reports_mismatch, take_last,
    TypeMismatchError, WireKind, WireValue,
};

verus! {

/// Signal sent when properties of an object change: the interface, the new
/// values by name, and the names whose values were dropped.
#[derive(Debug, PartialEq)]
pub struct DBusPropertiesPropertiesChanged {
    pub interface: String,
    pub changed_properties: Vec<(String, WireValue)>,
    pub invalidated_properties: Vec<String>,
}

impl DBusPropertiesPropertiesChanged {
    /// The positional shape of this record on the wire.
    pub open spec fn shape() -> Seq<WireKind> {
        seq![WireKind::Str, WireKind::Dict, WireKind::StrArray]
    }

    /// The values of this record, in wire order.
    pub open spec fn wire(self) -> Seq<WireValue> {
        seq![WireValue::Str(self.interface), WireValue::Dict(self.changed_properties), WireValue::StrArray(self.invalidated_properties)]
    }

    /// The record whose values are `s`, which has the record's shape.
    pub open spec fn of_wire(s: Seq<WireValue>) -> Self {
        DBusPropertiesPropertiesChanged { interface: s[0]->Str_0, changed_properties: s[1]->Dict_0, invalidated_properties: s[2]->StrArray_0 }
    }

    pub(crate) fn shape_vec() -> (r: Vec<WireKind>)
        ensures
            r@ == Self::shape(),
    {
        vec![WireKind::Str, WireKind::Dict, WireKind::StrArray]
    }

    /// Appends the values of this record to `out`, in wire order; the record
    /// moves into the values, since dictionary values are not copied.
    pub fn append(self, out: &mut Vec<WireValue>)
        ensures
            final(out)@ == old(out)@ + self.wire(),
    {
        let ghost w = self.wire();
        out.push(WireValue::Str(self.interface));
        out.push(WireValue::Dict(self.changed_properties));
        out.push(WireValue::StrArray(self.invalidated_properties));
        assert(final(out)@ =~= old(out)@ + w);
    }

    /// Reads the record from `args`: `Ok` exactly when the values have the
    /// record's shape, else the first position where they break it.
    pub fn read(args: Vec<WireValue>) -> (r: Result<DBusPropertiesPropertiesChanged, TypeMismatchError>)
        ensures
            match r {
                Ok(x) => kinds(args@) == Self::shape() && x == Self::of_wire(args@),
                Err(e) => kinds(args@) != Self::shape() && reports_mismatch(e, kinds(args@), Self::shape()),
            },
    {
        let shape = Self::shape_vec();
        match check_shape(&args, &shape) {
            Err(e) => Err(e),
            Ok(()) => {
                let ghost s = args@;
                assert(s.len() == kinds(s).len());
                assert(kinds(s)[0] == WireKind::Str);
                assert(kinds(s)[1] == WireKind::Dict);
                assert(kinds(s)[2] == WireKind::StrArray);
                let mut args = args;
                let invalidated_properties = into_strings(take_last(&mut args));
                let changed_properties = into_entries(take_last(&mut args));
                let interface = into_string(take_last(&mut args));
                Ok(DBusPropertiesPropertiesChanged { interface, changed_properties, invalidated_properties })
            },
        }
    }
}

/// A properties-changed signal read back from its own values is the same signal.
pub proof fn lemma_properties_changed_round_trip(x: DBusPropertiesPropertiesChanged)
    ensures
        kinds(x.wire()) == DBusPropertiesPropertiesChanged::shape(),
        DBusPropertiesPropertiesChanged::of_wire(x.wire()) == x,
{
    assert(kinds(x.wire()) =~= DBusPropertiesPropertiesChanged::shape());
}
} // verus!
