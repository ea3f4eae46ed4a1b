//! A discovered peripheral and the text that describes it.

use vstd::prelude::*;
use crate::decimal::{decimal, i8_to_decimal};

verus! {

/// One peripheral as the central service reports it in a scan result.
#[derive(Clone, Debug, PartialEq, Eq)]
pub struct RemoteDevice {
    /// The identifier that the service assigned to the peripheral.
    pub identifier: String,
    /// Whether the peripheral accepts connections.
    pub connectable: bool,
    /// The received signal strength, where the service measured one.
    pub rssi: Option<i8>,
    /// The name that the peripheral advertises, where it advertises one.
    pub name: Option<String>,
}

/// A discovered peripheral as plain mathematical values.
pub ghost struct RemoteDeviceView {
    pub identifier: Seq<char>,
    pub connectable: bool,
    pub rssi: Option<int>,
    pub name: Option<Seq<char>>,
}

impl View for RemoteDevice {
    type V = RemoteDeviceView;

    open spec fn view(&self) -> RemoteDeviceView {
        RemoteDeviceView {
            identifier: self.identifier@,
            connectable: self.connectable,
            rssi: match self.rssi {
                Some(r) => Some(r as int),
                None => None,
            },
            name: match self.name {
                Some(n) => Some(n@),
                None => None,
            },
        }
    }
}

/// The tag that says whether a peripheral accepts connections.
pub open spec fn connectable_tag(connectable: bool) -> Seq<char> {
    if connectable {
        "conn"@
    } else {
        "non-conn"@
    }
}

/// The signal strength part of a description: empty where none was measured.
pub open spec fn rssi_part(rssi: Option<int>) -> Seq<char> {
    match rssi {
        Some(r) => "rssi: "@ + decimal(r) + ", "@,
        None => Seq::<char>::empty(),
    }
}

/// The name part of a description: empty where none is advertised.
pub open spec fn name_part(name: Option<Seq<char>>) -> Seq<char> {
    match name {
        Some(n) => n + ", "@,
        None => Seq::<char>::empty(),
    }
}

/// The description of a peripheral: one space, then in brackets the
/// connectability tag, the signal strength and the name where present, and
/// the identifier, in that order.
pub open spec fn device_text(d: RemoteDeviceView) -> Seq<char> {
    " [device("@ + connectable_tag(d.connectable) + "), "@ + rssi_part(d.rssi) + name_part(d.name)
        + "id: "@ + d.identifier + "]"@
}

/// Describes a peripheral as text.
pub fn describe_device(device: &RemoteDevice) -> (s: String)
    ensures
        s@ == device_text(device@),
{
    let mut s = String::from_str(" [device(");
    if device.connectable {
        s.append("conn");
    } else {
        s.append("non-conn");
    }
    s.append("), ");
    let ghost head = s@;
    match &device.rssi {
        Some(r) => {
            let digits = i8_to_decimal(*r);
            s.append("rssi: ");
            s.append(digits.as_str());
            s.append(", ");
        },
        None => {},
    }
    assert(s@ =~= head + rssi_part(device@.rssi));
    let ghost mid = s@;
    match &device.name {
        Some(n) => {
            s.append(n.as_str());
            s.append(", ");
        },
        None => {},
    }
    assert(s@ =~= mid + name_part(device@.name));
    s.append("id: ");
    s.append(device.identifier.as_str());
    s.append("]");
    s
}

/// A discovered peripheral, held for display.
#[derive(Clone, Debug, PartialEq, Eq)]
pub struct RemoteDeviceWrapper(pub RemoteDevice);

impl RemoteDeviceWrapper {
    /// The description of the peripheral as text.
    pub fn to_text(&self) -> (s: String)
        ensures
            s@ == device_text(self.0@),
    {
        describe_device(&self.0)
    }
}

} // verus!
