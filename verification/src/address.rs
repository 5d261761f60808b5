//! The fixed addressing of the remote Bluetooth adapter object.

use vstd::prelude::*;
use vstd::string::StringExecFns;

verus! {

/// Where the remote property-write goes: the bus name of the Bluetooth
/// service, the object path of the first adapter, and the generic
/// property-management interface spoken to. Constant for the process
/// lifetime; this control does not discover or enumerate adapters.
pub struct AdapterAddress {
    pub service: String,
    pub object_path: String,
    pub properties_interface: String,
}

/// Mathematical model of an `AdapterAddress`.
pub struct AdapterAddressView {
    pub service: Seq<char>,
    pub object_path: Seq<char>,
    pub properties_interface: Seq<char>,
}

impl View for AdapterAddress {
    type V = AdapterAddressView;

    open spec fn view(&self) -> AdapterAddressView {
        AdapterAddressView {
            service: self.service@,
            object_path: self.object_path@,
            properties_interface: self.properties_interface@,
        }
    }
}

/// The address of the first adapter, as every invocation uses it.
pub open spec fn first_adapter_view() -> AdapterAddressView {
    AdapterAddressView {
        service: "org.bluez"@,
        object_path: "/org/bluez/hci0"@,
        properties_interface: "org.freedesktop.DBus.Properties"@,
    }
}

impl AdapterAddress {
    /// Builds the constant address of the first Bluetooth adapter.
    pub fn first_adapter() -> (r: AdapterAddress)
        ensures
            r@ == first_adapter_view(),
    {
        AdapterAddress {
            service: String::from_str("org.bluez"),
            object_path: String::from_str("/org/bluez/hci0"),
            properties_interface: String::from_str("org.freedesktop.DBus.Properties"),
        }
    }
}

/// The arguments of the one remote call this control ever makes: the `Set`
/// method of the property-management interface, told to write the `Powered`
/// property of the adapter interface to the desired boolean.
pub struct SetPoweredRequest {
    pub adapter_interface: String,
    pub property: String,
    pub value: bool,
}

/// Mathematical model of a `SetPoweredRequest`.
pub struct SetPoweredRequestView {
    pub adapter_interface: Seq<char>,
    pub property: Seq<char>,
    pub value: bool,
}

impl View for SetPoweredRequest {
    type V = SetPoweredRequestView;

    open spec fn view(&self) -> SetPoweredRequestView {
        SetPoweredRequestView {
            adapter_interface: self.adapter_interface@,
            property: self.property@,
            value: self.value@,
        }
    }
}

/// The property-write request that applies `desired`.
pub open spec fn set_powered_request_view(desired: bool) -> SetPoweredRequestView {
    SetPoweredRequestView {
        adapter_interface: "org.bluez.Adapter1"@,
        property: "Powered"@,
        value: desired,
    }
}

impl SetPoweredRequest {
    /// Builds the request that writes the `Powered` property to `desired`.
    pub fn set_powered(desired: bool) -> (r: SetPoweredRequest)
        ensures
            r@ == set_powered_request_view(desired),
    {
        SetPoweredRequest {
            adapter_interface: String::from_str("org.bluez.Adapter1"),
            property: String::from_str("Powered"),
            value: desired,
        }
    }
}

} // verus!
