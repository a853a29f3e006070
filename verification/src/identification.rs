//! Machine identity: the OPC UA for Machinery `Identification` nameplate
//! (OPC 40001-1, building block 2: `MachineIdentificationType`, derived from
//! the DI `IVendorNameplateType`).
//!
//! Maps to `Machines/<id>/Identification/*` in the gateway address space.

use vstd::prelude::*;

verus! {

/// Standard Machinery nameplate. Optional fields are `None` when the machine
/// doesn't report them; required-by-spec fields (`manufacturer`, `model`) are
/// plain `String`. Field names mirror the spec's BrowseNames.
#[derive(Debug, Clone, PartialEq, Eq)]
pub struct Identification {
    /// `Manufacturer`: vendor display name. (Spec: LocalizedText.)
    pub manufacturer: String,
    /// `ManufacturerUri`: globally-unique vendor URI.
    pub manufacturer_uri: Option<String>,
    /// `Model`: model name. (Spec: LocalizedText.)
    pub model: String,
    /// `ProductCode`: vendor-specific product/order code.
    pub product_code: Option<String>,
    /// `ProductInstanceUri`: globally-unique id of this physical instance.
    pub product_instance_uri: Option<String>,
    /// `SerialNumber`: unique within the manufacturer's `ManufacturerUri`.
    pub serial_number: Option<String>,
    /// `DeviceClass`: class of device, e.g. `"RollFormer"`, `"Robot"`.
    pub device_class: Option<String>,
    /// `HardwareRevision`.
    pub hardware_revision: Option<String>,
    /// `SoftwareRevision`.
    pub software_revision: Option<String>,
    /// `YearOfConstruction` (4-digit).
    pub year_of_construction: Option<u16>,
    /// `Location`: human-readable installation location.
    pub location: Option<String>,
}

impl Identification {
    /// Every field that the spec does not require is unreported (`None`).
    pub open spec fn optional_fields_unset(self) -> bool {
        &&& self.manufacturer_uri is None
        &&& self.product_code is None
        &&& self.product_instance_uri is None
        &&& self.serial_number is None
        &&& self.device_class is None
        &&& self.hardware_revision is None
        &&& self.software_revision is None
        &&& self.year_of_construction is None
        &&& self.location is None
    }

    /// The two spec-required fields; everything else defaults to `None`.
    pub fn new(manufacturer: &str, model: &str) -> (id: Self)
        ensures
            id.manufacturer@ == manufacturer@,
            id.model@ == model@,
            id.optional_fields_unset(),
            id.manufacturer_uri is None,
            id.product_code is None,
            id.product_instance_uri is None,
            id.serial_number is None,
            id.device_class is None,
            id.hardware_revision is None,
            id.software_revision is None,
            id.year_of_construction is None,
            id.location is None,
    {
        Identification {
            manufacturer: manufacturer.to_owned(),
            model: model.to_owned(),
            ..Identification::default()
        }
    }
}

impl Default for Identification {
    /// The empty nameplate: empty manufacturer and model, nothing else reported.
    fn default() -> (id: Self)
        ensures
            id.manufacturer@ == Seq::<char>::empty(),
            id.model@ == Seq::<char>::empty(),
            id.optional_fields_unset(),
            id.manufacturer_uri is None,
            id.product_code is None,
            id.product_instance_uri is None,
            id.serial_number is None,
            id.device_class is None,
            id.hardware_revision is None,
            id.software_revision is None,
            id.year_of_construction is None,
            id.location is None,
    {
        Identification {
            manufacturer: String::new(),
            manufacturer_uri: None,
            model: String::new(),
            product_code: None,
            product_instance_uri: None,
            serial_number: None,
            device_class: None,
            hardware_revision: None,
            software_revision: None,
            year_of_construction: None,
            location: None,
        }
    }
}

} // verus!
