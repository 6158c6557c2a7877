use vstd::prelude::*;

use crate::text::{spec_split, split_on};

verus! {

/// A live, enumerated device. Immutable once enumerated; owned by the run
/// loop for the duration of one pass. The classification identifier is held
/// as the GUID's 128-bit value.
pub struct Device {
    pub is_generic: bool,
    pub instance_id: String,
    pub hardware_ids: Vec<String>,
    pub friendly_name: Option<String>,
    pub description: Option<String>,
    pub manufacturer: Option<String>,
    pub driver_name: Option<String>,
    pub class: Option<String>,
    pub class_guid: u128,
    pub inf_name: Option<String>,
    pub inf_original_name: Option<String>,
    pub inf_section: Option<String>,
    pub inf_provider: Option<String>,
    pub driver_store_location: Option<String>,
}

impl Device {
    /// Build a device record. The hardware identifiers arrive as one
    /// NUL-separated string, as the system's registry stores them, and are
    /// split into the individual identifiers; absent data yields none.
    #[allow(clippy::too_many_arguments)]
    pub fn new(
        is_generic: bool,
        instance_id: String,
        hardware_ids: Option<String>,
        friendly_name: Option<String>,
        description: Option<String>,
        manufacturer: Option<String>,
        driver_name: Option<String>,
        class: Option<String>,
        class_guid: u128,
        inf_name: Option<String>,
        inf_original_name: Option<String>,
        inf_section: Option<String>,
        inf_provider: Option<String>,
        driver_store_location: Option<String>,
    ) -> (r: Device)
        ensures
            r.is_generic == is_generic,
            r.instance_id == instance_id,
            r.hardware_ids.deep_view() == match hardware_ids {
                Option::Some(s) => spec_split(s@, '\u{0}'),
                Option::None => Seq::<Seq<char>>::empty(),
            },
            r.friendly_name == friendly_name,
            r.description == description,
            r.manufacturer == manufacturer,
            r.driver_name == driver_name,
            r.class == class,
            r.class_guid == class_guid,
            r.inf_name == inf_name,
            r.inf_original_name == inf_original_name,
            r.inf_section == inf_section,
            r.inf_provider == inf_provider,
            r.driver_store_location == driver_store_location,
    {
        let ids: Vec<String> = match hardware_ids {
            Option::Some(s) => split_on(&s, '\u{0}'),
            Option::None => {
                let v: Vec<String> = Vec::new();
                proof {
                    assert(v.deep_view() =~= Seq::<Seq<char>>::empty());
                }
                v
            },
        };
        Device {
            is_generic,
            instance_id,
            hardware_ids: ids,
            friendly_name,
            description,
            manufacturer,
            driver_name,
            class,
            class_guid,
            inf_name,
            inf_original_name,
            inf_section,
            inf_provider,
            driver_store_location,
        }
    }

    /// The name shown for the device: its friendly name when the system
    /// reports one, otherwise its description.
    pub fn display_name(&self) -> (r: Option<&String>)
        ensures
            match self.friendly_name {
                Option::Some(n) => r matches Option::Some(s) && s == n,
                Option::None => match self.description {
                    Option::Some(d) => r matches Option::Some(s) && s == d,
                    Option::None => r is None,
                },
            },
    {
        match &self.friendly_name {
            Option::Some(name) => Option::Some(name),
            Option::None => self.description.as_ref(),
        }
    }

    /// The one-line label used when the device is announced: the display
    /// name followed by the instance id in parentheses, or the instance id
    /// alone when no name is known.
    pub fn display_label(&self) -> (r: String)
        ensures
            r@ == match self.friendly_name {
                Option::Some(n) => n@ + " ("@ + self.instance_id@ + ")"@,
                Option::None => match self.description {
                    Option::Some(d) => d@ + " ("@ + self.instance_id@ + ")"@,
                    Option::None => self.instance_id@,
                },
            },
    {
        match self.display_name() {
            Option::Some(name) => {
                let mut label = name.clone();
                label.append(" (");
                label.append(self.instance_id.as_str());
                label.append(")");
                label
            },
            Option::None => self.instance_id.clone(),
        }
    }
}

/// A live, enumerated device driver, identified by its installed inf file.
pub struct Driver {
    pub inf_name: String,
    pub inf_original_name: Option<String>,
    pub driver_store_location: Option<String>,
    pub provider: Option<String>,
    pub class: Option<String>,
    pub class_guid: u128,
}

impl Driver {
    pub fn new(
        inf_name: String,
        inf_original_name: Option<String>,
        driver_store_location: Option<String>,
        provider: Option<String>,
        class: Option<String>,
        class_guid: u128,
    ) -> (r: Driver)
        ensures
            r.inf_name == inf_name,
            r.inf_original_name == inf_original_name,
            r.driver_store_location == driver_store_location,
            r.provider == provider,
            r.class == class,
            r.class_guid == class_guid,
    {
        Driver { inf_name, inf_original_name, driver_store_location, provider, class, class_guid }
    }

    /// The one-line label used when the driver is announced: the installed
    /// inf name, with the original inf name in parentheses when known.
    pub fn display_label(&self) -> (r: String)
        ensures
            r@ == match self.inf_original_name {
                Option::Some(o) => self.inf_name@ + " ("@ + o@ + ")"@,
                Option::None => self.inf_name@,
            },
    {
        match &self.inf_original_name {
            Option::Some(original) => {
                let mut label = self.inf_name.clone();
                label.append(" (");
                label.append(original.as_str());
                label.append(")");
                label
            },
            Option::None => self.inf_name.clone(),
        }
    }
}

/// A live, enumerated driver software package, identified by its registry
/// uninstall-key path.
pub struct DriverPackage {
    pub x86: bool,
    pub key_name: String,
    pub display_name: Option<String>,
    pub display_version: Option<String>,
    pub publisher: Option<String>,
    pub install_location: Option<String>,
    pub uninstall_string: Option<String>,
}

impl DriverPackage {
    pub fn new(
        x86: bool,
        key_name: String,
        display_name: Option<String>,
        display_version: Option<String>,
        publisher: Option<String>,
        install_location: Option<String>,
        uninstall_string: Option<String>,
    ) -> (r: DriverPackage)
        ensures
            r.x86 == x86,
            r.key_name == key_name,
            r.display_name == display_name,
            r.display_version == display_version,
            r.publisher == publisher,
            r.install_location == install_location,
            r.uninstall_string == uninstall_string,
    {
        DriverPackage {
            x86,
            key_name,
            display_name,
            display_version,
            publisher,
            install_location,
            uninstall_string,
        }
    }

    /// The one-line label used when the package is announced: its display
    /// name, or its registry key path when no display name is recorded.
    pub fn display_label(&self) -> (r: String)
        ensures
            r@ == match self.display_name {
                Option::Some(n) => n@,
                Option::None => self.key_name@,
            },
    {
        match &self.display_name {
            Option::Some(name) => name.clone(),
            Option::None => self.key_name.clone(),
        }
    }
}

} // verus!
