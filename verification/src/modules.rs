use vstd::prelude::*;

use crate::criteria::{DeviceToUninstall, DriverPackageToUninstall, DriverToUninstall};

verus! {

/// The module that removes devices. It holds the rules loaded for the
/// current run; enumeration and the removal call itself are supplied by
/// the OS-integration layer.
pub struct DeviceCleanupModule {
    objects_to_uninstall: Vec<DeviceToUninstall>,
}

impl DeviceCleanupModule {
    pub closed spec fn spec_objects_to_uninstall(&self) -> Seq<DeviceToUninstall> {
        self.objects_to_uninstall@
    }

    pub fn new() -> (r: Self)
        ensures
            r.spec_objects_to_uninstall() == Seq::<DeviceToUninstall>::empty(),
    {
        let r = DeviceCleanupModule { objects_to_uninstall: Vec::new() };
        proof {
            assert(r.spec_objects_to_uninstall() =~= Seq::<DeviceToUninstall>::empty());
        }
        r
    }

    /// Install the criteria loaded for this run; they are read-only
    /// thereafter.
    pub fn set_objects_to_uninstall(&mut self, objects: Vec<DeviceToUninstall>)
        ensures
            final(self).spec_objects_to_uninstall() == objects@,
    {
        self.objects_to_uninstall = objects;
    }

    pub fn get_objects_to_uninstall(&self) -> (r: &Vec<DeviceToUninstall>)
        ensures
            r@ == self.spec_objects_to_uninstall(),
    {
        &self.objects_to_uninstall
    }

    pub fn name(&self) -> (r: &'static str)
        ensures
            r@ == "Device Cleanup"@,
    {
        "Device Cleanup"
    }

    pub fn cli_name(&self) -> (r: &'static str)
        ensures
            r@ == "device-cleanup"@,
    {
        "device-cleanup"
    }

    pub fn help(&self) -> (r: &'static str)
        ensures
            r@ == "remove devices from the system"@,
    {
        "remove devices from the system"
    }

    pub fn noun(&self) -> (r: &'static str)
        ensures
            r@ == "devices"@,
    {
        "devices"
    }

    /// The fixed name of this module's identifier file.
    pub fn identifier_file(&self) -> (r: &'static str)
        ensures
            r@ == "device_identifiers.json"@,
    {
        "device_identifiers.json"
    }
}

/// The module that removes device drivers.
pub struct DriverCleanupModule {
    objects_to_uninstall: Vec<DriverToUninstall>,
}

impl DriverCleanupModule {
    pub closed spec fn spec_objects_to_uninstall(&self) -> Seq<DriverToUninstall> {
        self.objects_to_uninstall@
    }

    pub fn new() -> (r: Self)
        ensures
            r.spec_objects_to_uninstall() == Seq::<DriverToUninstall>::empty(),
    {
        let r = DriverCleanupModule { objects_to_uninstall: Vec::new() };
        proof {
            assert(r.spec_objects_to_uninstall() =~= Seq::<DriverToUninstall>::empty());
        }
        r
    }

    pub fn set_objects_to_uninstall(&mut self, objects: Vec<DriverToUninstall>)
        ensures
            final(self).spec_objects_to_uninstall() == objects@,
    {
        self.objects_to_uninstall = objects;
    }

    pub fn get_objects_to_uninstall(&self) -> (r: &Vec<DriverToUninstall>)
        ensures
            r@ == self.spec_objects_to_uninstall(),
    {
        &self.objects_to_uninstall
    }

    pub fn name(&self) -> (r: &'static str)
        ensures
            r@ == "Driver Cleanup"@,
    {
        "Driver Cleanup"
    }

    pub fn cli_name(&self) -> (r: &'static str)
        ensures
            r@ == "driver-cleanup"@,
    {
        "driver-cleanup"
    }

    pub fn help(&self) -> (r: &'static str)
        ensures
            r@ == "uninstall device drivers from the system"@,
    {
        "uninstall device drivers from the system"
    }

    pub fn noun(&self) -> (r: &'static str)
        ensures
            r@ == "drivers"@,
    {
        "drivers"
    }

    pub fn identifier_file(&self) -> (r: &'static str)
        ensures
            r@ == "driver_identifiers.json"@,
    {
        "driver_identifiers.json"
    }
}

/// The module that removes driver software packages.
pub struct DriverPackageCleanupModule {
    objects_to_uninstall: Vec<DriverPackageToUninstall>,
}

impl DriverPackageCleanupModule {
    pub closed spec fn spec_objects_to_uninstall(&self) -> Seq<DriverPackageToUninstall> {
        self.objects_to_uninstall@
    }

    pub fn new() -> (r: Self)
        ensures
            r.spec_objects_to_uninstall() == Seq::<DriverPackageToUninstall>::empty(),
    {
        let r = DriverPackageCleanupModule { objects_to_uninstall: Vec::new() };
        proof {
            assert(r.spec_objects_to_uninstall() =~= Seq::<DriverPackageToUninstall>::empty());
        }
        r
    }

    pub fn set_objects_to_uninstall(&mut self, objects: Vec<DriverPackageToUninstall>)
        ensures
            final(self).spec_objects_to_uninstall() == objects@,
    {
        self.objects_to_uninstall = objects;
    }

    pub fn get_objects_to_uninstall(&self) -> (r: &Vec<DriverPackageToUninstall>)
        ensures
            r@ == self.spec_objects_to_uninstall(),
    {
        &self.objects_to_uninstall
    }

    pub fn name(&self) -> (r: &'static str)
        ensures
            r@ == "Driver Package Cleanup"@,
    {
        "Driver Package Cleanup"
    }

    pub fn cli_name(&self) -> (r: &'static str)
        ensures
            r@ == "driver-package-cleanup"@,
    {
        "driver-package-cleanup"
    }

    pub fn help(&self) -> (r: &'static str)
        ensures
            r@ == "uninstall driver software packages"@,
    {
        "uninstall driver software packages"
    }

    pub fn noun(&self) -> (r: &'static str)
        ensures
            r@ == "driver packages"@,
    {
        "driver packages"
    }

    pub fn identifier_file(&self) -> (r: &'static str)
        ensures
            r@ == "driver_package_identifiers.json"@,
    {
        "driver_package_identifiers.json"
    }
}

} // verus!
