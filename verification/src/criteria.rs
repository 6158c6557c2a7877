use vstd::prelude::*;

use crate::objects::{Device, Driver, DriverPackage};
use crate::pattern::{spec_field_matches, spec_pattern_hit, PatternCache};

verus! {

/// How a matched driver package is removed: launch its uninstaller and wait
/// for it, launch it and also await a delegate worker process, or only
/// delete its registry uninstall key.
#[derive(Clone, Copy, Debug, PartialEq, Eq, Structural)]
pub enum UninstallMethod {
    Normal,
    Deferred,
    RegistryOnly,
}

/// An authored rule describing which live objects should be uninstalled.
/// Only present fields constrain; an absent field always matches.
pub trait ToUninstall<T> {
    /// What it means for this rule to match a live object.
    spec fn spec_matches(&self, other: &T) -> bool;

    /// Decide whether the rule matches the object, using the shared
    /// compiled-pattern cache.
    fn matches(&self, other: &T, cache: &mut PatternCache) -> (r: bool)
        requires
            old(cache).wf(),
        ensures
            final(cache).wf(),
            r == self.spec_matches(other),
    ;
}

/// A rule for removing devices. Patterns are case-insensitive regular
/// expressions; the classification identifier is compared exactly.
pub struct DeviceToUninstall {
    pub friendly_name: String,
    pub device_desc: Option<String>,
    pub manufacturer: Option<String>,
    pub hardware_id: Option<String>,
    pub class_uuid: Option<u128>,
}

impl ToUninstall<Device> for DeviceToUninstall {
    open spec fn spec_matches(&self, other: &Device) -> bool {
        &&& spec_field_matches(other.description.deep_view(), self.device_desc.deep_view())
        &&& spec_field_matches(other.manufacturer.deep_view(), self.manufacturer.deep_view())
        &&& match self.class_uuid {
            Option::Some(u) => other.class_guid == u,
            Option::None => true,
        }
        &&& match self.hardware_id {
            Option::Some(p) => exists|i: int|
                0 <= i < other.hardware_ids@.len() && spec_pattern_hit(
                    p@,
                    #[trigger] other.hardware_ids@[i]@,
                ),
            Option::None => true,
        }
    }

    fn matches(&self, other: &Device, cache: &mut PatternCache) -> (r: bool) {
        let desc_ok = cache.cached_match(other.description.as_ref(), self.device_desc.as_ref());
        let mfg_ok = cache.cached_match(other.manufacturer.as_ref(), self.manufacturer.as_ref());
        let class_ok = match self.class_uuid {
            Option::Some(u) => other.class_guid == u,
            Option::None => true,
        };
        let hwid_ok = match &self.hardware_id {
            Option::Some(p) => {
                let n = other.hardware_ids.len();
                let mut found = false;
                let mut i: usize = 0;
                while i < n
                    invariant
                        cache.wf(),
                        n == other.hardware_ids@.len(),
                        i <= n,
                        found == exists|k: int|
                            0 <= k < i && spec_pattern_hit(
                                p@,
                                #[trigger] other.hardware_ids@[k]@,
                            ),
                    decreases n - i,
                {
                    if cache.matches(p, &other.hardware_ids[i]) {
                        found = true;
                    }
                    i += 1;
                }
                found
            },
            Option::None => true,
        };
        desc_ok && mfg_ok && class_ok && hwid_ok
    }
}

/// A rule for removing device drivers.
pub struct DriverToUninstall {
    pub friendly_name: String,
    pub original_name: Option<String>,
    pub provider: Option<String>,
    pub class: Option<u128>,
}

impl ToUninstall<Driver> for DriverToUninstall {
    open spec fn spec_matches(&self, other: &Driver) -> bool {
        &&& spec_field_matches(other.inf_original_name.deep_view(), self.original_name.deep_view())
        &&& spec_field_matches(other.provider.deep_view(), self.provider.deep_view())
        &&& match self.class {
            Option::Some(u) => other.class_guid == u,
            Option::None => true,
        }
    }

    fn matches(&self, other: &Driver, cache: &mut PatternCache) -> (r: bool) {
        let original_ok = cache.cached_match(
            other.inf_original_name.as_ref(),
            self.original_name.as_ref(),
        );
        let provider_ok = cache.cached_match(other.provider.as_ref(), self.provider.as_ref());
        let class_ok = match self.class {
            Option::Some(u) => other.class_guid == u,
            Option::None => true,
        };
        original_ok && provider_ok && class_ok
    }
}

/// A rule for removing driver software packages, together with the method
/// used to remove a matched package.
pub struct DriverPackageToUninstall {
    pub friendly_name: String,
    pub display_name: Option<String>,
    pub display_version: Option<String>,
    pub publisher: Option<String>,
    pub uninstall_method: UninstallMethod,
}

impl ToUninstall<DriverPackage> for DriverPackageToUninstall {
    open spec fn spec_matches(&self, other: &DriverPackage) -> bool {
        &&& spec_field_matches(other.display_name.deep_view(), self.display_name.deep_view())
        &&& spec_field_matches(
            other.display_version.deep_view(),
            self.display_version.deep_view(),
        )
        &&& spec_field_matches(other.publisher.deep_view(), self.publisher.deep_view())
    }

    fn matches(&self, other: &DriverPackage, cache: &mut PatternCache) -> (r: bool) {
        let name_ok = cache.cached_match(other.display_name.as_ref(), self.display_name.as_ref());
        let version_ok = cache.cached_match(
            other.display_version.as_ref(),
            self.display_version.as_ref(),
        );
        let publisher_ok = cache.cached_match(other.publisher.as_ref(), self.publisher.as_ref());
        name_ok && version_ok && publisher_ok
    }
}

/// A device rule with every optional field absent matches every device:
/// absent fields constrain nothing.
pub proof fn lemma_unconstrained_device_rule_matches(c: DeviceToUninstall, o: Device)
    requires
        c.device_desc is None,
        c.manufacturer is None,
        c.hardware_id is None,
        c.class_uuid is None,
    ensures
        c.spec_matches(&o),
{
}

/// A driver rule with every optional field absent matches every driver.
pub proof fn lemma_unconstrained_driver_rule_matches(c: DriverToUninstall, o: Driver)
    requires
        c.original_name is None,
        c.provider is None,
        c.class is None,
    ensures
        c.spec_matches(&o),
{
}

/// A driver-package rule with every optional field absent matches every
/// driver package.
pub proof fn lemma_unconstrained_package_rule_matches(
    c: DriverPackageToUninstall,
    o: DriverPackage,
)
    requires
        c.display_name is None,
        c.display_version is None,
        c.publisher is None,
    ensures
        c.spec_matches(&o),
{
}

/// A device rule with a present field that the device does not satisfy
/// matches no such device: one failing constraint rejects the object.
pub proof fn lemma_constrained_device_rule_rejects(c: DeviceToUninstall, o: Device)
    requires
        ({
            ||| !spec_field_matches(o.description.deep_view(), c.device_desc.deep_view())
            ||| !spec_field_matches(o.manufacturer.deep_view(), c.manufacturer.deep_view())
            ||| c.class_uuid matches Some(u) && o.class_guid != u
            ||| c.hardware_id matches Some(p) && !(exists|i: int|
                0 <= i < o.hardware_ids@.len() && spec_pattern_hit(
                    p@,
                    #[trigger] o.hardware_ids@[i]@,
                ))
        }),
    ensures
        !c.spec_matches(&o),
{
}

/// A driver rule with a present field that the driver does not satisfy
/// matches no such driver.
pub proof fn lemma_constrained_driver_rule_rejects(c: DriverToUninstall, o: Driver)
    requires
        ({
            ||| !spec_field_matches(o.inf_original_name.deep_view(), c.original_name.deep_view())
            ||| !spec_field_matches(o.provider.deep_view(), c.provider.deep_view())
            ||| c.class matches Some(u) && o.class_guid != u
        }),
    ensures
        !c.spec_matches(&o),
{
}

/// A driver-package rule with a present field that the package does not
/// satisfy matches no such package.
pub proof fn lemma_constrained_package_rule_rejects(
    c: DriverPackageToUninstall,
    o: DriverPackage,
)
    requires
        ({
            ||| !spec_field_matches(o.display_name.deep_view(), c.display_name.deep_view())
            ||| !spec_field_matches(o.display_version.deep_view(), c.display_version.deep_view())
            ||| !spec_field_matches(o.publisher.deep_view(), c.publisher.deep_view())
        }),
    ensures
        !c.spec_matches(&o),
{
}

} // verus!
