use tabletdrivercleanup::interest::{
    device_is_dump_candidate, device_is_of_interest, driver_is_of_interest, is_of_interest,
    is_of_interest_iter, package_is_of_interest,
};
use tabletdrivercleanup::objects::{Device, Driver, DriverPackage};
use tabletdrivercleanup::pattern::PatternCache;

fn device(inf_name: Option<&str>, manufacturer: Option<&str>) -> Device {
    Device::new(
        false,
        "USB\\VID_056A&PID_0357".to_string(),
        Some("USB\\VID_056A&PID_0357".to_string()),
        None,
        None,
        manufacturer.map(|m| m.to_string()),
        None,
        None,
        0,
        inf_name.map(|n| n.to_string()),
        None,
        None,
        None,
        None,
    )
}

#[test]
fn vendor_keyword_is_of_interest() {
    let mut cache = PatternCache::new();
    assert!(is_of_interest(Some(&"WACOM Technology".to_string()), &mut cache));
    assert!(is_of_interest(Some(&"Huion Animation".to_string()), &mut cache));
}

#[test]
fn deny_list_excludes_unrelated_hits() {
    let mut cache = PatternCache::new();
    // "Tablet" alone is of interest, but a Logitech or Android hit is not.
    assert!(is_of_interest(Some(&"Tablet PC".to_string()), &mut cache));
    assert!(!is_of_interest(Some(&"Logitech Tablet Keyboard".to_string()), &mut cache));
    assert!(!is_of_interest(Some(&"Android Tablet".to_string()), &mut cache));
}

#[test]
fn absent_data_is_never_of_interest() {
    let mut cache = PatternCache::new();
    assert!(!is_of_interest(None, &mut cache));
    assert!(!is_of_interest(Some(&"ordinary mouse".to_string()), &mut cache));
}

#[test]
fn any_candidate_string_suffices() {
    let mut cache = PatternCache::new();
    let strings = vec!["boring".to_string(), "XP-Pen Deco".to_string()];
    assert!(is_of_interest_iter(&strings, &mut cache));
    let nothing = vec!["boring".to_string(), "still boring".to_string()];
    assert!(!is_of_interest_iter(&nothing, &mut cache));
    assert!(!is_of_interest_iter(&Vec::new(), &mut cache));
}

#[test]
fn device_interest_reads_all_attributes() {
    let mut cache = PatternCache::new();
    assert!(device_is_of_interest(&device(None, Some("WACOM Technology")), &mut cache));
    assert!(!device_is_of_interest(&device(None, Some("Ordinary Vendor")), &mut cache));
}

#[test]
fn dump_candidates_need_an_installed_inf() {
    let mut cache = PatternCache::new();
    let installed = device(Some("oem42.inf"), Some("WACOM Technology"));
    let inbox = device(Some("input.inf"), Some("WACOM Technology"));
    let unnamed = device(None, Some("WACOM Technology"));
    assert!(device_is_dump_candidate(&installed, &mut cache));
    assert!(!device_is_dump_candidate(&inbox, &mut cache));
    assert!(!device_is_dump_candidate(&unnamed, &mut cache));
}

#[test]
fn driver_interest_reads_inf_and_provider() {
    let mut cache = PatternCache::new();
    let interesting = Driver::new(
        "oem17.inf".to_string(),
        Some("wacom_wintab.inf".to_string()),
        None,
        Some("Wacom Technology".to_string()),
        None,
        0,
    );
    let boring = Driver::new("oem18.inf".to_string(), None, None, None, None, 0);
    assert!(driver_is_of_interest(&interesting, &mut cache));
    assert!(!driver_is_of_interest(&boring, &mut cache));
}

#[test]
fn package_interest_needs_name_and_uninstall_command() {
    let mut cache = PatternCache::new();
    let complete = DriverPackage::new(
        false,
        "key".to_string(),
        Some("Gaomon Driver".to_string()),
        None,
        None,
        None,
        Some("C:\\Gaomon\\unins000.exe".to_string()),
    );
    let nameless = DriverPackage::new(
        false,
        "key".to_string(),
        None,
        None,
        Some("Gaomon".to_string()),
        None,
        Some("C:\\Gaomon\\unins000.exe".to_string()),
    );
    let no_uninstaller = DriverPackage::new(
        false,
        "key".to_string(),
        Some("Gaomon Driver".to_string()),
        None,
        None,
        None,
        None,
    );
    assert!(package_is_of_interest(&complete, &mut cache));
    assert!(!package_is_of_interest(&nameless, &mut cache));
    assert!(!package_is_of_interest(&no_uninstaller, &mut cache));
}
