use tabletdrivercleanup::engine::UninstallError;
use tabletdrivercleanup::objects::{Device, Driver, DriverPackage};
use tabletdrivercleanup::text::{contains_substring, parent_directory, split_on};

#[test]
fn split_on_separates_pieces() {
    assert_eq!(
        split_on(&"a\u{0}b\u{0}c".to_string(), '\u{0}'),
        vec!["a".to_string(), "b".to_string(), "c".to_string()]
    );
    assert_eq!(split_on(&"one".to_string(), ' '), vec!["one".to_string()]);
    assert_eq!(split_on(&"".to_string(), ' '), vec!["".to_string()]);
    assert_eq!(
        split_on(&"a  b".to_string(), ' '),
        vec!["a".to_string(), "".to_string(), "b".to_string()]
    );
    assert_eq!(
        split_on(&"/x/".to_string(), '/'),
        vec!["".to_string(), "x".to_string(), "".to_string()]
    );
}

#[test]
fn substring_search() {
    assert!(contains_substring(&"C:\\Tablet\\_iu14D2N.tmp".to_string(), &"C:\\Tablet".to_string()));
    assert!(!contains_substring(&"C:\\Other\\x.tmp".to_string(), &"C:\\Tablet".to_string()));
    assert!(contains_substring(&"anything".to_string(), &"".to_string()));
    assert!(!contains_substring(&"ab".to_string(), &"abc".to_string()));
}

#[test]
fn parent_directory_takes_the_prefix() {
    assert_eq!(parent_directory(&"C:\\Tablet\\unins000.exe".to_string()), "C:\\Tablet");
    assert_eq!(parent_directory(&"dir/sub/prog.bin".to_string()), "dir/sub");
    assert_eq!(parent_directory(&"prog.exe".to_string()), "");
}

#[test]
fn device_labels_prefer_the_friendly_name() {
    let named = Device::new(
        false,
        "USB\\VID_056A".to_string(),
        None,
        Some("Wacom Intuos".to_string()),
        Some("Wacom Tablet".to_string()),
        None,
        None,
        None,
        0,
        None,
        None,
        None,
        None,
        None,
    );
    assert_eq!(named.display_label(), "Wacom Intuos (USB\\VID_056A)");
    let described = Device::new(
        false,
        "USB\\VID_056A".to_string(),
        None,
        None,
        Some("Wacom Tablet".to_string()),
        None,
        None,
        None,
        0,
        None,
        None,
        None,
        None,
        None,
    );
    assert_eq!(described.display_label(), "Wacom Tablet (USB\\VID_056A)");
    let bare = Device::new(
        false,
        "USB\\VID_056A".to_string(),
        None,
        None,
        None,
        None,
        None,
        None,
        0,
        None,
        None,
        None,
        None,
        None,
    );
    assert_eq!(bare.display_label(), "USB\\VID_056A");
}

#[test]
fn device_splits_packed_hardware_ids() {
    let d = Device::new(
        false,
        "id".to_string(),
        Some("USB\\VID_056A&PID_0357\u{0}USB\\VID_056A".to_string()),
        None,
        None,
        None,
        None,
        None,
        0,
        None,
        None,
        None,
        None,
        None,
    );
    assert_eq!(
        d.hardware_ids,
        vec!["USB\\VID_056A&PID_0357".to_string(), "USB\\VID_056A".to_string()]
    );
    let none = Device::new(
        false,
        "id".to_string(),
        None,
        None,
        None,
        None,
        None,
        None,
        0,
        None,
        None,
        None,
        None,
        None,
    );
    assert!(none.hardware_ids.is_empty());
}

#[test]
fn driver_and_package_labels() {
    let driver = Driver::new(
        "oem17.inf".to_string(),
        Some("wacom_wintab.inf".to_string()),
        None,
        None,
        None,
        0,
    );
    assert_eq!(driver.display_label(), "oem17.inf (wacom_wintab.inf)");
    let anonymous = Driver::new("oem18.inf".to_string(), None, None, None, None, 0);
    assert_eq!(anonymous.display_label(), "oem18.inf");

    let package = DriverPackage::new(
        false,
        "Uninstall\\Key".to_string(),
        Some("Tablet Driver".to_string()),
        None,
        None,
        None,
        None,
    );
    assert_eq!(package.display_label(), "Tablet Driver");
    let keyed = DriverPackage::new(
        false,
        "Uninstall\\Key".to_string(),
        None,
        None,
        None,
        None,
        None,
    );
    assert_eq!(keyed.display_label(), "Uninstall\\Key");
}

#[test]
fn uninstall_errors_carry_the_rule_label() {
    match UninstallError::failed(&"Wacom".to_string()) {
        UninstallError::UninstallFailed(label) => assert_eq!(label, "Wacom"),
        _ => panic!("expected the failure variant"),
    }
    match UninstallError::uninstalled(&"Wacom".to_string()) {
        UninstallError::AlreadyUninstalled(label) => assert_eq!(label, "Wacom"),
        _ => panic!("expected the already-uninstalled variant"),
    }
}
