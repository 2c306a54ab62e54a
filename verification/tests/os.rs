use mac_notification_sys::os::{AppleOS, AppleVersion};

#[test]
pub fn test_os_version_and_os_partial_eq() {
    let mac_version = AppleVersion(AppleOS::MacOS, 13, 2);
    assert!(mac_version == AppleOS::MacOS);
    assert!(mac_version != AppleOS::IOS);
}

#[test]
pub fn test_same_os_partial_eq() {
    let mac_version = AppleVersion(AppleOS::MacOS, 13, 2);
    assert!(mac_version == (AppleOS::MacOS, 13, 2));
    assert!(mac_version != (AppleOS::MacOS, 13, 1));
    assert!(mac_version != (AppleOS::MacOS, 13, 3));
    assert!(mac_version != (AppleOS::MacOS, 12, 2));
    assert!(mac_version != (AppleOS::MacOS, 14, 2));
    assert!(mac_version != (AppleOS::MacOS, 14, 1));
    assert!(mac_version != (AppleOS::MacOS, 14, 3));
}

#[test]
pub fn test_same_os_partial_ord() {
    let mac_version = AppleVersion(AppleOS::MacOS, 13, 2);
    assert!(mac_version >= (AppleOS::MacOS, 13, 2));
    assert!(mac_version <= (AppleOS::MacOS, 13, 2));
    assert!(mac_version > (AppleOS::MacOS, 13, 1));
    assert!(mac_version < (AppleOS::MacOS, 13, 3));
    assert!(mac_version > (AppleOS::MacOS, 12, 2));
    assert!(mac_version < (AppleOS::MacOS, 14, 2));
    assert!(mac_version <= (AppleOS::MacOS, 14, 2));
    assert!(mac_version >= (AppleOS::MacOS, 12, 2));
    assert!(mac_version >= (AppleOS::MacOS, 13, 1));
    assert!(mac_version <= (AppleOS::MacOS, 13, 4));
}

#[test]
pub fn test_different_os_partial_eq() {
    let mac_version = AppleVersion(AppleOS::IOS, 13, 2);
    assert!(mac_version != (AppleOS::MacOS, 13, 2));
    assert!(mac_version != (AppleOS::MacOS, 13, 1));
    assert!(mac_version != (AppleOS::MacOS, 13, 3));
    assert!(mac_version != (AppleOS::MacOS, 12, 2));
    assert!(mac_version != (AppleOS::MacOS, 14, 2));
    assert!(mac_version != (AppleOS::MacOS, 14, 1));
    assert!(mac_version != (AppleOS::MacOS, 14, 3));
}

#[test]
pub fn test_different_os_partial_ord() {
    let mac_version = AppleVersion(AppleOS::IOS, 13, 2);
    assert!(!(mac_version >= (AppleOS::MacOS, 13, 2)));
    assert!(!(mac_version <= (AppleOS::MacOS, 13, 2)));
    assert!(!(mac_version > (AppleOS::MacOS, 13, 1)));
    assert!(!(mac_version < (AppleOS::MacOS, 13, 3)));
    assert!(!(mac_version > (AppleOS::MacOS, 12, 2)));
    assert!(!(mac_version < (AppleOS::MacOS, 14, 2)));
    assert!(!(mac_version <= (AppleOS::MacOS, 14, 2)));
    assert!(!(mac_version >= (AppleOS::MacOS, 12, 2)));
    assert!(!(mac_version >= (AppleOS::MacOS, 13, 1)));
    assert!(!(mac_version <= (AppleOS::MacOS, 13, 4)));
}

#[test]
fn version_order_is_lexicographic_on_major_then_minor() {
    let v = AppleVersion(AppleOS::MacOS, 13, 9);
    assert_eq!(v.partial_cmp(&(AppleOS::MacOS, 14, 0)), Some(std::cmp::Ordering::Less));
    assert_eq!(v.partial_cmp(&(AppleOS::MacOS, 13, 9)), Some(std::cmp::Ordering::Equal));
    assert_eq!(v.partial_cmp(&(AppleOS::MacOS, 12, 99)), Some(std::cmp::Ordering::Greater));
    assert_eq!(v.partial_cmp(&(AppleOS::WatchOS, 13, 9)), None);
}
