use mac_notification_sys::{get_bundle_identifier_or_default, ApplicationError, ApplicationSetup};

#[test]
fn bundle_identifier_defaults_to_finder() {
    assert_eq!(get_bundle_identifier_or_default(None), "com.apple.Finder");
    assert_eq!(
        get_bundle_identifier_or_default(Some("com.apple.Safari".to_string())),
        "com.apple.Safari"
    );
}

#[test]
fn application_is_set_at_most_once() {
    let mut setup = ApplicationSetup::new();
    assert!(!setup.is_completed());
    assert_eq!(setup.set_application("com.example.app", Some(true)), Ok(()));
    assert!(setup.is_completed());
    assert!(setup.is_application_set());
    assert_eq!(
        setup.set_application("com.example.other", None),
        Err(ApplicationError::AlreadySet("com.example.other".to_string()))
    );
    assert_eq!(setup.ensure_application_set(None, None), Ok(()));
}

#[test]
fn failed_registration_is_not_reported_as_set() {
    let mut setup = ApplicationSetup::new();
    assert_eq!(
        setup.set_application("com.example.app", Some(false)),
        Err(ApplicationError::CouldNotSet("com.example.app".to_string()))
    );
    assert!(setup.is_completed());
    assert!(!setup.is_application_set());
    // A second direct attempt is refused, but ensuring the application is
    // set registers again, and fails while the registration fails.
    assert_eq!(
        setup.set_application("com.example.app", None),
        Err(ApplicationError::AlreadySet("com.example.app".to_string()))
    );
    assert_eq!(
        setup.ensure_application_set(None, Some(false)),
        Err(ApplicationError::CouldNotSet("com.apple.Finder".to_string()))
    );
    assert!(!setup.is_application_set());
    assert_eq!(setup.ensure_application_set(None, Some(true)), Ok(()));
    assert!(setup.is_application_set());
    assert_eq!(setup.ensure_application_set(None, None), Ok(()));
}

#[test]
fn ensure_uses_the_default_application() {
    let mut setup = ApplicationSetup::new();
    assert_eq!(
        setup.ensure_application_set(None, Some(false)),
        Err(ApplicationError::CouldNotSet("com.apple.Finder".to_string()))
    );
    let mut other = ApplicationSetup::new();
    assert_eq!(other.ensure_application_set(Some("com.example.found".to_string()), Some(true)), Ok(()));
    assert!(other.is_completed());
}
