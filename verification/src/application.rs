//! The application that delivers notifications: its bundle identifier and
//! its registration.

use vstd::prelude::*;

use crate::error::ApplicationError;

verus! {

/// The bundle identifier that a lookup found, or Finder's (`com.apple.Finder`)
/// when it found none.
pub fn get_bundle_identifier_or_default(found: Option<String>) -> (r: String)
    ensures
        r@ == match found {
            Some(s) => s@,
            None => "com.apple.Finder"@,
        },
{
    proof {
        reveal_strlit("com.apple.Finder");
    }
    match found {
        Some(s) => s,
        None => "com.apple.Finder".to_owned(),
    }
}

/// The registration of the application that delivers notifications.
///
/// `set_application` registers at most once per process: once an attempt
/// was made, successful or not, it reports `AlreadySet`.
/// `ensure_application_set` sets the application if it is not set yet, so
/// after a failed attempt it registers again, and it succeeds only when the
/// application is set.
pub struct ApplicationSetup {
    attempted: bool,
    set: bool,
}

/// The outcome of `set_application(bundle_ident)` when an attempt had been
/// made before (`attempted`), and the registration (made only when none
/// had) answered `registered`.
pub open spec fn set_application_outcome(
    attempted: bool,
    bundle_ident: Seq<char>,
    registered: Option<bool>,
    r: Result<(), ApplicationError>,
) -> bool {
    if attempted {
        r matches Err(ApplicationError::AlreadySet(b)) && b@ == bundle_ident
    } else if registered == Some(true) {
        r is Ok
    } else {
        r matches Err(ApplicationError::CouldNotSet(b)) && b@ == bundle_ident
    }
}

/// The bundle that `ensure_application_set` registers: the one the lookup
/// of the default application found, or Finder's.
pub open spec fn default_bundle(found: Option<String>) -> Seq<char> {
    match found {
        Some(s) => s@,
        None => "com.apple.Finder"@,
    }
}

impl ApplicationSetup {
    /// Whether an attempt to register the application has been made.
    pub closed spec fn is_done(&self) -> bool {
        self.attempted
    }

    /// Whether a registration of the application succeeded.
    pub closed spec fn is_set(&self) -> bool {
        self.set
    }

    /// No attempt has been made yet.
    pub fn new() -> (r: Self)
        ensures
            !r.is_done(),
            !r.is_set(),
    {
        ApplicationSetup { attempted: false, set: false }
    }

    /// Whether an attempt to register the application has been made.
    pub fn is_completed(&self) -> (r: bool)
        ensures
            r == self.is_done(),
    {
        self.attempted
    }

    /// Whether the application is set.
    pub fn is_application_set(&self) -> (r: bool)
        ensures
            r == self.is_set(),
    {
        self.set
    }

    /// Set the application which delivers notifications, given the answer
    /// of the registration call, which is made only when no attempt was made
    /// before (`registered` is `None` exactly then).
    pub fn set_application(&mut self, bundle_ident: &str, registered: Option<bool>) -> (r: Result<
        (),
        ApplicationError,
    >)
        requires
            old(self).is_done() == registered is None,
        ensures
            final(self).is_done(),
            final(self).is_set() == (old(self).is_set() || (!old(self).is_done() && registered
                == Some(true))),
            set_application_outcome(old(self).is_done(), bundle_ident@, registered, r),
    {
        if self.attempted {
            return Err(ApplicationError::AlreadySet(bundle_ident.to_owned()));
        }
        self.attempted = true;
        match registered {
            Some(true) => {
                self.set = true;
                Ok(())
            },
            _ => Err(ApplicationError::CouldNotSet(bundle_ident.to_owned())),
        }
    }

    /// Set the application if it is not set: with the identifier that the
    /// lookup of the default application found, or Finder's, given the
    /// answer of that registration, which is made exactly when the
    /// application is not set (`registered` is `None` exactly when it is).
    ///
    /// Succeeds exactly when the application is set afterwards; a failed
    /// registration reports `CouldNotSet` with the bundle it tried.
    pub fn ensure_application_set(&mut self, found: Option<String>, registered: Option<bool>) -> (r:
        Result<(), ApplicationError>)
        requires
            old(self).is_set() == registered is None,
        ensures
            final(self).is_set() == (old(self).is_set() || registered == Some(true)),
            final(self).is_done() == (old(self).is_done() || registered is Some),
            r is Ok == final(self).is_set(),
            r matches Err(e) ==> e matches ApplicationError::CouldNotSet(b) && b@ == default_bundle(
                found,
            ),
    {
        if self.set {
            return Ok(());
        }
        let bundle = get_bundle_identifier_or_default(found);
        self.attempted = true;
        match registered {
            Some(true) => {
                self.set = true;
                Ok(())
            },
            _ => Err(ApplicationError::CouldNotSet(bundle)),
        }
    }
}

} // verus!
