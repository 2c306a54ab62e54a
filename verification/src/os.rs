//! Operating-system version values and their comparison.

use core::cmp::Ordering;
use vstd::prelude::*;
use vstd::std_specs::cmp::PartialEqSpecImpl;
use vstd::std_specs::cmp::PartialOrdSpecImpl;

verus! {

/// The Apple operating systems a version can belong to.
#[derive(Copy, Clone, Debug, PartialEq, Eq, Structural)]
pub enum AppleOS {
    MacOS,
    MacCatalyst,
    TvOS,
    WatchOS,
    VisionOS,
    IOS,
}

/// An operating system together with its major and minor version.
#[derive(Copy, Clone, Debug)]
pub struct AppleVersion(pub AppleOS, pub u16, pub u16);

/// The order of two versions of the same system: lexicographic on
/// `(major, minor)`.  Versions of different systems are not ordered.
pub open spec fn version_order(
    os: AppleOS,
    major: u16,
    minor: u16,
    other_os: AppleOS,
    other_major: u16,
    other_minor: u16,
) -> Option<Ordering> {
    if os != other_os {
        None
    } else if major == other_major && minor == other_minor {
        Some(Ordering::Equal)
    } else if major > other_major || (major == other_major && minor > other_minor) {
        Some(Ordering::Greater)
    } else {
        Some(Ordering::Less)
    }
}

/// What `version.partial_cmp(&triple)` returns.
pub open spec fn compare_to(v: AppleVersion, t: (AppleOS, u16, u16)) -> Option<Ordering> {
    version_order(v.0, v.1, v.2, t.0, t.1, t.2)
}

/// What `version == system` returns.
pub open spec fn same_system(v: AppleVersion, os: AppleOS) -> bool {
    v.0 == os
}

/// What `version == triple` returns.
pub open spec fn same_version(v: AppleVersion, t: (AppleOS, u16, u16)) -> bool {
    v.0 == t.0 && v.1 == t.1 && v.2 == t.2
}

impl PartialEq<AppleOS> for AppleVersion {
    fn eq(&self, other: &AppleOS) -> (r: bool) {
        self.0 == *other
    }
}

impl PartialEqSpecImpl<AppleOS> for AppleVersion {
    open spec fn obeys_eq_spec() -> bool {
        true
    }

    open spec fn eq_spec(&self, other: &AppleOS) -> bool {
        same_system(*self, *other)
    }
}

impl PartialEq<(AppleOS, u16, u16)> for AppleVersion {
    fn eq(&self, other: &(AppleOS, u16, u16)) -> (r: bool) {
        self.0 == other.0 && self.1 == other.1 && self.2 == other.2
    }
}

impl PartialEqSpecImpl<(AppleOS, u16, u16)> for AppleVersion {
    open spec fn obeys_eq_spec() -> bool {
        true
    }

    open spec fn eq_spec(&self, other: &(AppleOS, u16, u16)) -> bool {
        same_version(*self, *other)
    }
}

impl PartialOrd<(AppleOS, u16, u16)> for AppleVersion {
    fn partial_cmp(&self, other: &(AppleOS, u16, u16)) -> (r: Option<Ordering>) {
        if self.0 != other.0 {
            return None;
        }
        if self.1 == other.1 && self.2 == other.2 {
            Some(Ordering::Equal)
        } else if self.1 > other.1 || (self.1 == other.1 && self.2 > other.2) {
            Some(Ordering::Greater)
        } else if self.1 < other.1 || (self.1 == other.1 && self.2 < other.2) {
            Some(Ordering::Less)
        } else {
            None
        }
    }
}

impl PartialOrdSpecImpl<(AppleOS, u16, u16)> for AppleVersion {
    open spec fn obeys_partial_cmp_spec() -> bool {
        true
    }

    open spec fn partial_cmp_spec(&self, other: &(AppleOS, u16, u16)) -> Option<Ordering> {
        compare_to(*self, *other)
    }
}


/// The triple `(system, major, minor)` that a version stands for.
pub open spec fn version_triple(v: AppleVersion) -> (AppleOS, u16, u16) {
    (v.0, v.1, v.2)
}

/// The comparison is consistent with equality: a version compares `Equal`
/// to a triple exactly when it is `==` to it.
pub proof fn law_equal_order_iff_eq(v: AppleVersion, t: (AppleOS, u16, u16))
    ensures
        (compare_to(v, t) == Some(Ordering::Equal)) == same_version(v, t),
{
}

/// Versions of different systems are neither equal nor ordered.
pub proof fn law_other_system_unordered(v: AppleVersion, t: (AppleOS, u16, u16))
    requires
        v.0 != t.0,
    ensures
        compare_to(v, t) is None,
        !same_version(v, t),
        !same_system(v, t.0),
{
}

/// Two versions of the same system are always ordered one way or the other.
pub proof fn law_same_system_ordered(v: AppleVersion, t: (AppleOS, u16, u16))
    requires
        v.0 == t.0,
    ensures
        compare_to(v, t) is Some,
        same_system(v, t.0),
{
}

/// Swapping the two sides of a comparison reverses its outcome.
pub proof fn law_order_reverses(v: AppleVersion, w: AppleVersion)
    ensures
        compare_to(v, version_triple(w)) == match compare_to(w, version_triple(v)) {
            Some(Ordering::Less) => Some(Ordering::Greater),
            Some(Ordering::Greater) => Some(Ordering::Less),
            other => other,
        },
{
}

/// The order is transitive: a version older than a second one, which is
/// older than a third, is older than the third.
pub proof fn law_older_is_transitive(u: AppleVersion, v: AppleVersion, w: AppleVersion)
    requires
        compare_to(u, version_triple(v)) == Some(Ordering::Less),
        compare_to(v, version_triple(w)) == Some(Ordering::Less),
    ensures
        compare_to(u, version_triple(w)) == Some(Ordering::Less),
{
}


/// Versions of one system are ordered numerically, major version first:
/// a higher major version is newer whatever the minors, and with equal
/// majors the higher minor is newer (so 10.15 is newer than 10.9).
pub proof fn law_numeric_order(v: AppleVersion, t: (AppleOS, u16, u16))
    requires
        v.0 == t.0,
    ensures
        v.1 > t.1 ==> compare_to(v, t) == Some(Ordering::Greater),
        v.1 < t.1 ==> compare_to(v, t) == Some(Ordering::Less),
        v.1 == t.1 ==> (compare_to(v, t) == Some(Ordering::Greater) <==> v.2 > t.2),
        v.1 == t.1 ==> (compare_to(v, t) == Some(Ordering::Less) <==> v.2 < t.2),
        v.1 == t.1 ==> (compare_to(v, t) == Some(Ordering::Equal) <==> v.2 == t.2),
{
}

} // verus!
