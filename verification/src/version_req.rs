//! Version requirements: the declarative variants a caller states a
//! requirement in, their normalization into a canonical six-component
//! box, and the componentwise containment test.
//!
//! The box is matched componentwise, NOT lexicographically: a version is
//! inside only when every component independently falls within its own
//! bound. For a compound range spanning several major versions this
//! differs from a true lexicographic range — see
//! [`VersionReq::matches`].

use vstd::prelude::*;

use crate::version::Version;

verus! {

/// The variants in which a version requirement can be stated.
#[non_exhaustive]
#[derive(PartialEq, PartialOrd, Eq, Ord, Structural, Hash, Clone, Copy, Debug)]
pub enum VersionReqVariant {
    /// Equivalent of "1.2.3": the only version this requirement matches.
    Strict(Version),
    /// Composition of a lower and an upper bound.
    Compound(VersionReqVariantLowerBound, VersionReqVariantUpperBound),
    /// Equivalent of ">1"
    MajorGreater { major: u64 },
    /// Equivalent of ">1.2"
    MinorGreater { major: u64, minor: u64 },
    /// Equivalent of ">1.2.3"
    PatchGreater { major: u64, minor: u64, patch: u64 },
    /// Equivalent of ">=1"
    MajorGreaterEqual { major: u64 },
    /// Equivalent of ">=1.2"
    MinorGreaterEqual { major: u64, minor: u64 },
    /// Equivalent of ">=1.2.3"
    PatchGreaterEqual { major: u64, minor: u64, patch: u64 },
    /// Equivalent of "<1"
    MajorLess { major: u64 },
    /// Equivalent of "<1.2"
    MinorLess { major: u64, minor: u64 },
    /// Equivalent of "<1.2.3"
    PatchLess { major: u64, minor: u64, patch: u64 },
    /// Equivalent of "<=1"
    MajorLessEqual { major: u64 },
    /// Equivalent of "<=1.2"
    MinorLessEqual { major: u64, minor: u64 },
    /// Equivalent of "<=1.2.3"
    PatchLessEqual { major: u64, minor: u64, patch: u64 },
}

/// Lower bound part of [`VersionReqVariant::Compound`].
#[non_exhaustive]
#[derive(PartialEq, PartialOrd, Eq, Ord, Structural, Hash, Clone, Copy, Debug)]
pub enum VersionReqVariantLowerBound {
    /// Equivalent of ">1"
    MajorGreater { major: u64 },
    /// Equivalent of ">1.2"
    MinorGreater { major: u64, minor: u64 },
    /// Equivalent of ">1.2.3"
    PatchGreater { major: u64, minor: u64, patch: u64 },
    /// Equivalent of ">=1"
    MajorGreaterEqual { major: u64 },
    /// Equivalent of ">=1.2"
    MinorGreaterEqual { major: u64, minor: u64 },
    /// Equivalent of ">=1.2.3"
    PatchGreaterEqual { major: u64, minor: u64, patch: u64 },
}

/// Upper bound part of [`VersionReqVariant::Compound`].
#[non_exhaustive]
#[derive(PartialEq, PartialOrd, Eq, Ord, Structural, Hash, Clone, Copy, Debug)]
pub enum VersionReqVariantUpperBound {
    /// Equivalent of "<1"
    MajorLess { major: u64 },
    /// Equivalent of "<1.2"
    MinorLess { major: u64, minor: u64 },
    /// Equivalent of "<1.2.3"
    PatchLess { major: u64, minor: u64, patch: u64 },
    /// Equivalent of "<=1"
    MajorLessEqual { major: u64 },
    /// Equivalent of "<=1.2"
    MinorLessEqual { major: u64, minor: u64 },
    /// Equivalent of "<=1.2.3"
    PatchLessEqual { major: u64, minor: u64, patch: u64 },
}

/// An actual version requirement: the canonical closed box
/// `[lower, higher]` over the component space, normally constructed
/// through [`VersionReq::new`]. Saturating normalization can produce an
/// empty (inverted) box; [`VersionReq::matches`] evaluates such a box
/// correctly as matching nothing.
#[derive(PartialEq, PartialOrd, Eq, Ord, Structural, Hash, Clone, Copy, Debug)]
pub struct VersionReq {
    pub major_lower: u64,
    pub minor_lower: u64,
    pub patch_lower: u64,
    pub major_higher: u64,
    pub minor_higher: u64,
    pub patch_higher: u64,
}

impl VersionReq {
    /// The unconstrained requirement: all-zero lower triple, all-maximum
    /// higher triple.
    pub open spec fn spec_star() -> VersionReq {
        VersionReq {
            major_lower: 0,
            minor_lower: 0,
            patch_lower: 0,
            major_higher: u64::MAX,
            minor_higher: u64::MAX,
            patch_higher: u64::MAX,
        }
    }

    /// The box whose lower triple is `t` and whose higher triple is
    /// all-maximum.
    pub open spec fn spec_lower_bounded(t: (u64, u64, u64)) -> VersionReq {
        VersionReq {
            major_lower: t.0,
            minor_lower: t.1,
            patch_lower: t.2,
            major_higher: u64::MAX,
            minor_higher: u64::MAX,
            patch_higher: u64::MAX,
        }
    }

    /// The box whose higher triple is `t` and whose lower triple is
    /// all-zero.
    pub open spec fn spec_upper_bounded(t: (u64, u64, u64)) -> VersionReq {
        VersionReq {
            major_lower: 0,
            minor_lower: 0,
            patch_lower: 0,
            major_higher: t.0,
            minor_higher: t.1,
            patch_higher: t.2,
        }
    }

    /// The box that contains exactly `v`: lower and higher triple both
    /// equal to `v`'s components.
    pub open spec fn spec_strict(v: Version) -> VersionReq {
        VersionReq {
            major_lower: v.major,
            minor_lower: v.minor,
            patch_lower: v.patch,
            major_higher: v.major,
            minor_higher: v.minor,
            patch_higher: v.patch,
        }
    }

    /// The lower triple a lower-bound variant normalizes to: a strict
    /// bound increments each given component, saturating independently;
    /// trailing components default to zero.
    pub open spec fn spec_lower_bound(lb: VersionReqVariantLowerBound) -> (u64, u64, u64) {
        match lb {
            VersionReqVariantLowerBound::MajorGreater { major } => (major.saturating_add(1), 0, 0),
            VersionReqVariantLowerBound::MinorGreater { major, minor } => (
                major.saturating_add(1),
                minor.saturating_add(1),
                0,
            ),
            VersionReqVariantLowerBound::PatchGreater { major, minor, patch } => (
                major.saturating_add(1),
                minor.saturating_add(1),
                patch.saturating_add(1),
            ),
            VersionReqVariantLowerBound::MajorGreaterEqual { major } => (major, 0, 0),
            VersionReqVariantLowerBound::MinorGreaterEqual { major, minor } => (major, minor, 0),
            VersionReqVariantLowerBound::PatchGreaterEqual { major, minor, patch } => (
                major,
                minor,
                patch,
            ),
        }
    }

    /// The higher triple an upper-bound variant normalizes to: a strict
    /// bound decrements each given component, saturating independently;
    /// trailing components default to maximum.
    pub open spec fn spec_upper_bound(ub: VersionReqVariantUpperBound) -> (u64, u64, u64) {
        match ub {
            VersionReqVariantUpperBound::MajorLess { major } => (
                major.saturating_sub(1),
                u64::MAX,
                u64::MAX,
            ),
            VersionReqVariantUpperBound::MinorLess { major, minor } => (
                major.saturating_sub(1),
                minor.saturating_sub(1),
                u64::MAX,
            ),
            VersionReqVariantUpperBound::PatchLess { major, minor, patch } => (
                major.saturating_sub(1),
                minor.saturating_sub(1),
                patch.saturating_sub(1),
            ),
            VersionReqVariantUpperBound::MajorLessEqual { major } => (major, u64::MAX, u64::MAX),
            VersionReqVariantUpperBound::MinorLessEqual { major, minor } => (
                major,
                minor,
                u64::MAX,
            ),
            VersionReqVariantUpperBound::PatchLessEqual { major, minor, patch } => (
                major,
                minor,
                patch,
            ),
        }
    }

    /// The box a compound variant normalizes to: its lower and upper
    /// bound normalized independently.
    pub open spec fn spec_compound(
        lb: VersionReqVariantLowerBound,
        ub: VersionReqVariantUpperBound,
    ) -> VersionReq {
        let lower = Self::spec_lower_bound(lb);
        let upper = Self::spec_upper_bound(ub);
        VersionReq {
            major_lower: lower.0,
            minor_lower: lower.1,
            patch_lower: lower.2,
            major_higher: upper.0,
            minor_higher: upper.1,
            patch_higher: upper.2,
        }
    }

    /// The canonical box each declarative variant normalizes to.
    pub open spec fn spec_normalize(variant: VersionReqVariant) -> VersionReq {
        match variant {
            VersionReqVariant::Strict(d) => Self::spec_strict(d),
            VersionReqVariant::Compound(lower, upper) => Self::spec_compound(lower, upper),
            VersionReqVariant::MajorGreater { major } => Self::spec_lower_bounded(
                (major.saturating_add(1), 0, 0),
            ),
            VersionReqVariant::MinorGreater { major, minor } => Self::spec_lower_bounded(
                (major.saturating_add(1), minor.saturating_add(1), 0),
            ),
            VersionReqVariant::PatchGreater { major, minor, patch } => Self::spec_lower_bounded(
                (major.saturating_add(1), minor.saturating_add(1), patch.saturating_add(1)),
            ),
            VersionReqVariant::MajorGreaterEqual { major } => Self::spec_lower_bounded(
                (major, 0, 0),
            ),
            VersionReqVariant::MinorGreaterEqual { major, minor } => Self::spec_lower_bounded(
                (major, minor, 0),
            ),
            VersionReqVariant::PatchGreaterEqual { major, minor, patch } => Self::spec_lower_bounded(
                (major, minor, patch),
            ),
            VersionReqVariant::MajorLess { major } => Self::spec_upper_bounded(
                (major.saturating_sub(1), u64::MAX, u64::MAX),
            ),
            VersionReqVariant::MinorLess { major, minor } => Self::spec_upper_bounded(
                (major.saturating_sub(1), minor.saturating_sub(1), u64::MAX),
            ),
            VersionReqVariant::PatchLess { major, minor, patch } => Self::spec_upper_bounded(
                (major.saturating_sub(1), minor.saturating_sub(1), patch.saturating_sub(1)),
            ),
            VersionReqVariant::MajorLessEqual { major } => Self::spec_upper_bounded(
                (major, u64::MAX, u64::MAX),
            ),
            VersionReqVariant::MinorLessEqual { major, minor } => Self::spec_upper_bounded(
                (major, minor, u64::MAX),
            ),
            VersionReqVariant::PatchLessEqual { major, minor, patch } => Self::spec_upper_bounded(
                (major, minor, patch),
            ),
        }
    }

    /// The componentwise containment test: every component of `version`
    /// lies between the corresponding lower and higher component.
    pub open spec fn spec_matches(self, version: Version) -> bool {
        &&& self.major_lower <= version.major
        &&& self.minor_lower <= version.minor
        &&& self.patch_lower <= version.patch
        &&& self.major_higher >= version.major
        &&& self.minor_higher >= version.minor
        &&& self.patch_higher >= version.patch
    }

    /// The unconstrained requirement, equivalent of "*".
    pub fn star() -> (r: Self)
        ensures
            r == Self::spec_star(),
    {
        Self {
            major_lower: 0,
            minor_lower: 0,
            patch_lower: 0,
            major_higher: u64::MAX,
            minor_higher: u64::MAX,
            patch_higher: u64::MAX,
        }
    }

    /// Checks whether the requirement matches the version: each of the
    /// three components is tested against its own bounds, so the box is
    /// componentwise, not lexicographic.
    pub fn matches(&self, version: &Version) -> (r: bool)
        ensures
            r == self.spec_matches(*version),
    {
        let lower_match = self.major_lower <= version.major && self.minor_lower <= version.minor
            && self.patch_lower <= version.patch;
        let higher_match = self.major_higher >= version.major && self.minor_higher >= version.minor
            && self.patch_higher >= version.patch;
        lower_match && higher_match
    }

    /// Normal constructor of a version requirement: normalizes the
    /// declarative variant into its canonical box.
    pub fn new(version_req: &VersionReqVariant) -> (r: Self)
        ensures
            r == Self::spec_normalize(*version_req),
    {
        match version_req {
            VersionReqVariant::Strict(d) => Self::new_strict(d),
            VersionReqVariant::Compound(lower, upper) => Self::new_compound(lower, upper),
            VersionReqVariant::MajorGreater { major } => {
                let major_geq = major.saturating_add(1);
                Self::new_lower_bounded_equal(major_geq, 0, 0)
            },
            VersionReqVariant::MinorGreater { major, minor } => {
                let major_geq = major.saturating_add(1);
                let minor_geq = minor.saturating_add(1);
                Self::new_lower_bounded_equal(major_geq, minor_geq, 0)
            },
            VersionReqVariant::PatchGreater { major, minor, patch } => {
                let major_geq = major.saturating_add(1);
                let minor_geq = minor.saturating_add(1);
                let patch_geq = patch.saturating_add(1);
                Self::new_lower_bounded_equal(major_geq, minor_geq, patch_geq)
            },
            VersionReqVariant::MajorGreaterEqual { major } => Self::new_lower_bounded_equal(
                *major,
                0,
                0,
            ),
            VersionReqVariant::MinorGreaterEqual { major, minor } => Self::new_lower_bounded_equal(
                *major,
                *minor,
                0,
            ),
            VersionReqVariant::PatchGreaterEqual { major, minor, patch } => Self::new_lower_bounded_equal(
                *major,
                *minor,
                *patch,
            ),
            VersionReqVariant::MajorLess { major } => {
                let major_leq = major.saturating_sub(1);
                Self::new_upper_bounded_equal(major_leq, u64::MAX, u64::MAX)
            },
            VersionReqVariant::MinorLess { major, minor } => {
                let major_leq = major.saturating_sub(1);
                let minor_leq = minor.saturating_sub(1);
                Self::new_upper_bounded_equal(major_leq, minor_leq, u64::MAX)
            },
            VersionReqVariant::PatchLess { major, minor, patch } => {
                let major_leq = major.saturating_sub(1);
                let minor_leq = minor.saturating_sub(1);
                let patch_leq = patch.saturating_sub(1);
                Self::new_upper_bounded_equal(major_leq, minor_leq, patch_leq)
            },
            VersionReqVariant::MajorLessEqual { major } => Self::new_upper_bounded_equal(
                *major,
                u64::MAX,
                u64::MAX,
            ),
            VersionReqVariant::MinorLessEqual { major, minor } => Self::new_upper_bounded_equal(
                *major,
                *minor,
                u64::MAX,
            ),
            VersionReqVariant::PatchLessEqual { major, minor, patch } => Self::new_upper_bounded_equal(
                *major,
                *minor,
                *patch,
            ),
        }
    }

    /// The box bounded above by the given triple, unbounded below.
    #[inline]
    pub fn new_upper_bounded_equal(major: u64, minor: u64, patch: u64) -> (r: Self)
        ensures
            r == Self::spec_upper_bounded((major, minor, patch)),
    {
        Self {
            major_lower: 0,
            minor_lower: 0,
            patch_lower: 0,
            major_higher: major,
            minor_higher: minor,
            patch_higher: patch,
        }
    }

    /// The box bounded below by the given triple, unbounded above.
    #[inline]
    pub fn new_lower_bounded_equal(major: u64, minor: u64, patch: u64) -> (r: Self)
        ensures
            r == Self::spec_lower_bounded((major, minor, patch)),
    {
        Self {
            major_lower: major,
            minor_lower: minor,
            patch_lower: patch,
            major_higher: u64::MAX,
            minor_higher: u64::MAX,
            patch_higher: u64::MAX,
        }
    }

    /// The box that contains exactly `version`.
    #[inline]
    pub fn new_strict(version: &Version) -> (r: Self)
        ensures
            r == Self::spec_strict(*version),
    {
        let major = version.major;
        let minor = version.minor;
        let patch = version.patch;
        VersionReq {
            major_lower: major,
            minor_lower: minor,
            patch_lower: patch,
            major_higher: major,
            minor_higher: minor,
            patch_higher: patch,
        }
    }

    /// The box combining a normalized lower and upper bound.
    #[inline]
    pub fn new_compound(
        lower_bound: &VersionReqVariantLowerBound,
        upper_bound: &VersionReqVariantUpperBound,
    ) -> (r: Self)
        ensures
            r == Self::spec_compound(*lower_bound, *upper_bound),
    {
        let (major_lower, minor_lower, patch_lower) = Self::new_lower_bound(lower_bound);
        let (major_higher, minor_higher, patch_higher) = Self::new_upper_bound(upper_bound);
        Self {
            major_lower,
            minor_lower,
            patch_lower,
            major_higher,
            minor_higher,
            patch_higher,
        }
    }

    /// Normalizes a lower-bound variant into its lower triple.
    #[inline]
    pub fn new_lower_bound(lower_bound: &VersionReqVariantLowerBound) -> (r: (u64, u64, u64))
        ensures
            r == Self::spec_lower_bound(*lower_bound),
    {
        match lower_bound {
            VersionReqVariantLowerBound::MajorGreater { major } => {
                let major_geq = major.saturating_add(1);
                (major_geq, 0, 0)
            },
            VersionReqVariantLowerBound::MinorGreater { major, minor } => {
                let major_geq = major.saturating_add(1);
                let minor_geq = minor.saturating_add(1);
                (major_geq, minor_geq, 0)
            },
            VersionReqVariantLowerBound::PatchGreater { major, minor, patch } => {
                let major_geq = major.saturating_add(1);
                let minor_geq = minor.saturating_add(1);
                let patch_geq = patch.saturating_add(1);
                (major_geq, minor_geq, patch_geq)
            },
            VersionReqVariantLowerBound::MajorGreaterEqual { major } => (*major, 0, 0),
            VersionReqVariantLowerBound::MinorGreaterEqual { major, minor } => (*major, *minor, 0),
            VersionReqVariantLowerBound::PatchGreaterEqual { major, minor, patch } => (
                *major,
                *minor,
                *patch,
            ),
        }
    }

    /// Normalizes an upper-bound variant into its higher triple.
    #[inline]
    pub fn new_upper_bound(upper_bound: &VersionReqVariantUpperBound) -> (r: (u64, u64, u64))
        ensures
            r == Self::spec_upper_bound(*upper_bound),
    {
        match upper_bound {
            VersionReqVariantUpperBound::MajorLess { major } => {
                let major_leq = major.saturating_sub(1);
                (major_leq, u64::MAX, u64::MAX)
            },
            VersionReqVariantUpperBound::MinorLess { major, minor } => {
                let major_leq = major.saturating_sub(1);
                let minor_leq = minor.saturating_sub(1);
                (major_leq, minor_leq, u64::MAX)
            },
            VersionReqVariantUpperBound::PatchLess { major, minor, patch } => {
                let major_leq = major.saturating_sub(1);
                let minor_leq = minor.saturating_sub(1);
                let patch_leq = patch.saturating_sub(1);
                (major_leq, minor_leq, patch_leq)
            },
            VersionReqVariantUpperBound::MajorLessEqual { major } => (*major, u64::MAX, u64::MAX),
            VersionReqVariantUpperBound::MinorLessEqual { major, minor } => (
                *major,
                *minor,
                u64::MAX,
            ),
            VersionReqVariantUpperBound::PatchLessEqual { major, minor, patch } => (
                *major,
                *minor,
                *patch,
            ),
        }
    }
}

/// Law: the unconstrained requirement matches every version.
pub proof fn lemma_star_matches_all(v: Version)
    ensures
        VersionReq::spec_star().spec_matches(v),
{
}

/// Law: a strict requirement matches exactly the version it was built
/// from — it matches that version, and no other.
pub proof fn lemma_strict_matches_exactly(v: Version, w: Version)
    ensures
        VersionReq::spec_normalize(VersionReqVariant::Strict(v)).spec_matches(v),
        v != w ==> !VersionReq::spec_normalize(VersionReqVariant::Strict(v)).spec_matches(w),
{
}

} // verus!
