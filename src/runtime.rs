use vstd::prelude::*;

verus! {

/// Addresses and hooks for ptCollage 0.9.2.5.
#[derive(Debug, Clone, Copy, PartialEq, Eq, Structural)]
pub struct PTC0925;

/// Addresses and hooks for ptCollage 0.9.4.54.
#[derive(Debug, Clone, Copy, PartialEq, Eq, Structural)]
pub struct PTC09454;

/// A version of ptCollage that the library has addresses for.
#[derive(Debug, Clone, Copy, PartialEq, Eq, Structural)]
pub enum SupportedVersion {
    V0925(PTC0925),
    V09454(PTC09454),
}

/// The four parts of each supported version number.
pub open spec fn version_number(v: SupportedVersion) -> (u16, u16, u16, u16) {
    match v {
        SupportedVersion::V0925(_) => (0, 9, 2, 5),
        SupportedVersion::V09454(_) => (0, 9, 4, 54),
    }
}

impl SupportedVersion {
    /// The version's number, most significant part first.
    pub fn number(&self) -> (r: (u16, u16, u16, u16))
        ensures
            r == version_number(*self),
    {
        match self {
            SupportedVersion::V0925(_) => (0, 9, 2, 5),
            SupportedVersion::V09454(_) => (0, 9, 4, 54),
        }
    }
}

/// The supported version with the number `version`, or `None` where no version has it.
pub fn try_run_version(version: (u16, u16, u16, u16)) -> (r: Option<SupportedVersion>)
    ensures
        r matches Some(v) ==> version_number(v) == version,
        version == version_number(SupportedVersion::V0925(PTC0925)) ==> r == Some(SupportedVersion::V0925(PTC0925)),
        version == version_number(SupportedVersion::V09454(PTC09454)) ==> r == Some(SupportedVersion::V09454(PTC09454)),
{
    match version {
        (0, 9, 2, 5) => Some(SupportedVersion::V0925(PTC0925)),
        (0, 9, 4, 54) => Some(SupportedVersion::V09454(PTC09454)),
        _ => None,
    }
}

} // verus!
