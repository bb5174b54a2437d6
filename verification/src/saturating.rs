use vstd::prelude::*;

verus! {

/// The sum of `a` and `b` clamped to the 16-bit range.
pub open spec fn saturating_sum(a: u16, b: u16) -> u16 {
    if a + b > u16::MAX {
        u16::MAX
    } else {
        (a + b) as u16
    }
}

/// A 16-bit unsigned value whose addition saturates at `u16::MAX` instead of
/// overflowing.
#[derive(Debug, Clone, Copy, PartialEq, Eq, Structural)]
pub struct SaturatingU16 {
    pub value: u16,
}

impl SaturatingU16 {
    pub fn new(value: u16) -> (r: SaturatingU16)
        ensures
            r.value == value,
    {
        SaturatingU16 { value }
    }
}

impl core::ops::Add<SaturatingU16> for SaturatingU16 {
    type Output = SaturatingU16;

    /// Adds two values, saturating at `u16::MAX`.
    fn add(self, rhs: SaturatingU16) -> SaturatingU16 {
        if self.value > u16::MAX - rhs.value {
            SaturatingU16 { value: u16::MAX }
        } else {
            SaturatingU16 { value: self.value + rhs.value }
        }
    }
}

impl vstd::std_specs::ops::AddSpecImpl<SaturatingU16> for SaturatingU16 {
    open spec fn obeys_add_spec() -> bool {
        true
    }

    open spec fn add_req(self, rhs: SaturatingU16) -> bool {
        true
    }

    open spec fn add_spec(self, rhs: SaturatingU16) -> SaturatingU16 {
        SaturatingU16 { value: saturating_sum(self.value, rhs.value) }
    }
}

impl core::ops::Add<u16> for SaturatingU16 {
    type Output = SaturatingU16;

    /// Adds a plain right-hand side, saturating at `u16::MAX`.
    fn add(self, rhs: u16) -> SaturatingU16 {
        if self.value > u16::MAX - rhs {
            SaturatingU16 { value: u16::MAX }
        } else {
            SaturatingU16 { value: self.value + rhs }
        }
    }
}

impl vstd::std_specs::ops::AddSpecImpl<u16> for SaturatingU16 {
    open spec fn obeys_add_spec() -> bool {
        true
    }

    open spec fn add_req(self, rhs: u16) -> bool {
        true
    }

    open spec fn add_spec(self, rhs: u16) -> SaturatingU16 {
        SaturatingU16 { value: saturating_sum(self.value, rhs) }
    }
}

impl core::ops::Add<&u16> for SaturatingU16 {
    type Output = SaturatingU16;

    /// Adds a borrowed plain right-hand side, saturating at `u16::MAX`.
    fn add(self, rhs: &u16) -> SaturatingU16 {
        if self.value > u16::MAX - *rhs {
            SaturatingU16 { value: u16::MAX }
        } else {
            SaturatingU16 { value: self.value + *rhs }
        }
    }
}

impl vstd::std_specs::ops::AddSpecImpl<&u16> for SaturatingU16 {
    open spec fn obeys_add_spec() -> bool {
        true
    }

    open spec fn add_req(self, rhs: &u16) -> bool {
        true
    }

    open spec fn add_spec(self, rhs: &u16) -> SaturatingU16 {
        SaturatingU16 { value: saturating_sum(self.value, *rhs) }
    }
}

impl core::ops::Add<&SaturatingU16> for SaturatingU16 {
    type Output = SaturatingU16;

    /// Adds a borrowed right-hand side, saturating at `u16::MAX`.
    fn add(self, rhs: &SaturatingU16) -> SaturatingU16 {
        if self.value > u16::MAX - rhs.value {
            SaturatingU16 { value: u16::MAX }
        } else {
            SaturatingU16 { value: self.value + rhs.value }
        }
    }
}

impl vstd::std_specs::ops::AddSpecImpl<&SaturatingU16> for SaturatingU16 {
    open spec fn obeys_add_spec() -> bool {
        true
    }

    open spec fn add_req(self, rhs: &SaturatingU16) -> bool {
        true
    }

    open spec fn add_spec(self, rhs: &SaturatingU16) -> SaturatingU16 {
        SaturatingU16 { value: saturating_sum(self.value, rhs.value) }
    }
}

impl From<u16> for SaturatingU16 {
    fn from(value: u16) -> Self {
        SaturatingU16 { value }
    }
}

impl vstd::std_specs::convert::FromSpecImpl<u16> for SaturatingU16 {
    open spec fn obeys_from_spec() -> bool {
        true
    }

    open spec fn from_spec(value: u16) -> Self {
        SaturatingU16 { value }
    }
}

impl From<u8> for SaturatingU16 {
    fn from(value: u8) -> Self {
        SaturatingU16 { value: value as u16 }
    }
}

impl vstd::std_specs::convert::FromSpecImpl<u8> for SaturatingU16 {
    open spec fn obeys_from_spec() -> bool {
        true
    }

    open spec fn from_spec(value: u8) -> Self {
        SaturatingU16 { value: value as u16 }
    }
}

impl From<&u16> for SaturatingU16 {
    fn from(value: &u16) -> Self {
        SaturatingU16 { value: *value }
    }
}

impl vstd::std_specs::convert::FromSpecImpl<&u16> for SaturatingU16 {
    open spec fn obeys_from_spec() -> bool {
        true
    }

    open spec fn from_spec(value: &u16) -> Self {
        SaturatingU16 { value: *value }
    }
}

impl From<&u8> for SaturatingU16 {
    fn from(value: &u8) -> Self {
        SaturatingU16 { value: *value as u16 }
    }
}

impl vstd::std_specs::convert::FromSpecImpl<&u8> for SaturatingU16 {
    open spec fn obeys_from_spec() -> bool {
        true
    }

    open spec fn from_spec(value: &u8) -> Self {
        SaturatingU16 { value: *value as u16 }
    }
}

} // verus!
