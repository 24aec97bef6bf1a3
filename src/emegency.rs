use vstd::prelude::*;

verus! {

/// Largest emergency reason: a reason never sets bit 15 of its 16-bit form.
pub const REASON_MAX: u16 = 0x7FFF;

/// Emergency status, carried in the top bit of a byte.
#[derive(Clone, Copy, Debug, PartialEq, Eq, Structural)]
pub enum EmegencyStatus {
    Inactive,
    Active,
}

impl EmegencyStatus {
    /// The byte form: the top bit set for an active emergency, all else clear.
    pub open spec fn byte_spec(self) -> u8 {
        match self {
            EmegencyStatus::Inactive => 0x00,
            EmegencyStatus::Active => 0x80,
        }
    }

    /// The status a byte stands for, if it is one of the two byte forms.
    pub open spec fn from_byte_spec(b: u8) -> Option<EmegencyStatus> {
        if b == 0x00 {
            Some(EmegencyStatus::Inactive)
        } else if b == 0x80 {
            Some(EmegencyStatus::Active)
        } else {
            None
        }
    }

    pub fn to_u8(self) -> (r: u8)
        ensures
            r == self.byte_spec(),
    {
        match self {
            EmegencyStatus::Inactive => 0x00,
            EmegencyStatus::Active => 0x80,
        }
    }

    pub fn from_u8(b: u8) -> (r: Option<EmegencyStatus>)
        ensures
            r == Self::from_byte_spec(b),
    {
        if b == 0x00 {
            Some(EmegencyStatus::Inactive)
        } else if b == 0x80 {
            Some(EmegencyStatus::Active)
        } else {
            None
        }
    }
}

/// Reason of an emergency: a 15-bit value.
#[derive(Clone, Copy, Debug, PartialEq, Eq)]
pub struct EmergencyReason {
    raw: u16,
}

impl View for EmergencyReason {
    type V = u16;

    closed spec fn view(&self) -> u16 {
        self.raw
    }
}

impl EmergencyReason {
    #[verifier::type_invariant]
    spec fn inv(self) -> bool {
        self.raw <= REASON_MAX
    }

    /// A reason from its 16-bit form; refused when bit 15 is set.
    pub fn new(raw: u16) -> (r: Option<EmergencyReason>)
        ensures
            r is Some <==> raw <= REASON_MAX,
            r matches Some(reason) ==> reason@ == raw,
    {
        if raw <= REASON_MAX {
            Some(EmergencyReason { raw })
        } else {
            None
        }
    }

    pub fn value(&self) -> (r: u16)
        ensures
            r == self@,
            r <= REASON_MAX,
    {
        proof {
            use_type_invariant(self);
        }
        self.raw
    }
}

} // verus!
