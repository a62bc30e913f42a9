use vstd::prelude::*;

verus! {

/// The permission digit of the owning user in `mode` (bits 8..6).
pub open spec fn owner_digit_of(mode: u32) -> int {
    (mode as int / 64) % 8
}

/// The permission digit of the owning group in `mode` (bits 5..3).
pub open spec fn group_digit_of(mode: u32) -> int {
    (mode as int / 8) % 8
}

/// The permission digit of everyone else in `mode` (bits 2..0).
pub open spec fn other_digit_of(mode: u32) -> int {
    mode as int % 8
}

/// The three permission digits of a mode value, one per access class.
#[derive(Clone, Copy, Debug, PartialEq, Eq, Structural)]
pub struct PermissionDigits {
    pub owner: u8,
    pub group: u8,
    pub other: u8,
}

impl PermissionDigits {
    /// Every digit is an octal digit.
    pub open spec fn wf(&self) -> bool {
        self.owner < 8 && self.group < 8 && self.other < 8
    }
}

proof fn lemma_shift_mask(mode: u32)
    ensures
        (mode >> 6u32) & 7u32 == (mode as int / 64) % 8,
        (mode >> 3u32) & 7u32 == (mode as int / 8) % 8,
        mode & 7u32 == mode as int % 8,
{
    assert((mode >> 6u32) & 7u32 == (mode / 64u32) % 8u32) by (bit_vector);
    assert((mode >> 3u32) & 7u32 == (mode / 8u32) % 8u32) by (bit_vector);
    assert(mode & 7u32 == mode % 8u32) by (bit_vector);
}

/// Splits `mode` into its owner, group and other digits. The file-type and
/// special bits above the low nine are ignored.
pub fn decode(mode: u32) -> (r: PermissionDigits)
    ensures
        r.wf(),
        r.owner == owner_digit_of(mode),
        r.group == group_digit_of(mode),
        r.other == other_digit_of(mode),
{
    proof {
        lemma_shift_mask(mode);
    }
    PermissionDigits {
        owner: ((mode >> 6u32) & 7u32) as u8,
        group: ((mode >> 3u32) & 7u32) as u8,
        other: (mode & 7u32) as u8,
    }
}

} // verus!
