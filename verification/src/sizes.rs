use vstd::prelude::*;

use crate::config;

verus! {

/// The unit a pad-size request is stated in.
#[derive(Clone, Copy, Debug, PartialEq, Eq, Structural)]
pub enum SizeUnit {
    Bytes,
    Mb,
    Gb,
}

/// Bytes per unit.
pub open spec fn unit_multiplier(unit: SizeUnit) -> nat {
    match unit {
        SizeUnit::Bytes => 1,
        SizeUnit::Mb => 1048576,
        SizeUnit::Gb => 1073741824,
    }
}

/// The size budget every generation must stay inside: 1 byte to 5 GiB.
pub open spec fn in_range(total: nat) -> bool {
    config::MIN_PAD_SIZE <= total <= config::MAX_PAD_SIZE
}

/// The requested pad size in bytes, or `None` exactly when the request
/// falls outside [1 byte, 5 GiB] (a zero request, or one so large that the
/// multiplication would leave the budget).
pub fn requested_size(value: u64, unit: SizeUnit) -> (r: Option<u64>)
    ensures
        match r {
            Some(total) => total == value * unit_multiplier(unit) && in_range(total as nat),
            None => !in_range((value * unit_multiplier(unit)) as nat),
        },
{
    match unit {
        SizeUnit::Bytes => {
            if 1 <= value && value <= config::MAX_PAD_SIZE {
                Some(value)
            } else {
                None
            }
        },
        SizeUnit::Mb => {
            if 1 <= value && value <= 5120 {
                Some(value * 1048576)
            } else {
                None
            }
        },
        SizeUnit::Gb => {
            if 1 <= value && value <= 5 {
                Some(value * 1073741824)
            } else {
                None
            }
        },
    }
}

} // verus!
