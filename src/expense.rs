//! Expenses: an amount spent by a user at a time, under category tags.
use vstd::prelude::*;
use crate::user::{Timestamp, User};

verus! {

/// The largest mantissa magnitude of a decimal amount: `2^96 - 1`.
pub const MAX_MANTISSA: i128 = 0xFFFF_FFFF_FFFF_FFFF_FFFF_FFFF;

/// The largest number of decimal places of an amount.
pub const MAX_SCALE: u32 = 28;

/// A decimal amount, `mantissa / 10^scale`, held as a 96-bit magnitude with
/// up to 28 decimal places.
#[derive(Clone, Copy, Debug, PartialEq, Eq, Structural)]
pub struct Amount {
    mantissa: i128,
    scale: u32,
}

impl Amount {
    pub open spec fn wf(&self) -> bool {
        -MAX_MANTISSA <= self.spec_mantissa() <= MAX_MANTISSA && self.spec_scale() <= MAX_SCALE
    }

    pub closed spec fn spec_mantissa(&self) -> i128 {
        self.mantissa
    }

    pub closed spec fn spec_scale(&self) -> u32 {
        self.scale
    }

    /// The amount `mantissa / 10^scale`; `None` where the mantissa needs more
    /// than 96 bits or the scale exceeds 28.
    pub fn new(mantissa: i128, scale: u32) -> (r: Option<Amount>)
        ensures
            r is Some <==> (-MAX_MANTISSA <= mantissa <= MAX_MANTISSA && scale <= MAX_SCALE),
            r matches Some(a) ==> a.wf() && a.spec_mantissa() == mantissa && a.spec_scale() == scale,
    {
        if -MAX_MANTISSA <= mantissa && mantissa <= MAX_MANTISSA && scale <= MAX_SCALE {
            Some(Amount { mantissa, scale })
        } else {
            None
        }
    }

    pub fn mantissa(&self) -> (r: i128)
        ensures
            r == self.spec_mantissa(),
    {
        self.mantissa
    }

    pub fn scale(&self) -> (r: u32)
        ensures
            r == self.spec_scale(),
    {
        self.scale
    }
}

/// An expense of a user.
#[derive(Clone)]
pub struct Expense {
    pub expense_id: i32,
    pub user: User,
    pub expense_time: Timestamp,
    pub amount: Amount,
    /// The names of the categories the expense is tagged with.
    pub tags: Vec<String>,
}

} // verus!
