//! The fee calculator: a network fee as a deterministic function of a
//! transaction's canonical size and the schedule's price per byte. An
//! explicit fee override bypasses it entirely (see `Cmd::build`).

use vstd::prelude::*;
use crate::txn::UnsignedTxn;

verus! {

/// The unit-cost model fetched from the network: the fee price of one
/// serialized byte, in the fee currency's smallest units.
#[derive(Clone, Copy, Debug)]
pub struct FeeSchedule {
    pub dc_per_byte: u64,
}

/// The fee a payload of `len` bytes costs under a price per byte.
pub open spec fn fee_spec(len: nat, dc_per_byte: u64) -> int {
    len * dc_per_byte
}

/// Computes the fee for a payload length, or nothing when the exact fee
/// does not fit the 64-bit fee field.
pub fn calc_fee(len: usize, schedule: &FeeSchedule) -> (r: Option<u64>)
    ensures
        match r {
            Some(f) => f == fee_spec(len as nat, schedule.dc_per_byte),
            None => fee_spec(len as nat, schedule.dc_per_byte) > u64::MAX,
        },
{
    (len as u64).checked_mul(schedule.dc_per_byte)
}

impl UnsignedTxn {
    /// The fee of this record under a schedule: the price of its canonical
    /// serialization, which must already carry the final nonce and a zero
    /// fee, since the fee is priced over the exact bytes that will be
    /// signed once it is filled in.
    pub fn txn_fee(&self, schedule: &FeeSchedule) -> (r: Option<u64>)
        requires
            self.fee == 0,
        ensures
            match r {
                Some(f) => f == fee_spec(self.ser_spec().len(), schedule.dc_per_byte),
                None => fee_spec(self.ser_spec().len(), schedule.dc_per_byte) > u64::MAX,
            },
    {
        let bytes = self.serialize();
        calc_fee(bytes.len(), schedule)
    }
}

} // verus!
