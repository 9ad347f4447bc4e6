//! What the swap and position engine enters into a pool's ledger: the fees
//! and amounts of a swap, changes of the liquidity in range, the map of
//! initialized tick arrays, and samples of the price history.

use vstd::prelude::*;
use crate::error::ErrorCode;
use crate::oracle::{ObservationState, OBSERVATION_UPDATE_DURATION_DEFAULT};
use crate::pool::{bitmap_bit, word_bit, PoolState, TICK_ARRAY_BITMAP_BITS};
use crate::status::PoolStatusBitIndex;

verus! {

/// What one swap adds to the ledger, as the swap engine computed it.
#[derive(Clone, Copy, Debug, PartialEq, Eq)]
pub struct SwapAccrual {
    /// Whether token 0 goes in and token 1 comes out.
    pub zero_for_one: bool,
    /// Amount of the input token taken in.
    pub amount_in: u64,
    /// Amount of the output token paid out.
    pub amount_out: u64,
    /// Fee of the input token per unit of liquidity, in Q64.64.
    pub fee_growth_x64: u128,
    /// Fee of the input token owed to the protocol.
    pub protocol_fee: u64,
    /// Fee of the input token owed to the fund.
    pub fund_fee: u64,
    /// The price after the swap.
    pub sqrt_price_x64: u128,
    /// The tick that belongs to the price after the swap.
    pub tick_current: i32,
}

impl PoolState {
    /// What `apply_swap` does.
    ///
    /// Refused with `StatusDisabled` while swapping is switched off, and with
    /// `MathOverflow` where an accumulator or counter of the input or output
    /// token would overflow. Otherwise the fee growth, the fees owed and the
    /// amount swapped in grow on the side of the input token, the amount
    /// swapped out grows on the side of the output token, and price and tick
    /// are replaced together.
    pub open spec fn spec_apply_swap(&self, swap: SwapAccrual) -> Result<PoolState, ErrorCode> {
        if self.disables(PoolStatusBitIndex::Swap) {
            Err(ErrorCode::StatusDisabled)
        } else if swap.zero_for_one {
            if self.fee_growth_global_0_x64 + swap.fee_growth_x64 > u128::MAX
                || self.protocol_fees_token_0 + swap.protocol_fee > u64::MAX
                || self.fund_fees_token_0 + swap.fund_fee > u64::MAX || self.swap_in_amount_token_0
                + swap.amount_in > u128::MAX || self.swap_out_amount_token_1 + swap.amount_out
                > u128::MAX {
                Err(ErrorCode::MathOverflow)
            } else {
                Ok(
                    PoolState {
                        fee_growth_global_0_x64: (self.fee_growth_global_0_x64
                            + swap.fee_growth_x64) as u128,
                        protocol_fees_token_0: (self.protocol_fees_token_0
                            + swap.protocol_fee) as u64,
                        fund_fees_token_0: (self.fund_fees_token_0 + swap.fund_fee) as u64,
                        swap_in_amount_token_0: (self.swap_in_amount_token_0
                            + swap.amount_in) as u128,
                        swap_out_amount_token_1: (self.swap_out_amount_token_1
                            + swap.amount_out) as u128,
                        sqrt_price_x64: swap.sqrt_price_x64,
                        tick_current: swap.tick_current,
                        ..*self
                    },
                )
            }
        } else {
            if self.fee_growth_global_1_x64 + swap.fee_growth_x64 > u128::MAX
                || self.protocol_fees_token_1 + swap.protocol_fee > u64::MAX
                || self.fund_fees_token_1 + swap.fund_fee > u64::MAX || self.swap_in_amount_token_1
                + swap.amount_in > u128::MAX || self.swap_out_amount_token_0 + swap.amount_out
                > u128::MAX {
                Err(ErrorCode::MathOverflow)
            } else {
                Ok(
                    PoolState {
                        fee_growth_global_1_x64: (self.fee_growth_global_1_x64
                            + swap.fee_growth_x64) as u128,
                        protocol_fees_token_1: (self.protocol_fees_token_1
                            + swap.protocol_fee) as u64,
                        fund_fees_token_1: (self.fund_fees_token_1 + swap.fund_fee) as u64,
                        swap_in_amount_token_1: (self.swap_in_amount_token_1
                            + swap.amount_in) as u128,
                        swap_out_amount_token_0: (self.swap_out_amount_token_0
                            + swap.amount_out) as u128,
                        sqrt_price_x64: swap.sqrt_price_x64,
                        tick_current: swap.tick_current,
                        ..*self
                    },
                )
            }
        }
    }

    /// Enters what one swap adds into the ledger. A refused call leaves the
    /// pool as it was. No accumulator and no counter ever goes down.
    pub fn apply_swap(&mut self, swap: &SwapAccrual) -> (res: Result<(), ErrorCode>)
        ensures
            match old(self).spec_apply_swap(*swap) {
                Ok(next) => res is Ok && *final(self) == next,
                Err(e) => res == Err::<(), ErrorCode>(e) && *final(self) == *old(self),
            },
            final(self).fee_growth_global_0_x64 >= old(self).fee_growth_global_0_x64,
            final(self).fee_growth_global_1_x64 >= old(self).fee_growth_global_1_x64,
            final(self).protocol_fees_token_0 >= old(self).protocol_fees_token_0,
            final(self).protocol_fees_token_1 >= old(self).protocol_fees_token_1,
            final(self).fund_fees_token_0 >= old(self).fund_fees_token_0,
            final(self).fund_fees_token_1 >= old(self).fund_fees_token_1,
            final(self).swap_in_amount_token_0 >= old(self).swap_in_amount_token_0,
            final(self).swap_in_amount_token_1 >= old(self).swap_in_amount_token_1,
            final(self).swap_out_amount_token_0 >= old(self).swap_out_amount_token_0,
            final(self).swap_out_amount_token_1 >= old(self).swap_out_amount_token_1,
            old(self).wf() ==> final(self).wf(),
    {
        if !self.get_status_by_bit(PoolStatusBitIndex::Swap) {
            return Err(ErrorCode::StatusDisabled);
        }
        let (growth, protocol, fund, total_in, total_out) = if swap.zero_for_one {
            (
                self.fee_growth_global_0_x64,
                self.protocol_fees_token_0,
                self.fund_fees_token_0,
                self.swap_in_amount_token_0,
                self.swap_out_amount_token_1,
            )
        } else {
            (
                self.fee_growth_global_1_x64,
                self.protocol_fees_token_1,
                self.fund_fees_token_1,
                self.swap_in_amount_token_1,
                self.swap_out_amount_token_0,
            )
        };
        let growth = match growth.checked_add(swap.fee_growth_x64) {
            Some(v) => v,
            None => {
                return Err(ErrorCode::MathOverflow);
            },
        };
        let protocol = match protocol.checked_add(swap.protocol_fee) {
            Some(v) => v,
            None => {
                return Err(ErrorCode::MathOverflow);
            },
        };
        let fund = match fund.checked_add(swap.fund_fee) {
            Some(v) => v,
            None => {
                return Err(ErrorCode::MathOverflow);
            },
        };
        let total_in = match total_in.checked_add(swap.amount_in as u128) {
            Some(v) => v,
            None => {
                return Err(ErrorCode::MathOverflow);
            },
        };
        let total_out = match total_out.checked_add(swap.amount_out as u128) {
            Some(v) => v,
            None => {
                return Err(ErrorCode::MathOverflow);
            },
        };
        if swap.zero_for_one {
            self.fee_growth_global_0_x64 = growth;
            self.protocol_fees_token_0 = protocol;
            self.fund_fees_token_0 = fund;
            self.swap_in_amount_token_0 = total_in;
            self.swap_out_amount_token_1 = total_out;
        } else {
            self.fee_growth_global_1_x64 = growth;
            self.protocol_fees_token_1 = protocol;
            self.fund_fees_token_1 = fund;
            self.swap_in_amount_token_1 = total_in;
            self.swap_out_amount_token_0 = total_out;
        }
        self.sqrt_price_x64 = swap.sqrt_price_x64;
        self.tick_current = swap.tick_current;
        Ok(())
    }

    /// What `increase_liquidity` does: refused with `StatusDisabled` while
    /// increasing liquidity is switched off, and with `MathOverflow` where
    /// the schedules cannot be brought up to `now` or the liquidity would
    /// overflow; otherwise the pool brought up to `now`, with `delta` more
    /// liquidity in range.
    pub open spec fn spec_increase_liquidity(&self, now: u64, delta: u128) -> Result<
        PoolState,
        ErrorCode,
    > {
        if self.disables(PoolStatusBitIndex::OpenPositionOrIncreaseLiquidity) {
            Err(ErrorCode::StatusDisabled)
        } else {
            match self.spec_update_reward_infos(now) {
                None => Err(ErrorCode::MathOverflow),
                Some(settled) => if settled.liquidity + delta > u128::MAX {
                    Err(ErrorCode::MathOverflow)
                } else {
                    Ok(PoolState { liquidity: (settled.liquidity + delta) as u128, ..settled })
                },
            }
        }
    }

    /// What `decrease_liquidity` does: refused with `StatusDisabled` while
    /// decreasing liquidity is switched off, with `MathOverflow` where the
    /// schedules cannot be brought up to `now`, and with
    /// `InsufficientLiquidity` where `delta` is more than is in range;
    /// otherwise the pool brought up to `now`, with `delta` less liquidity in
    /// range.
    pub open spec fn spec_decrease_liquidity(&self, now: u64, delta: u128) -> Result<
        PoolState,
        ErrorCode,
    > {
        if self.disables(PoolStatusBitIndex::DecreaseLiquidity) {
            Err(ErrorCode::StatusDisabled)
        } else {
            match self.spec_update_reward_infos(now) {
                None => Err(ErrorCode::MathOverflow),
                Some(settled) => if delta > settled.liquidity {
                    Err(ErrorCode::InsufficientLiquidity)
                } else {
                    Ok(PoolState { liquidity: (settled.liquidity - delta) as u128, ..settled })
                },
            }
        }
    }

    /// Brings the reward schedules up to `now` and then adds `delta` to the
    /// liquidity in range. A refused call leaves the pool as it was.
    pub fn increase_liquidity(&mut self, now: u64, delta: u128) -> (res: Result<(), ErrorCode>)
        ensures
            match old(self).spec_increase_liquidity(now, delta) {
                Ok(next) => res is Ok && *final(self) == next,
                Err(e) => res == Err::<(), ErrorCode>(e) && *final(self) == *old(self),
            },
            final(self).liquidity >= old(self).liquidity,
            old(self).wf() ==> final(self).wf(),
    {
        if !self.get_status_by_bit(PoolStatusBitIndex::OpenPositionOrIncreaseLiquidity) {
            return Err(ErrorCode::StatusDisabled);
        }
        let mut settled = *self;
        match settled.update_reward_infos(now) {
            Ok(()) => {},
            Err(e) => {
                return Err(e);
            },
        }
        match settled.liquidity.checked_add(delta) {
            Some(v) => {
                settled.liquidity = v;
            },
            None => {
                return Err(ErrorCode::MathOverflow);
            },
        }
        *self = settled;
        Ok(())
    }

    /// Brings the reward schedules up to `now` and then takes `delta` off the
    /// liquidity in range. A refused call leaves the pool as it was.
    pub fn decrease_liquidity(&mut self, now: u64, delta: u128) -> (res: Result<(), ErrorCode>)
        ensures
            match old(self).spec_decrease_liquidity(now, delta) {
                Ok(next) => res is Ok && *final(self) == next,
                Err(e) => res == Err::<(), ErrorCode>(e) && *final(self) == *old(self),
            },
            final(self).liquidity <= old(self).liquidity,
            old(self).wf() ==> final(self).wf(),
    {
        if !self.get_status_by_bit(PoolStatusBitIndex::DecreaseLiquidity) {
            return Err(ErrorCode::StatusDisabled);
        }
        let mut settled = *self;
        match settled.update_reward_infos(now) {
            Ok(()) => {},
            Err(e) => {
                return Err(e);
            },
        }
        if delta > settled.liquidity {
            return Err(ErrorCode::InsufficientLiquidity);
        }
        settled.liquidity = settled.liquidity - delta;
        *self = settled;
        Ok(())
    }
}

/// Flipping bit `bit` of a word changes that bit and no other.
pub proof fn lemma_flip_word_bit(word: u64, bit: u64, other: u64)
    requires
        bit < 64,
        other < 64,
    ensures
        word_bit(word ^ (1u64 << bit), other) == (word_bit(word, other) != (other == bit)),
{
    assert((((word ^ (1u64 << bit)) >> other) & 1 == 1) == ((((word >> other) & 1) == 1) != (other
        == bit))) by (bit_vector)
        requires
            bit < 64,
            other < 64,
    ;
}

impl PoolState {
    /// Whether tick array `index` is initialized; `false` for an index
    /// beyond the bitmap.
    pub fn is_tick_array_initialized(&self, index: u16) -> (r: bool)
        ensures
            r == (index < 1024 && self.tick_array_initialized(index as int)),
    {
        if index >= TICK_ARRAY_BITMAP_BITS {
            return false;
        }
        let word: usize = (index / 64) as usize;
        let bit: u64 = (index % 64) as u64;
        (self.tick_array_bitmap[word] >> bit) & 1 == 1
    }

    /// Flips the bit of tick array `index`: an array that was not initialized
    /// now is, and the other way round. Refused with `InvalidBitmapIndex`,
    /// and nothing changed, exactly where `index` is beyond the bitmap. No
    /// other bit and no other field changes.
    pub fn flip_tick_array_bit(&mut self, index: u16) -> (res: Result<(), ErrorCode>)
        ensures
            res == if index < 1024 {
                Ok::<(), ErrorCode>(())
            } else {
                Err::<(), ErrorCode>(ErrorCode::InvalidBitmapIndex)
            },
            index >= 1024 ==> *final(self) == *old(self),
            index < 1024 ==> *final(self) == (PoolState {
                tick_array_bitmap: final(self).tick_array_bitmap,
                ..*old(self)
            }),
            index < 1024 ==> forall|i: int|
                0 <= i < 1024 ==> #[trigger] final(self).tick_array_initialized(i) == (old(self)
                    .tick_array_initialized(i) != (i == index)),
            old(self).wf() ==> final(self).wf(),
    {
        if index >= TICK_ARRAY_BITMAP_BITS {
            return Err(ErrorCode::InvalidBitmapIndex);
        }
        let word: usize = (index / 64) as usize;
        let bit: u64 = (index % 64) as u64;
        let before: u64 = self.tick_array_bitmap[word];
        self.tick_array_bitmap[word] = before ^ (1u64 << bit);
        proof {
            assert forall|i: int| 0 <= i < 1024 implies #[trigger] self.tick_array_initialized(i)
                == (old(self).tick_array_initialized(i) != (i == index)) by {
                if i / 64 == word as int {
                    lemma_flip_word_bit(before, bit, (i % 64) as u64);
                } else {
                    assert(self.tick_array_bitmap@[i / 64] == old(self).tick_array_bitmap@[i
                        / 64]);
                }
            }
        }
        Ok(())
    }

    /// Records `tick_current` at `current_time` in the pool's price history,
    /// appending a sample only when the default interval has passed since the
    /// latest one. Refused with `StatusDisabled`, and the history left as it
    /// was, exactly while swapping is switched off. The history keeps time
    /// modulo 2^32.
    pub fn record_observation(
        &self,
        oracle: &mut ObservationState,
        current_time: u64,
        tick_current: i32,
    ) -> (res: Result<(), ErrorCode>)
        requires
            old(oracle).wf(),
        ensures
            res == if self.disables(PoolStatusBitIndex::Swap) {
                Err::<(), ErrorCode>(ErrorCode::StatusDisabled)
            } else {
                Ok::<(), ErrorCode>(())
            },
            *final(oracle) == if self.disables(PoolStatusBitIndex::Swap) {
                *old(oracle)
            } else {
                old(oracle).spec_write(
                    (current_time % 0x1_0000_0000) as u32,
                    tick_current,
                    OBSERVATION_UPDATE_DURATION_DEFAULT,
                )
            },
            final(oracle).wf(),
    {
        if !self.get_status_by_bit(PoolStatusBitIndex::Swap) {
            return Err(ErrorCode::StatusDisabled);
        }
        let low: u64 = current_time & 0xffff_ffff;
        assert(current_time & 0xffff_ffff == current_time % 0x1_0000_0000) by (bit_vector);
        oracle.write_throttled(low as u32, tick_current, OBSERVATION_UPDATE_DURATION_DEFAULT);
        Ok(())
    }
}

} // verus!
