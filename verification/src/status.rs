//! The status byte of a pool. Each of its five low bits switches one class of
//! operation off; the three high bits are reserved and stay zero.

use vstd::prelude::*;

verus! {

/// The bits of a status byte that carry meaning.
pub const STATUS_MASK: u8 = 31;

/// A class of operation, named by the bit that switches it off.
#[derive(Clone, Copy, Debug, PartialEq, Eq, Structural)]
pub enum PoolStatusBitIndex {
    /// Bit 0: opening a position and increasing liquidity.
    OpenPositionOrIncreaseLiquidity,
    /// Bit 1: decreasing liquidity.
    DecreaseLiquidity,
    /// Bit 2: collecting fees.
    CollectFee,
    /// Bit 3: collecting rewards.
    CollectReward,
    /// Bit 4: swapping.
    Swap,
}

/// A status byte taken apart: one flag for each class of operation, set where
/// the class is switched off.
#[derive(Clone, Copy, Debug, PartialEq, Eq, Structural)]
pub struct PoolStatus {
    pub open_position_or_increase_liquidity_disabled: bool,
    pub decrease_liquidity_disabled: bool,
    pub collect_fee_disabled: bool,
    pub collect_reward_disabled: bool,
    pub swap_disabled: bool,
}

impl PoolStatusBitIndex {
    /// The position of the bit in the status byte.
    pub open spec fn spec_position(self) -> u8 {
        match self {
            PoolStatusBitIndex::OpenPositionOrIncreaseLiquidity => 0,
            PoolStatusBitIndex::DecreaseLiquidity => 1,
            PoolStatusBitIndex::CollectFee => 2,
            PoolStatusBitIndex::CollectReward => 3,
            PoolStatusBitIndex::Swap => 4,
        }
    }

    /// The position of the bit in the status byte.
    pub fn position(&self) -> (p: u8)
        ensures
            p == self.spec_position(),
            p < 5,
    {
        match self {
            PoolStatusBitIndex::OpenPositionOrIncreaseLiquidity => 0,
            PoolStatusBitIndex::DecreaseLiquidity => 1,
            PoolStatusBitIndex::CollectFee => 2,
            PoolStatusBitIndex::CollectReward => 3,
            PoolStatusBitIndex::Swap => 4,
        }
    }
}

/// Whether bit `position` of `status` is set.
pub open spec fn bit_is_set(status: u8, position: u8) -> bool {
    (status >> position) & 1 == 1
}

/// Whether `status` switches the class `bit` off.
pub open spec fn status_disables(status: u8, bit: PoolStatusBitIndex) -> bool {
    bit_is_set(status, bit.spec_position())
}

impl PoolStatus {
    /// The flags that a status byte stands for. The reserved bits are not
    /// looked at.
    pub open spec fn spec_from_bits(status: u8) -> PoolStatus {
        PoolStatus {
            open_position_or_increase_liquidity_disabled: bit_is_set(status, 0),
            decrease_liquidity_disabled: bit_is_set(status, 1),
            collect_fee_disabled: bit_is_set(status, 2),
            collect_reward_disabled: bit_is_set(status, 3),
            swap_disabled: bit_is_set(status, 4),
        }
    }

    /// The status byte of these flags, with the reserved bits zero.
    pub open spec fn spec_to_bits(self) -> u8 {
        ((if self.open_position_or_increase_liquidity_disabled {
            1
        } else {
            0int
        }) + (if self.decrease_liquidity_disabled {
            2
        } else {
            0int
        }) + (if self.collect_fee_disabled {
            4
        } else {
            0int
        }) + (if self.collect_reward_disabled {
            8
        } else {
            0int
        }) + (if self.swap_disabled {
            16
        } else {
            0int
        })) as u8
    }

    /// Whether these flags switch the class `bit` off.
    pub open spec fn disables(self, bit: PoolStatusBitIndex) -> bool {
        match bit {
            PoolStatusBitIndex::OpenPositionOrIncreaseLiquidity => {
                self.open_position_or_increase_liquidity_disabled
            },
            PoolStatusBitIndex::DecreaseLiquidity => self.decrease_liquidity_disabled,
            PoolStatusBitIndex::CollectFee => self.collect_fee_disabled,
            PoolStatusBitIndex::CollectReward => self.collect_reward_disabled,
            PoolStatusBitIndex::Swap => self.swap_disabled,
        }
    }

    /// The flags that a status byte stands for.
    pub fn from_bits(status: u8) -> (flags: PoolStatus)
        ensures
            flags == PoolStatus::spec_from_bits(status),
    {
        PoolStatus {
            open_position_or_increase_liquidity_disabled: (status >> 0u8) & 1 == 1,
            decrease_liquidity_disabled: (status >> 1u8) & 1 == 1,
            collect_fee_disabled: (status >> 2u8) & 1 == 1,
            collect_reward_disabled: (status >> 3u8) & 1 == 1,
            swap_disabled: (status >> 4u8) & 1 == 1,
        }
    }

    /// The status byte of these flags, with the reserved bits zero.
    pub fn to_bits(&self) -> (status: u8)
        ensures
            status == self.spec_to_bits(),
            status <= STATUS_MASK,
            PoolStatus::spec_from_bits(status) == *self,
    {
        let mut status: u8 = 0;
        if self.open_position_or_increase_liquidity_disabled {
            status = status + 1;
        }
        if self.decrease_liquidity_disabled {
            status = status + 2;
        }
        if self.collect_fee_disabled {
            status = status + 4;
        }
        if self.collect_reward_disabled {
            status = status + 8;
        }
        if self.swap_disabled {
            status = status + 16;
        }
        proof {
            lemma_status_bits(status);
        }
        status
    }
}

/// The five low bits of a status byte are its binary digits, and masking a
/// byte keeps them while clearing the reserved bits.
pub proof fn lemma_status_bits(status: u8)
    ensures
        bit_is_set(status, 0) == (status % 2 == 1),
        bit_is_set(status, 1) == ((status / 2) % 2 == 1),
        bit_is_set(status, 2) == ((status / 4) % 2 == 1),
        bit_is_set(status, 3) == ((status / 8) % 2 == 1),
        bit_is_set(status, 4) == ((status / 16) % 2 == 1),
        status & STATUS_MASK == status % 32,
        status & STATUS_MASK <= STATUS_MASK,
        PoolStatus::spec_from_bits(status & STATUS_MASK) == PoolStatus::spec_from_bits(status),
        bit_is_set(status & STATUS_MASK, 5) == false,
        bit_is_set(status & STATUS_MASK, 6) == false,
        bit_is_set(status & STATUS_MASK, 7) == false,
{
    assert(((status >> 0u8) & 1 == 1) == (status % 2 == 1)) by (bit_vector);
    assert(((status >> 1u8) & 1 == 1) == ((status / 2) % 2 == 1)) by (bit_vector);
    assert(((status >> 2u8) & 1 == 1) == ((status / 4) % 2 == 1)) by (bit_vector);
    assert(((status >> 3u8) & 1 == 1) == ((status / 8) % 2 == 1)) by (bit_vector);
    assert(((status >> 4u8) & 1 == 1) == ((status / 16) % 2 == 1)) by (bit_vector);
    assert(status & 31 == status % 32) by (bit_vector);
    assert((((status & 31) >> 0u8) & 1 == 1) == ((status >> 0u8) & 1 == 1)) by (bit_vector);
    assert((((status & 31) >> 1u8) & 1 == 1) == ((status >> 1u8) & 1 == 1)) by (bit_vector);
    assert((((status & 31) >> 2u8) & 1 == 1) == ((status >> 2u8) & 1 == 1)) by (bit_vector);
    assert((((status & 31) >> 3u8) & 1 == 1) == ((status >> 3u8) & 1 == 1)) by (bit_vector);
    assert((((status & 31) >> 4u8) & 1 == 1) == ((status >> 4u8) & 1 == 1)) by (bit_vector);
    assert(((status & 31) >> 5u8) & 1 == 0) by (bit_vector);
    assert(((status & 31) >> 6u8) & 1 == 0) by (bit_vector);
    assert(((status & 31) >> 7u8) & 1 == 0) by (bit_vector);
}

/// Taking a status byte apart and putting it together again gives the byte
/// with its reserved bits cleared; the flags look at the low bits alone.
pub proof fn lemma_status_round_trip(status: u8)
    ensures
        PoolStatus::spec_from_bits(status).spec_to_bits() == status & STATUS_MASK,
        forall|bit: PoolStatusBitIndex|
            PoolStatus::spec_from_bits(status).disables(bit) == status_disables(status, bit),
{
    lemma_status_bits(status);
    let d0 = (status >> 0u8) & 1;
    let d1 = (status >> 1u8) & 1;
    let d2 = (status >> 2u8) & 1;
    let d3 = (status >> 3u8) & 1;
    let d4 = (status >> 4u8) & 1;
    assert(d0 <= 1 && d1 <= 1 && d2 <= 1 && d3 <= 1 && d4 <= 1) by (bit_vector)
        requires
            d0 == (status >> 0u8) & 1,
            d1 == (status >> 1u8) & 1,
            d2 == (status >> 2u8) & 1,
            d3 == (status >> 3u8) & 1,
            d4 == (status >> 4u8) & 1,
    ;
    assert(d0 + 2 * d1 + 4 * d2 + 8 * d3 + 16 * d4 == status & 31) by (bit_vector)
        requires
            d0 == (status >> 0u8) & 1,
            d1 == (status >> 1u8) & 1,
            d2 == (status >> 2u8) & 1,
            d3 == (status >> 3u8) & 1,
            d4 == (status >> 4u8) & 1,
    ;
}

} // verus!
