//! The fee tier that pools share: the trade fee, the parts of it that go to
//! the protocol and to the fund, the tick spacing, and who may change them.

use vstd::prelude::*;
use crate::error::ErrorCode;
use crate::pubkey::Pubkey;

verus! {

/// One fee tier.
#[derive(Clone, Copy, Debug, PartialEq, Eq)]
pub struct AmmConfig {
    /// Bump of the record's derived address.
    pub bump: u8,
    /// Number of the tier.
    pub index: u16,
    /// Who may change the tier.
    pub owner: Pubkey,
    /// Part of the trade fee that goes to the protocol.
    pub protocol_fee_rate: u32,
    /// Fee on every trade, in hundredths of a bip.
    pub trade_fee_rate: u32,
    /// Least distance between two usable ticks. Fixed at creation.
    pub tick_spacing: u16,
    /// Part of the trade fee that goes to the fund.
    pub fund_fee_rate: u32,
    /// Reserved.
    pub padding_u32: u32,
    /// Who may collect the fund's part.
    pub fund_owner: Pubkey,
    /// Reserved.
    pub padding: [u64; 3],
}

/// Selector of `update`: the trade fee rate.
pub const PARAM_TRADE_FEE_RATE: u8 = 0;

/// Selector of `update`: the protocol fee rate.
pub const PARAM_PROTOCOL_FEE_RATE: u8 = 1;

/// Selector of `update`: the fund fee rate.
pub const PARAM_FUND_FEE_RATE: u8 = 2;

/// Selector of `update`: the owner.
pub const PARAM_OWNER: u8 = 3;

/// Selector of `update`: the fund owner.
pub const PARAM_FUND_OWNER: u8 = 4;

impl AmmConfig {
    /// Number of bytes a stored tier takes, its 8-byte record header
    /// included.
    pub const LEN: usize = 8 + 1 + 2 + 32 + 4 + 4 + 2 + 64;

    /// The trade fee covers what is split off it.
    pub open spec fn fee_split_holds(&self) -> bool {
        self.protocol_fee_rate + self.fund_fee_rate <= self.trade_fee_rate
    }

    /// The tier that `new` makes.
    pub open spec fn spec_new(
        bump: u8,
        index: u16,
        owner: Pubkey,
        tick_spacing: u16,
        trade_fee_rate: u32,
        protocol_fee_rate: u32,
        fund_fee_rate: u32,
    ) -> AmmConfig {
        AmmConfig {
            bump,
            index,
            owner,
            protocol_fee_rate,
            trade_fee_rate,
            tick_spacing,
            fund_fee_rate,
            padding_u32: 0,
            fund_owner: owner,
            padding: vstd::array::spec_array_fill_for_copy_type::<u64, 3>(0u64),
        }
    }

    /// What `update` does: the new tier, or why there is none.
    ///
    /// A selector above 4 is refused first; then anyone but the owner.
    /// Selectors 0, 1 and 2 set the trade, the protocol and the fund fee rate
    /// to `value`, and are refused where the trade fee would no longer cover
    /// the other two. Selectors 3 and 4 set the owner and the fund owner to
    /// `new_key`.
    pub open spec fn spec_update(
        &self,
        actor: Pubkey,
        param: u8,
        value: u32,
        new_key: Option<Pubkey>,
    ) -> Result<AmmConfig, ErrorCode> {
        if param > 4 {
            Err(ErrorCode::InvalidSelector)
        } else if actor@ != self.owner@ {
            Err(ErrorCode::Unauthorized)
        } else if param <= 2 {
            let next = if param == 0 {
                AmmConfig { trade_fee_rate: value, ..*self }
            } else if param == 1 {
                AmmConfig { protocol_fee_rate: value, ..*self }
            } else {
                AmmConfig { fund_fee_rate: value, ..*self }
            };
            if next.fee_split_holds() {
                Ok(next)
            } else {
                Err(ErrorCode::InvalidFeeRate)
            }
        } else {
            match new_key {
                None => Err(ErrorCode::MissingKey),
                Some(key) => if param == 3 {
                    Ok(AmmConfig { owner: key, ..*self })
                } else {
                    Ok(AmmConfig { fund_owner: key, ..*self })
                },
            }
        }
    }

    /// A new tier owned by `owner`, who also becomes the fund owner.
    /// Refused with `InvalidTickSpacing` exactly where `tick_spacing` is zero.
    /// The fee rates are taken as given.
    pub fn new(
        bump: u8,
        index: u16,
        owner: Pubkey,
        tick_spacing: u16,
        trade_fee_rate: u32,
        protocol_fee_rate: u32,
        fund_fee_rate: u32,
    ) -> (res: Result<AmmConfig, ErrorCode>)
        ensures
            tick_spacing == 0 ==> res == Err::<AmmConfig, ErrorCode>(ErrorCode::InvalidTickSpacing),
            tick_spacing != 0 ==> res == Ok::<AmmConfig, ErrorCode>(
                AmmConfig::spec_new(
                    bump,
                    index,
                    owner,
                    tick_spacing,
                    trade_fee_rate,
                    protocol_fee_rate,
                    fund_fee_rate,
                ),
            ),
    {
        if tick_spacing == 0 {
            return Err(ErrorCode::InvalidTickSpacing);
        }
        Ok(
            AmmConfig {
                bump,
                index,
                owner,
                protocol_fee_rate,
                trade_fee_rate,
                tick_spacing,
                fund_fee_rate,
                padding_u32: 0,
                fund_owner: owner,
                padding: [0u64;3],
            },
        )
    }

    /// Whether the trade fee covers what is split off it.
    pub fn check_fee_split(&self) -> (r: bool)
        ensures
            r == self.fee_split_holds(),
    {
        let split: u64 = self.protocol_fee_rate as u64 + self.fund_fee_rate as u64;
        split <= self.trade_fee_rate as u64
    }

    /// Changes one field of the tier on behalf of `actor`. A refused update
    /// leaves the tier as it was.
    pub fn update(&mut self, actor: &Pubkey, param: u8, value: u32, new_key: Option<Pubkey>) -> (res:
        Result<(), ErrorCode>)
        ensures
            match old(self).spec_update(*actor, param, value, new_key) {
                Ok(next) => res is Ok && *final(self) == next,
                Err(e) => res == Err::<(), ErrorCode>(e) && *final(self) == *old(self),
            },
            res is Ok && param <= 2 ==> final(self).fee_split_holds(),
            final(self).tick_spacing == old(self).tick_spacing,
            final(self).index == old(self).index,
            final(self).bump == old(self).bump,
    {
        if param > 4 {
            return Err(ErrorCode::InvalidSelector);
        }
        if *actor != self.owner {
            return Err(ErrorCode::Unauthorized);
        }
        if param <= 2 {
            let mut next = *self;
            if param == 0 {
                next.trade_fee_rate = value;
            } else if param == 1 {
                next.protocol_fee_rate = value;
            } else {
                next.fund_fee_rate = value;
            }
            if !next.check_fee_split() {
                return Err(ErrorCode::InvalidFeeRate);
            }
            *self = next;
            return Ok(());
        }
        match new_key {
            None => Err(ErrorCode::MissingKey),
            Some(key) => {
                if param == 3 {
                    self.owner = key;
                } else {
                    self.fund_owner = key;
                }
                Ok(())
            },
        }
    }
}

/// No update leaves a tier whose trade fee fails to cover the other two: an
/// update of a fee rate that would do so is refused, and the tier stays as it
/// was.
pub proof fn lemma_update_keeps_fee_split(
    config: AmmConfig,
    actor: Pubkey,
    param: u8,
    value: u32,
    new_key: Option<Pubkey>,
)
    ensures
        param <= 2 ==> match config.spec_update(actor, param, value, new_key) {
            Ok(next) => next.fee_split_holds(),
            Err(_) => true,
        },
        config.fee_split_holds() ==> match config.spec_update(actor, param, value, new_key) {
            Ok(next) => next.fee_split_holds(),
            Err(_) => true,
        },
        ({
            let trade = if param == 0 {
                value
            } else {
                config.trade_fee_rate
            };
            let protocol = if param == 1 {
                value
            } else {
                config.protocol_fee_rate
            };
            let fund = if param == 2 {
                value
            } else {
                config.fund_fee_rate
            };
            param <= 2 && protocol + fund > trade ==> config.spec_update(
                actor,
                param,
                value,
                new_key,
            ) is Err
        }),
{
}

} // verus!
