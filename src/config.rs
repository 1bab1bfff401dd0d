use vstd::prelude::*;
use vstd::slice::slice_to_vec;
use crate::address::{seeds_view, Address};
use crate::error::ErrorCode;
use crate::material::{material_of, MaterialType};
use crate::player::PlayerProfile;

verus! {

/// How many block tokens make one brick.
pub const BLOCKS_PER_BRICK: u64 = 10;

/// The one configuration of the ledger: who may mint, which token is minted,
/// and the totals of all players.
#[derive(Clone, Copy, Debug, PartialEq, Eq)]
pub struct GlobalConfig {
    pub authority: Address,
    pub block_mint: Address,
    pub total_blocks_minted: u64,
    pub total_bricks_created: u64,
    pub bump: u8,
}

/// The seeds of the configuration's address: the tag alone.
pub open spec fn config_seeds() -> Seq<Seq<u8>> {
    seq![GlobalConfig::SEED_PREFIX@]
}

impl GlobalConfig {
    /// The seed tag of the configuration's address: the bytes of "global_config".
    pub const SEED_PREFIX: [u8; 13] = [103, 108, 111, 98, 97, 108, 95, 99, 111, 110, 102, 105, 103];

    /// The stored size: discriminator, authority, mint, two totals, bump.
    pub const SIZE: usize = 8 + 32 + 32 + 8 + 8 + 1;

    /// The seed list of the configuration's address.
    pub fn seeds() -> (r: Vec<Vec<u8>>)
        ensures
            seeds_view(r@) == config_seeds(),
    {
        let prefix: [u8; 13] = Self::SEED_PREFIX;
        let r = vec![slice_to_vec(prefix.as_slice())];
        assert(seeds_view(r@) =~= config_seeds());
        r
    }

    /// Checks a mint request: the caller must be the authority, the amount
    /// positive and the waste type a known material, in that order.
    pub fn check_mint(&self, caller: &Address, amount: u64, waste_type: u8) -> (r: Result<(), ErrorCode>)
        ensures
            r == (if self.authority@ != caller@ {
                Err::<(), ErrorCode>(ErrorCode::Unauthorized)
            } else if amount == 0 {
                Err(ErrorCode::InvalidAmount)
            } else if material_of(waste_type) is None {
                Err(ErrorCode::InvalidMaterialType)
            } else {
                Ok(())
            }),
    {
        if !self.authority.same(caller) {
            return Err(ErrorCode::Unauthorized);
        }
        if amount == 0 {
            return Err(ErrorCode::InvalidAmount);
        }
        match MaterialType::try_from(waste_type) {
            Ok(_) => Ok(()),
            Err(e) => Err(e),
        }
    }

    /// Counts a mint of `amount` tokens to `player` in the player's counters
    /// and in the total, all or nothing.
    pub fn record_mint(&mut self, player: &mut PlayerProfile, amount: u64) -> (r: Result<(), ErrorCode>)
        ensures
            r is Ok <==> old(player).blocks_minted + amount <= u64::MAX && old(player).collections_count + 1
                <= u64::MAX && old(self).total_blocks_minted + amount <= u64::MAX,
            r is Err ==> r == Err::<(), ErrorCode>(ErrorCode::Overflow) && *final(self) == *old(self)
                && *final(player) == *old(player),
            r is Ok ==> *final(self) == (GlobalConfig {
                total_blocks_minted: (old(self).total_blocks_minted + amount) as u64,
                ..*old(self)
            }) && *final(player) == (PlayerProfile {
                blocks_minted: (old(player).blocks_minted + amount) as u64,
                collections_count: (old(player).collections_count + 1) as u64,
                ..*old(player)
            }),
    {
        let total = match self.total_blocks_minted.checked_add(amount) {
            Some(t) => t,
            None => return Err(ErrorCode::Overflow),
        };
        if let Err(e) = player.record_mint(amount) {
            return Err(e);
        }
        self.total_blocks_minted = total;
        Ok(())
    }

    /// Counts one brick made by `player` and takes `BLOCKS_PER_BRICK` from the
    /// player's token balance, all or nothing.
    pub fn record_conversion(&mut self, player: &mut PlayerProfile, balance: &mut u64) -> (r: Result<(), ErrorCode>)
        ensures
            *old(balance) < BLOCKS_PER_BRICK ==> r == Err::<(), ErrorCode>(ErrorCode::InsufficientBlocks),
            *old(balance) >= BLOCKS_PER_BRICK && (old(player).brick_count == u64::MAX
                || old(self).total_bricks_created == u64::MAX) ==> r == Err::<(), ErrorCode>(ErrorCode::Overflow),
            r is Ok <==> *old(balance) >= BLOCKS_PER_BRICK && old(player).brick_count < u64::MAX
                && old(self).total_bricks_created < u64::MAX,
            r is Err ==> *final(self) == *old(self) && *final(player) == *old(player) && *final(balance) == *old(balance),
            r is Ok ==> *final(self) == (GlobalConfig {
                total_bricks_created: (old(self).total_bricks_created + 1) as u64,
                ..*old(self)
            }) && *final(player) == (PlayerProfile {
                brick_count: (old(player).brick_count + 1) as u64,
                ..*old(player)
            }) && *final(balance) == *old(balance) - BLOCKS_PER_BRICK,
    {
        if *balance < BLOCKS_PER_BRICK {
            return Err(ErrorCode::InsufficientBlocks);
        }
        let total = match self.total_bricks_created.checked_add(1) {
            Some(t) => t,
            None => return Err(ErrorCode::Overflow),
        };
        if let Err(e) = player.record_conversion() {
            return Err(e);
        }
        self.total_bricks_created = total;
        *balance = *balance - BLOCKS_PER_BRICK;
        Ok(())
    }
}

/// Announces that block tokens were minted to a player for a collection.
#[derive(Clone, Copy, Debug, PartialEq, Eq)]
pub struct BlocksMinted {
    pub player: Address,
    pub amount: u64,
    pub waste_type: u8,
    pub timestamp: i64,
}

/// Announces that a player turned blocks into a brick.
#[derive(Clone, Copy, Debug, PartialEq, Eq)]
pub struct BrickConverted {
    pub player: Address,
    pub new_brick_count: u64,
    pub timestamp: i64,
}

} // verus!
