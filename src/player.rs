use vstd::prelude::*;
use vstd::slice::slice_to_vec;
use crate::address::{seeds_view, Address};
use crate::error::ErrorCode;

verus! {

/// A player's ledger: credits earned, block tokens minted, bricks made and
/// collections recorded. Every counter only grows.
#[derive(Clone, Copy, Debug, PartialEq, Eq)]
pub struct PlayerProfile {
    pub authority: Address,
    pub bump: u8,
    pub total_credits: u64,
    pub blocks_minted: u64,
    pub brick_count: u64,
    pub collections_count: u64,
}

/// Whether every counter of `b` is at least that of `a`.
pub open spec fn counters_grew(a: PlayerProfile, b: PlayerProfile) -> bool {
    &&& a.total_credits <= b.total_credits
    &&& a.blocks_minted <= b.blocks_minted
    &&& a.brick_count <= b.brick_count
    &&& a.collections_count <= b.collections_count
}

/// The seeds of a player's address: the tag and the player's own identity.
pub open spec fn player_seeds(authority: Seq<u8>) -> Seq<Seq<u8>> {
    seq![PlayerProfile::SEED_PREFIX@, authority]
}

impl PlayerProfile {
    /// The seed tag of player addresses: the bytes of "player".
    pub const SEED_PREFIX: [u8; 6] = [112, 108, 97, 121, 101, 114];

    /// The stored size of a profile: discriminator, authority, bump, four counters.
    pub const SIZE: usize = 8 + 32 + 1 + 8 + 8 + 8 + 8;

    /// The seed list of a player's address.
    pub fn seeds(authority: &Address) -> (r: Vec<Vec<u8>>)
        ensures
            seeds_view(r@) == player_seeds(authority@),
    {
        let prefix: [u8; 6] = Self::SEED_PREFIX;
        let r = vec![slice_to_vec(prefix.as_slice()), slice_to_vec(authority.bytes.as_slice())];
        assert(seeds_view(r@) =~= player_seeds(authority@));
        r
    }

    /// A fresh profile: the owner and bump set, every counter zero.
    pub open spec fn fresh(authority: Address, bump: u8) -> PlayerProfile {
        PlayerProfile {
            authority,
            bump,
            total_credits: 0,
            blocks_minted: 0,
            brick_count: 0,
            collections_count: 0,
        }
    }

    pub fn new(authority: Address, bump: u8) -> (r: PlayerProfile)
        ensures
            r == Self::fresh(authority, bump),
    {
        PlayerProfile {
            authority,
            bump,
            total_credits: 0,
            blocks_minted: 0,
            brick_count: 0,
            collections_count: 0,
        }
    }

    /// Sets the owner and bump and zeroes every counter.
    pub fn initialize(&mut self, authority: Address, bump: u8) -> (r: Result<(), ErrorCode>)
        ensures
            r is Ok,
            *final(self) == Self::fresh(authority, bump),
    {
        *self = Self::new(authority, bump);
        Ok(())
    }

    /// Adds credits. A zero amount is refused, and so is a sum past `u64::MAX`;
    /// a refusal leaves the profile as it was.
    pub fn add_credits(&mut self, amount: u64) -> (r: Result<(), ErrorCode>)
        ensures
            amount == 0 ==> r == Err::<(), ErrorCode>(ErrorCode::InvalidAmount),
            amount > 0 && old(self).total_credits + amount > u64::MAX ==> r == Err::<(), ErrorCode>(
                ErrorCode::Overflow,
            ),
            r is Err ==> *final(self) == *old(self),
            r is Ok <==> amount > 0 && old(self).total_credits + amount <= u64::MAX,
            r is Ok ==> *final(self) == (PlayerProfile {
                total_credits: (old(self).total_credits + amount) as u64,
                ..*old(self)
            }),
    {
        if amount == 0 {
            return Err(ErrorCode::InvalidAmount);
        }
        match self.total_credits.checked_add(amount) {
            Some(t) => {
                self.total_credits = t;
                Ok(())
            },
            None => Err(ErrorCode::Overflow),
        }
    }

    /// Records a mint of `amount` tokens as one more collection. Either counter
    /// passing `u64::MAX` refuses the whole update.
    pub fn record_mint(&mut self, amount: u64) -> (r: Result<(), ErrorCode>)
        ensures
            r is Ok <==> old(self).blocks_minted + amount <= u64::MAX
                && old(self).collections_count + 1 <= u64::MAX,
            r is Err ==> r == Err::<(), ErrorCode>(ErrorCode::Overflow) && *final(self) == *old(self),
            r is Ok ==> *final(self) == (PlayerProfile {
                blocks_minted: (old(self).blocks_minted + amount) as u64,
                collections_count: (old(self).collections_count + 1) as u64,
                ..*old(self)
            }),
    {
        let blocks = match self.blocks_minted.checked_add(amount) {
            Some(b) => b,
            None => return Err(ErrorCode::Overflow),
        };
        let collections = match self.collections_count.checked_add(1) {
            Some(c) => c,
            None => return Err(ErrorCode::Overflow),
        };
        self.blocks_minted = blocks;
        self.collections_count = collections;
        Ok(())
    }

    /// Records one brick made. A count at `u64::MAX` refuses it.
    pub fn record_conversion(&mut self) -> (r: Result<(), ErrorCode>)
        ensures
            r is Ok <==> old(self).brick_count < u64::MAX,
            r is Err ==> r == Err::<(), ErrorCode>(ErrorCode::Overflow) && *final(self) == *old(self),
            r is Ok ==> *final(self) == (PlayerProfile {
                brick_count: (old(self).brick_count + 1) as u64,
                ..*old(self)
            }),
    {
        match self.brick_count.checked_add(1) {
            Some(b) => {
                self.brick_count = b;
                Ok(())
            },
            None => Err(ErrorCode::Overflow),
        }
    }
}

} // verus!
