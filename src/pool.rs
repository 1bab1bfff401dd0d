use vstd::prelude::*;
use vstd::string::StringSliceAdditionalSpecFns;
use vstd::slice::slice_to_vec;
use crate::address::{le_bytes, le_bytes_spec, seeds_view, Address};
use crate::error::ErrorCode;
use crate::player::PlayerProfile;
use crate::text::{fill_fixed, read_fixed, stored_text, text_of, text_of_spec, TEXT_CAPACITY};

verus! {

/// A shared funding pool: a goal and the credits received toward it. The goal
/// is a target, not a cap: a pool may receive more than its goal.
#[derive(Clone, Copy, Debug, PartialEq, Eq)]
pub struct ProjectPool {
    pub authority: Address,
    pub bump: u8,
    pub seed: u64,
    pub goal_credits: u64,
    pub received_credits: u64,
    pub name_len: u8,
    pub name: [u8; 32],
}

/// The seeds of a pool's address: the tag, the creator, and the creator's
/// seed number in little-endian bytes.
pub open spec fn pool_seeds(authority: Seq<u8>, seed: u64) -> Seq<Seq<u8>> {
    seq![ProjectPool::SEED_PREFIX@, authority, le_bytes_spec(seed)]
}

impl ProjectPool {
    /// The seed tag of pool addresses: the bytes of "project".
    pub const SEED_PREFIX: [u8; 7] = [112, 114, 111, 106, 101, 99, 116];

    /// The longest pool name, in bytes.
    pub const NAME_MAX_LEN: usize = 32;

    /// The stored size of a pool: discriminator, authority, bump, seed, goal,
    /// received, name length and name bytes.
    pub const SIZE: usize = 8 + 32 + 1 + 8 + 8 + 8 + 1 + 32;

    /// The seed list of a pool's address.
    pub fn seeds(authority: &Address, seed: u64) -> (r: Vec<Vec<u8>>)
        ensures
            seeds_view(r@) == pool_seeds(authority@, seed),
    {
        let prefix: [u8; 7] = Self::SEED_PREFIX;
        let r = vec![slice_to_vec(prefix.as_slice()), slice_to_vec(authority.bytes.as_slice()), le_bytes(seed)];
        assert(seeds_view(r@) =~= pool_seeds(authority@, seed));
        r
    }

    /// A pool as created: a positive goal and a name that fits its buffer.
    pub open spec fn wf(&self) -> bool {
        &&& self.goal_credits > 0
        &&& self.name_len as usize <= TEXT_CAPACITY
    }

    /// The name's bytes as stored, without the padding.
    pub open spec fn name_bytes_spec(&self) -> Seq<u8> {
        stored_text(self.name, self.name_len)
    }

    /// Sets up a pool. A zero goal is refused first, then a name longer than
    /// `NAME_MAX_LEN` bytes; a refusal leaves the pool as it was.
    pub fn initialize(&mut self, authority: Address, bump: u8, seed: u64, goal: u64, name: &str) -> (r:
        Result<(), ErrorCode>)
        ensures
            goal == 0 ==> r == Err::<(), ErrorCode>(ErrorCode::InvalidAmount),
            goal > 0 && name.spec_bytes().len() > 32 ==> r == Err::<(), ErrorCode>(
                ErrorCode::NameTooLong,
            ),
            r is Ok <==> goal > 0 && name.spec_bytes().len() <= 32,
            r is Err ==> *final(self) == *old(self),
            r is Ok ==> {
                &&& final(self).wf()
                &&& final(self).authority == authority
                &&& final(self).bump == bump
                &&& final(self).seed == seed
                &&& final(self).goal_credits == goal
                &&& final(self).received_credits == 0
                &&& final(self).name_bytes_spec() == name.spec_bytes()
                &&& forall|i: int| name.spec_bytes().len() <= i < 32 ==> final(self).name@[i] == 0
            },
    {
        if goal == 0 {
            return Err(ErrorCode::InvalidAmount);
        }
        let bytes = name.as_bytes();
        if bytes.len() > Self::NAME_MAX_LEN {
            return Err(ErrorCode::NameTooLong);
        }
        self.authority = authority;
        self.bump = bump;
        self.seed = seed;
        self.goal_credits = goal;
        self.received_credits = 0;
        self.name_len = bytes.len() as u8;
        self.name = fill_fixed(bytes);
        Ok(())
    }

    /// Adds a contribution. A zero amount is refused, and so is a total past
    /// `u64::MAX`; a refusal leaves the pool as it was.
    pub fn record_contribution(&mut self, amount: u64) -> (r: Result<(), ErrorCode>)
        ensures
            amount == 0 ==> r == Err::<(), ErrorCode>(ErrorCode::InvalidAmount),
            amount > 0 && old(self).received_credits + amount > u64::MAX ==> r == Err::<
                (),
                ErrorCode,
            >(ErrorCode::Overflow),
            r is Ok <==> amount > 0 && old(self).received_credits + amount <= u64::MAX,
            r is Err ==> *final(self) == *old(self),
            r is Ok ==> *final(self) == (ProjectPool {
                received_credits: (old(self).received_credits + amount) as u64,
                ..*old(self)
            }),
    {
        if amount == 0 {
            return Err(ErrorCode::InvalidAmount);
        }
        match self.received_credits.checked_add(amount) {
            Some(t) => {
                self.received_credits = t;
                Ok(())
            },
            None => Err(ErrorCode::Overflow),
        }
    }

    /// Takes a contribution of `amount` credits from `player`: the player's
    /// total and the pool's received total both grow by `amount`, or neither
    /// changes.
    pub fn contribute(&mut self, player: &mut PlayerProfile, amount: u64) -> (r: Result<(), ErrorCode>)
        ensures
            amount == 0 ==> r == Err::<(), ErrorCode>(ErrorCode::InvalidAmount),
            amount > 0 && (old(player).total_credits + amount > u64::MAX || old(self).received_credits + amount
                > u64::MAX) ==> r == Err::<(), ErrorCode>(ErrorCode::Overflow),
            r is Ok <==> amount > 0 && old(player).total_credits + amount <= u64::MAX
                && old(self).received_credits + amount <= u64::MAX,
            r is Err ==> *final(self) == *old(self) && *final(player) == *old(player),
            r is Ok ==> *final(player) == (PlayerProfile {
                total_credits: (old(player).total_credits + amount) as u64,
                ..*old(player)
            }) && *final(self) == (ProjectPool {
                received_credits: (old(self).received_credits + amount) as u64,
                ..*old(self)
            }),
    {
        if amount == 0 {
            return Err(ErrorCode::InvalidAmount);
        }
        if self.received_credits.checked_add(amount).is_none() {
            return Err(ErrorCode::Overflow);
        }
        if let Err(e) = player.add_credits(amount) {
            return Err(e);
        }
        self.record_contribution(amount)
    }

    /// The name's bytes, without the padding.
    pub fn name_bytes(&self) -> (r: Vec<u8>)
        requires
            self.name_len as usize <= TEXT_CAPACITY,
        ensures
            r@ == self.name_bytes_spec(),
    {
        read_fixed(&self.name, self.name_len)
    }

    /// The name as text; bytes that are not UTF-8 read as the empty name.
    pub fn name(&self) -> (r: String)
        requires
            self.name_len as usize <= TEXT_CAPACITY,
        ensures
            r@ == text_of_spec(self.name_bytes_spec()),
    {
        text_of(self.name_bytes())
    }
}

} // verus!
