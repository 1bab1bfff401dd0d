use vstd::prelude::*;
use vstd::string::StringSliceAdditionalSpecFns;
use crate::address::{resolve, resolve_spec, Address};
use crate::config::{config_seeds, BlocksMinted, BrickConverted, GlobalConfig, BLOCKS_PER_BRICK};
use crate::error::ErrorCode;
use crate::material::material_of;
use crate::player::{player_seeds, PlayerProfile};
use crate::pool::{pool_seeds, ProjectPool};
use crate::receipt::{receipt_error, receipt_seeds, ProofOfCollectionReceipt};
use crate::store::RecordStore;

verus! {

/// Every record of the ledger, keyed by derived address, and the one
/// configuration if it has been set up.
pub struct Ledger {
    pub program_id: Address,
    pub config: Option<GlobalConfig>,
    pub players: RecordStore<PlayerProfile>,
    pub pools: RecordStore<ProjectPool>,
    pub receipts: RecordStore<ProofOfCollectionReceipt>,
}

/// The ledger as a value: the program id, the configuration, and one map per
/// kind of record from address bytes to record.
pub struct LedgerView {
    pub program_id: Seq<u8>,
    pub config: Option<GlobalConfig>,
    pub players: Map<Seq<u8>, PlayerProfile>,
    pub pools: Map<Seq<u8>, ProjectPool>,
    pub receipts: Map<Seq<u8>, ProofOfCollectionReceipt>,
}

impl View for Ledger {
    type V = LedgerView;

    open spec fn view(&self) -> LedgerView {
        LedgerView {
            program_id: self.program_id@,
            config: self.config,
            players: self.players@,
            pools: self.pools@,
            receipts: self.receipts@,
        }
    }
}

/// Whether a pool was created with exactly these values and has received nothing.
pub open spec fn pool_created(p: ProjectPool, authority: Address, bump: u8, seed: u64, goal: u64, name: Seq<u8>) -> bool {
    &&& p.wf()
    &&& p.authority == authority
    &&& p.bump == bump
    &&& p.seed == seed
    &&& p.goal_credits == goal
    &&& p.received_credits == 0
    &&& p.name_bytes_spec() == name
}

/// The outcome of initializing a player.
pub open spec fn initialize_player_spec(s: LedgerView, authority: Address) -> Result<LedgerView, ErrorCode> {
    match resolve_spec(player_seeds(authority@), s.program_id) {
        Err(e) => Err(e),
        Ok((k, bump)) => if s.players.contains_key(k) {
            Err(ErrorCode::AlreadyExists)
        } else {
            Ok(LedgerView { players: s.players.insert(k, PlayerProfile::fresh(authority, bump)), ..s })
        },
    }
}

/// The address and bump at which a pool is created, or why it is not.
pub open spec fn create_pool_spec(s: LedgerView, authority: Address, seed: u64, name: Seq<u8>, goal: u64) -> Result<
    (Seq<u8>, u8),
    ErrorCode,
> {
    if goal == 0 {
        Err(ErrorCode::InvalidAmount)
    } else if name.len() > ProjectPool::NAME_MAX_LEN {
        Err(ErrorCode::NameTooLong)
    } else {
        match resolve_spec(pool_seeds(authority@, seed), s.program_id) {
            Err(e) => Err(e),
            Ok((k, bump)) => if s.pools.contains_key(k) {
                Err(ErrorCode::AlreadyExists)
            } else {
                Ok((k, bump))
            },
        }
    }
}

/// The outcome of a contribution from a player to a pool.
pub open spec fn contribute_spec(s: LedgerView, authority: Address, pool: Seq<u8>, amount: u64) -> Result<
    LedgerView,
    ErrorCode,
> {
    match resolve_spec(player_seeds(authority@), s.program_id) {
        Err(e) => Err(e),
        Ok((k, _)) => if !s.players.contains_key(k) || !s.pools.contains_key(pool) {
            Err(ErrorCode::AccountNotFound)
        } else if amount == 0 {
            Err(ErrorCode::InvalidAmount)
        } else if s.players[k].total_credits + amount > u64::MAX
            || s.pools[pool].received_credits + amount > u64::MAX {
            Err(ErrorCode::Overflow)
        } else {
            Ok(
                LedgerView {
                    players: s.players.insert(
                        k,
                        PlayerProfile {
                            total_credits: (s.players[k].total_credits + amount) as u64,
                            ..s.players[k]
                        },
                    ),
                    pools: s.pools.insert(
                        pool,
                        ProjectPool {
                            received_credits: (s.pools[pool].received_credits + amount) as u64,
                            ..s.pools[pool]
                        },
                    ),
                    ..s
                },
            )
        },
    }
}

/// The player that a receipt binds to, the receipt's address and its bump,
/// or why no receipt is created.
pub open spec fn receipt_spec(
    s: LedgerView,
    authority: Address,
    attestation_id: [u8; 32],
    zone_id: Seq<u8>,
    material_type: u8,
    quantity: u64,
    timestamp: i64,
) -> Result<(Address, Seq<u8>, u8), ErrorCode> {
    match receipt_error(zone_id, material_type, quantity, timestamp) {
        Some(e) => Err(e),
        None => match resolve_spec(player_seeds(authority@), s.program_id) {
            Err(e) => Err(e),
            Ok((pk, _)) => if !s.players.contains_key(pk) {
                Err(ErrorCode::AccountNotFound)
            } else {
                let player = s.players[pk].authority;
                match resolve_spec(receipt_seeds(player@, attestation_id@), s.program_id) {
                    Err(e) => Err(e),
                    Ok((rk, bump)) => if s.receipts.contains_key(rk) {
                        Err(ErrorCode::AlreadyExists)
                    } else {
                        Ok((player, rk, bump))
                    },
                }
            },
        },
    }
}

/// The outcome of setting up the configuration.
pub open spec fn initialize_config_spec(s: LedgerView, authority: Address, block_mint: Address) -> Result<
    LedgerView,
    ErrorCode,
> {
    if s.config is Some {
        Err(ErrorCode::AlreadyExists)
    } else {
        match resolve_spec(config_seeds(), s.program_id) {
            Err(e) => Err(e),
            Ok((_, bump)) => Ok(
                LedgerView {
                    config: Some(
                        GlobalConfig {
                            authority,
                            block_mint,
                            total_blocks_minted: 0,
                            total_bricks_created: 0,
                            bump,
                        },
                    ),
                    ..s
                },
            ),
        }
    }
}

/// The outcome of minting blocks to a player: the player's profile is loaded,
/// or created fresh where there is none, and then updated with the totals.
pub open spec fn mint_blocks_spec(
    s: LedgerView,
    authority: Address,
    player_authority: Address,
    amount: u64,
    waste_type: u8,
    timestamp: i64,
) -> Result<(LedgerView, BlocksMinted), ErrorCode> {
    match s.config {
        None => Err(ErrorCode::AccountNotFound),
        Some(c) => if c.authority@ != authority@ {
            Err(ErrorCode::Unauthorized)
        } else if amount == 0 {
            Err(ErrorCode::InvalidAmount)
        } else if material_of(waste_type) is None {
            Err(ErrorCode::InvalidMaterialType)
        } else {
            match resolve_spec(player_seeds(player_authority@), s.program_id) {
                Err(e) => Err(e),
                Ok((k, bump)) => {
                    let p = if s.players.contains_key(k) {
                        s.players[k]
                    } else {
                        PlayerProfile::fresh(player_authority, bump)
                    };
                    if p.blocks_minted + amount > u64::MAX || p.collections_count + 1 > u64::MAX
                        || c.total_blocks_minted + amount > u64::MAX {
                        Err(ErrorCode::Overflow)
                    } else {
                        let q = PlayerProfile {
                            blocks_minted: (p.blocks_minted + amount) as u64,
                            collections_count: (p.collections_count + 1) as u64,
                            ..p
                        };
                        let d = GlobalConfig {
                            total_blocks_minted: (c.total_blocks_minted + amount) as u64,
                            ..c
                        };
                        Ok(
                            (
                                LedgerView { config: Some(d), players: s.players.insert(k, q), ..s },
                                BlocksMinted { player: q.authority, amount, waste_type, timestamp },
                            ),
                        )
                    }
                },
            }
        },
    }
}

/// The outcome of turning blocks into a brick, given the player's balance.
pub open spec fn convert_spec(s: LedgerView, authority: Address, balance: u64, timestamp: i64) -> Result<
    (LedgerView, BrickConverted),
    ErrorCode,
> {
    match s.config {
        None => Err(ErrorCode::AccountNotFound),
        Some(c) => match resolve_spec(player_seeds(authority@), s.program_id) {
            Err(e) => Err(e),
            Ok((k, _)) => if !s.players.contains_key(k) {
                Err(ErrorCode::AccountNotFound)
            } else if balance < BLOCKS_PER_BRICK {
                Err(ErrorCode::InsufficientBlocks)
            } else if s.players[k].brick_count + 1 > u64::MAX || c.total_bricks_created + 1 > u64::MAX {
                Err(ErrorCode::Overflow)
            } else {
                let q = PlayerProfile { brick_count: (s.players[k].brick_count + 1) as u64, ..s.players[k] };
                let d = GlobalConfig { total_bricks_created: (c.total_bricks_created + 1) as u64, ..c };
                Ok(
                    (
                        LedgerView { config: Some(d), players: s.players.insert(k, q), ..s },
                        BrickConverted { player: q.authority, new_brick_count: q.brick_count, timestamp },
                    ),
                )
            },
        },
    }
}

impl Ledger {
    /// The stores are consistent and every pool has a positive goal and a
    /// name that fits.
    pub open spec fn wf(&self) -> bool {
        &&& self.players.wf()
        &&& self.pools.wf()
        &&& self.receipts.wf()
        &&& forall|k: Seq<u8>| #[trigger] self.pools@.contains_key(k) ==> self.pools@[k].wf()
    }

    /// An empty ledger for a program.
    pub fn new(program_id: Address) -> (r: Ledger)
        ensures
            r.wf(),
            r@.program_id == program_id@,
            r@.config is None,
            r@.players == Map::<Seq<u8>, PlayerProfile>::empty(),
            r@.pools == Map::<Seq<u8>, ProjectPool>::empty(),
            r@.receipts == Map::<Seq<u8>, ProofOfCollectionReceipt>::empty(),
    {
        Ledger {
            program_id,
            config: None,
            players: RecordStore::new(),
            pools: RecordStore::new(),
            receipts: RecordStore::new(),
        }
    }
    /// Creates the profile of the calling player, with every counter zero. A
    /// player has one profile: a second creation is refused.
    pub fn initialize_player(&mut self, authority: &Address) -> (r: Result<(), ErrorCode>)
        requires
            old(self).wf(),
        ensures
            final(self).wf(),
            match initialize_player_spec(old(self)@, *authority) {
                Ok(v) => r is Ok && final(self)@ == v,
                Err(e) => r == Err::<(), ErrorCode>(e) && final(self)@ == old(self)@,
            },
    {
        let (key, bump) = match resolve(&PlayerProfile::seeds(authority), &self.program_id) {
            Ok(p) => p,
            Err(e) => return Err(e),
        };
        let mut profile = PlayerProfile::new(Address::zero(), 0);
        let _ = profile.initialize(*authority, bump);
        self.players.create(key, profile)
    }

    /// Creates a funding pool of the caller under a seed number, with a goal
    /// and a name. The goal and name are checked before the address is taken.
    pub fn create_project_pool(&mut self, authority: &Address, project_seed: u64, name: &str, goal_credits: u64) -> (r:
        Result<(), ErrorCode>)
        requires
            old(self).wf(),
        ensures
            final(self).wf(),
            match create_pool_spec(old(self)@, *authority, project_seed, name.spec_bytes(), goal_credits) {
                Ok((k, bump)) => {
                    &&& r is Ok
                    &&& final(self)@ == (LedgerView { pools: old(self)@.pools.insert(k, final(self)@.pools[k]), ..old(self)@ })
                    &&& pool_created(final(self)@.pools[k], *authority, bump, project_seed, goal_credits, name.spec_bytes())
                },
                Err(e) => r == Err::<(), ErrorCode>(e) && final(self)@ == old(self)@,
            },
    {
        let mut pool = ProjectPool {
            authority: Address::zero(),
            bump: 0,
            seed: 0,
            goal_credits: 0,
            received_credits: 0,
            name_len: 0,
            name: [0u8; 32],
        };
        if let Err(e) = pool.initialize(*authority, 0, project_seed, goal_credits, name) {
            return Err(e);
        }
        let (key, bump) = match resolve(&ProjectPool::seeds(authority, project_seed), &self.program_id) {
            Ok(p) => p,
            Err(e) => return Err(e),
        };
        if self.pools.contains(&key) {
            return Err(ErrorCode::AlreadyExists);
        }
        pool.bump = bump;
        let ghost before = self.pools@;
        let _ = self.pools.create(key, pool);
        assert forall|k: Seq<u8>| #[trigger] self.pools@.contains_key(k) implies self.pools@[k].wf() by {
            if k != key@ {
                assert(before.contains_key(k));
            }
        }
        Ok(())
    }

    /// Moves `amount` credits of the calling player into a pool: both the
    /// player's total and the pool's received total grow by `amount`, or
    /// neither changes. A pool may receive more than its goal.
    pub fn contribute_credits(&mut self, authority: &Address, pool: &Address, amount: u64) -> (r: Result<(), ErrorCode>)
        requires
            old(self).wf(),
        ensures
            final(self).wf(),
            match contribute_spec(old(self)@, *authority, pool@, amount) {
                Ok(v) => r is Ok && final(self)@ == v,
                Err(e) => r == Err::<(), ErrorCode>(e) && final(self)@ == old(self)@,
            },
    {
        let (key, _bump) = match resolve(&PlayerProfile::seeds(authority), &self.program_id) {
            Ok(p) => p,
            Err(e) => return Err(e),
        };
        let mut player = match self.players.get(&key) {
            Some(p) => p,
            None => return Err(ErrorCode::AccountNotFound),
        };
        let mut project = match self.pools.get(pool) {
            Some(p) => p,
            None => return Err(ErrorCode::AccountNotFound),
        };
        if let Err(e) = project.contribute(&mut player, amount) {
            return Err(e);
        }
        let ghost before = self.pools@;
        self.players.update(&key, player);
        self.pools.update(pool, project);
        assert forall|k: Seq<u8>| #[trigger] self.pools@.contains_key(k) implies self.pools@[k].wf() by {
            assert(before.contains_key(k));
        }
        Ok(())
    }

    /// Records a proof of collection for the calling player. The payload is
    /// validated first; the receipt's address then comes from the player and
    /// the attestation, and an attestation already used by the player is
    /// refused whatever the rest of the payload says.
    pub fn mint_poc_receipt(
        &mut self,
        authority: &Address,
        attestation_id: [u8; 32],
        photo_hash: [u8; 32],
        zone_id: &str,
        material_type: u8,
        quantity: u64,
        timestamp: i64,
    ) -> (r: Result<(), ErrorCode>)
        requires
            old(self).wf(),
        ensures
            final(self).wf(),
            match receipt_spec(old(self)@, *authority, attestation_id, zone_id.spec_bytes(), material_type, quantity, timestamp) {
                Ok((player, k, bump)) => {
                    &&& r is Ok
                    &&& final(self)@ == (LedgerView {
                        receipts: old(self)@.receipts.insert(k, final(self)@.receipts[k]),
                        ..old(self)@
                    })
                    &&& final(self)@.receipts[k].holds(
                        player,
                        bump,
                        attestation_id,
                        photo_hash,
                        zone_id.spec_bytes(),
                        material_type,
                        quantity,
                        timestamp,
                    )
                },
                Err(e) => r == Err::<(), ErrorCode>(e) && final(self)@ == old(self)@,
            },
    {
        let mut receipt = ProofOfCollectionReceipt {
            player: Address::zero(),
            bump: 0,
            attestation_id: [0u8; 32],
            photo_hash: [0u8; 32],
            zone_id_len: 0,
            zone_id: [0u8; 32],
            material_type: 0,
            quantity: 0,
            timestamp: 0,
        };
        if let Err(e) = receipt.initialize(
            Address::zero(),
            0,
            attestation_id,
            photo_hash,
            zone_id,
            material_type,
            quantity,
            timestamp,
        ) {
            return Err(e);
        }
        let (pkey, _pbump) = match resolve(&PlayerProfile::seeds(authority), &self.program_id) {
            Ok(p) => p,
            Err(e) => return Err(e),
        };
        let player = match self.players.get(&pkey) {
            Some(p) => p.authority,
            None => return Err(ErrorCode::AccountNotFound),
        };
        let (key, bump) = match ProofOfCollectionReceipt::derive_pda(&self.program_id, &player, &attestation_id) {
            Ok(p) => p,
            Err(e) => return Err(e),
        };
        receipt.player = player;
        receipt.bump = bump;
        self.receipts.create(key, receipt)
    }

    /// Sets up the one configuration: the minting authority and the token it
    /// mints, with both totals zero. A second set-up is refused.
    pub fn initialize_config(&mut self, authority: &Address, block_mint: &Address) -> (r: Result<(), ErrorCode>)
        requires
            old(self).wf(),
        ensures
            final(self).wf(),
            match initialize_config_spec(old(self)@, *authority, *block_mint) {
                Ok(v) => r is Ok && final(self)@ == v,
                Err(e) => r == Err::<(), ErrorCode>(e) && final(self)@ == old(self)@,
            },
    {
        if self.config.is_some() {
            return Err(ErrorCode::AlreadyExists);
        }
        let (_key, bump) = match resolve(&GlobalConfig::seeds(), &self.program_id) {
            Ok(p) => p,
            Err(e) => return Err(e),
        };
        self.config = Some(
            GlobalConfig {
                authority: *authority,
                block_mint: *block_mint,
                total_blocks_minted: 0,
                total_bricks_created: 0,
                bump,
            },
        );
        Ok(())
    }

    /// Mints `amount` block tokens' worth of credit to a player for one
    /// collection of `waste_type`. Only the configured authority may mint. A
    /// player without a profile gets a fresh one in the same step. Nothing
    /// changes unless every check passes; the caller then mints `amount` tokens
    /// to the player's token account and publishes the returned notice.
    pub fn mint_blocks(
        &mut self,
        authority: &Address,
        player_authority: &Address,
        amount: u64,
        waste_type: u8,
        timestamp: i64,
    ) -> (r: Result<BlocksMinted, ErrorCode>)
        requires
            old(self).wf(),
        ensures
            final(self).wf(),
            match mint_blocks_spec(old(self)@, *authority, *player_authority, amount, waste_type, timestamp) {
                Ok((v, ev)) => r == Ok::<BlocksMinted, ErrorCode>(ev) && final(self)@ == v,
                Err(e) => r == Err::<BlocksMinted, ErrorCode>(e) && final(self)@ == old(self)@,
            },
    {
        let mut config = match self.config {
            Some(c) => c,
            None => return Err(ErrorCode::AccountNotFound),
        };
        if let Err(e) = config.check_mint(authority, amount, waste_type) {
            return Err(e);
        }
        let (key, bump) = match resolve(&PlayerProfile::seeds(player_authority), &self.program_id) {
            Ok(p) => p,
            Err(e) => return Err(e),
        };
        let existing = self.players.get(&key);
        let mut player = match existing {
            Some(p) => p,
            None => PlayerProfile::new(*player_authority, bump),
        };
        if let Err(e) = config.record_mint(&mut player, amount) {
            return Err(e);
        }
        match existing {
            Some(_) => self.players.update(&key, player),
            None => {
                let _ = self.players.create(key, player);
            },
        }
        self.config = Some(config);
        Ok(BlocksMinted { player: player.authority, amount, waste_type, timestamp })
    }

    /// Turns `BLOCKS_PER_BRICK` tokens of the caller into one brick. The caller
    /// needs a profile and a balance of at least the exchange rate; on success
    /// the rate is taken from `player_token_balance`, which the caller then
    /// burns from the token account, and the returned notice is published.
    pub fn convert_to_brick(&mut self, authority: &Address, player_token_balance: &mut u64, timestamp: i64) -> (r:
        Result<BrickConverted, ErrorCode>)
        requires
            old(self).wf(),
        ensures
            final(self).wf(),
            match convert_spec(old(self)@, *authority, *old(player_token_balance), timestamp) {
                Ok((v, ev)) => {
                    &&& r == Ok::<BrickConverted, ErrorCode>(ev)
                    &&& final(self)@ == v
                    &&& *final(player_token_balance) == *old(player_token_balance) - BLOCKS_PER_BRICK
                },
                Err(e) => {
                    &&& r == Err::<BrickConverted, ErrorCode>(e)
                    &&& final(self)@ == old(self)@
                    &&& *final(player_token_balance) == *old(player_token_balance)
                },
            },
    {
        let mut config = match self.config {
            Some(c) => c,
            None => return Err(ErrorCode::AccountNotFound),
        };
        let (key, _bump) = match resolve(&PlayerProfile::seeds(authority), &self.program_id) {
            Ok(p) => p,
            Err(e) => return Err(e),
        };
        let mut player = match self.players.get(&key) {
            Some(p) => p,
            None => return Err(ErrorCode::AccountNotFound),
        };
        if let Err(e) = config.record_conversion(&mut player, player_token_balance) {
            return Err(e);
        }
        self.players.update(&key, player);
        self.config = Some(config);
        Ok(BrickConverted { player: player.authority, new_brick_count: player.brick_count, timestamp })
    }
}

} // verus!
