use vstd::prelude::*;
use vstd::slice::slice_to_vec;
use vstd::string::StringSliceAdditionalSpecFns;
use crate::address::{resolve, resolve_spec, resolved_view, Address};
use crate::error::ErrorCode;
use crate::material::{material_of, MaterialType};
use crate::text::{fill_fixed, read_fixed, stored_text, text_of, text_of_spec, TEXT_CAPACITY};

verus! {

/// A write-once proof that a player collected waste, bound to the attestation
/// that vouches for it. Nothing mutates a receipt once it exists.
#[derive(Clone, Copy, Debug, PartialEq, Eq)]
pub struct ProofOfCollectionReceipt {
    pub player: Address,
    pub bump: u8,
    pub attestation_id: [u8; 32],
    pub photo_hash: [u8; 32],
    pub zone_id_len: u8,
    pub zone_id: [u8; 32],
    pub material_type: u8,
    pub quantity: u64,
    pub timestamp: i64,
}

/// The first rule that a receipt's payload breaks, in the order they are
/// checked: quantity, timestamp, zone length, material.
pub open spec fn receipt_error(zone_id: Seq<u8>, material_type: u8, quantity: u64, timestamp: i64) -> Option<
    ErrorCode,
> {
    if quantity == 0 {
        Some(ErrorCode::InvalidAmount)
    } else if timestamp <= 0 {
        Some(ErrorCode::InvalidTimestamp)
    } else if zone_id.len() > TEXT_CAPACITY {
        Some(ErrorCode::ZoneIdTooLong)
    } else if material_of(material_type) is None {
        Some(ErrorCode::InvalidMaterialType)
    } else {
        None
    }
}

/// The seeds of a receipt's address: the tag, the player, the attestation.
pub open spec fn receipt_seeds(player: Seq<u8>, attestation_id: Seq<u8>) -> Seq<Seq<u8>> {
    seq![ProofOfCollectionReceipt::SEED_PREFIX@, player, attestation_id]
}

impl ProofOfCollectionReceipt {
    /// The seed tag of receipt addresses: the bytes of "poc".
    pub const SEED_PREFIX: [u8; 3] = [112, 111, 99];

    /// The longest zone identifier, in bytes.
    pub const ZONE_ID_MAX_LEN: usize = 32;

    /// The stored size of a receipt.
    pub const SIZE: usize = 8 + 32 + 1 + 32 + 32 + 1 + 32 + 1 + 8 + 8;

    /// The zone identifier's bytes as stored, without the padding.
    pub open spec fn zone_id_spec(&self) -> Seq<u8> {
        stored_text(self.zone_id, self.zone_id_len)
    }

    /// Whether the receipt holds exactly this payload.
    pub open spec fn holds(
        &self,
        player: Address,
        bump: u8,
        attestation_id: [u8; 32],
        photo_hash: [u8; 32],
        zone_id: Seq<u8>,
        material_type: u8,
        quantity: u64,
        timestamp: i64,
    ) -> bool {
        &&& self.player == player
        &&& self.bump == bump
        &&& self.attestation_id == attestation_id
        &&& self.photo_hash == photo_hash
        &&& self.zone_id_len as usize <= TEXT_CAPACITY
        &&& self.zone_id_spec() == zone_id
        &&& self.material_type == material_type
        &&& self.quantity == quantity
        &&& self.timestamp == timestamp
    }

    /// Fills in a receipt after validating its payload; a refusal leaves the
    /// receipt as it was.
    pub fn initialize(
        &mut self,
        player: Address,
        bump: u8,
        attestation_id: [u8; 32],
        photo_hash: [u8; 32],
        zone_id: &str,
        material_type: u8,
        quantity: u64,
        timestamp: i64,
    ) -> (r: Result<(), ErrorCode>)
        ensures
            match receipt_error(zone_id.spec_bytes(), material_type, quantity, timestamp) {
                Some(e) => r == Err::<(), ErrorCode>(e) && *final(self) == *old(self),
                None => r is Ok && final(self).holds(
                    player,
                    bump,
                    attestation_id,
                    photo_hash,
                    zone_id.spec_bytes(),
                    material_type,
                    quantity,
                    timestamp,
                ),
            },
    {
        if quantity == 0 {
            return Err(ErrorCode::InvalidAmount);
        }
        if timestamp <= 0 {
            return Err(ErrorCode::InvalidTimestamp);
        }
        let bytes = zone_id.as_bytes();
        if bytes.len() > Self::ZONE_ID_MAX_LEN {
            return Err(ErrorCode::ZoneIdTooLong);
        }
        if let Err(e) = MaterialType::try_from(material_type) {
            return Err(e);
        }
        self.player = player;
        self.bump = bump;
        self.attestation_id = attestation_id;
        self.photo_hash = photo_hash;
        self.zone_id_len = bytes.len() as u8;
        self.zone_id = fill_fixed(bytes);
        self.material_type = material_type;
        self.quantity = quantity;
        self.timestamp = timestamp;
        Ok(())
    }

    /// The seed list of a receipt's address.
    pub fn seeds(player: &Address, attestation_id: &[u8; 32]) -> (r: Vec<Vec<u8>>)
        ensures
            crate::address::seeds_view(r@) == receipt_seeds(player@, attestation_id@),
    {
        let prefix: [u8; 3] = Self::SEED_PREFIX;
        let r = vec![
            slice_to_vec(prefix.as_slice()),
            slice_to_vec(player.bytes.as_slice()),
            slice_to_vec(attestation_id.as_slice()),
        ];
        assert(crate::address::seeds_view(r@) =~= receipt_seeds(player@, attestation_id@));
        r
    }

    /// The address and bump of the receipt for a player and an attestation.
    pub fn derive_pda(program_id: &Address, player: &Address, attestation_id: &[u8; 32]) -> (r: Result<
        (Address, u8),
        ErrorCode,
    >)
        ensures
            resolved_view(r) == resolve_spec(receipt_seeds(player@, attestation_id@), program_id@),
    {
        resolve(&Self::seeds(player, attestation_id), program_id)
    }

    /// The zone identifier's bytes, without the padding.
    pub fn zone_id_bytes(&self) -> (r: Vec<u8>)
        requires
            self.zone_id_len as usize <= TEXT_CAPACITY,
        ensures
            r@ == self.zone_id_spec(),
    {
        read_fixed(&self.zone_id, self.zone_id_len)
    }

    /// The zone identifier as text; bytes that are not UTF-8 read as empty.
    pub fn zone_id(&self) -> (r: String)
        requires
            self.zone_id_len as usize <= TEXT_CAPACITY,
        ensures
            r@ == text_of_spec(self.zone_id_spec()),
    {
        text_of(self.zone_id_bytes())
    }
}

} // verus!
