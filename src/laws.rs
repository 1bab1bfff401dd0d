use vstd::prelude::*;
use vstd::string::StringSliceAdditionalSpecFns;
use crate::address::Address;
use crate::error::ErrorCode;
use crate::ledger::{receipt_spec, LedgerView};
use crate::pool::ProjectPool;
use crate::receipt::{receipt_error, ProofOfCollectionReceipt};
use crate::text::{lemma_text_round_trip, text_of_spec};

verus! {

/// A receipt for one player and one attestation is created at most once. Once
/// a creation has succeeded and stored its receipt, a second creation for the
/// same player and attestation fails whatever its payload, and with a valid
/// payload it fails as already existing.
pub proof fn lemma_receipt_created_once(
    s: LedgerView,
    authority: Address,
    attestation_id: [u8; 32],
    zone_id: Seq<u8>,
    material_type: u8,
    quantity: u64,
    timestamp: i64,
    stored: ProofOfCollectionReceipt,
    zone_id2: Seq<u8>,
    material_type2: u8,
    quantity2: u64,
    timestamp2: i64,
)
    requires
        receipt_spec(s, authority, attestation_id, zone_id, material_type, quantity, timestamp) is Ok,
    ensures
        ({
            let k = receipt_spec(s, authority, attestation_id, zone_id, material_type, quantity, timestamp)->Ok_0.1;
            let after = LedgerView { receipts: s.receipts.insert(k, stored), ..s };
            &&& receipt_spec(after, authority, attestation_id, zone_id2, material_type2, quantity2, timestamp2) is Err
            &&& receipt_error(zone_id2, material_type2, quantity2, timestamp2) is None ==> receipt_spec(
                after,
                authority,
                attestation_id,
                zone_id2,
                material_type2,
                quantity2,
                timestamp2,
            ) == Err::<(Address, Seq<u8>, u8), ErrorCode>(ErrorCode::AlreadyExists)
        }),
{
}

/// A pool whose stored name is the bytes of a string reads that string back.
pub proof fn lemma_pool_name_round_trip(pool: ProjectPool, name: &str)
    requires
        pool.name_bytes_spec() == name.spec_bytes(),
    ensures
        text_of_spec(pool.name_bytes_spec()) == name@,
{
    lemma_text_round_trip(name@);
}

} // verus!
