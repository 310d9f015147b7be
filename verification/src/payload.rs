//! Assembly and serialization of the unlock call: the five-instruction
//! cross-chain program, the privileged envelope around it, and the hex text
//! of the final payload.

use vstd::prelude::*;
use crate::account::AccountId;
use crate::scale::{compact_spec, push_compact_u128, push_u32_le, u32_le_spec};
use crate::xcm::{
    spec_encode_asset, spec_encode_asset_seq,
    here_location, parent_location, push_versioned_location_v4, push_versioned_xcm_v4,
    spec_encode_instruction, spec_encode_instruction_seq, spec_encode_location,
    spec_encode_versioned_location_v4, Asset,
    AssetFilter, Instruction, Junction, Junctions, Location, OriginKind, Weight, WeightLimit,
};

verus! {

/// The fee amount withdrawn and offered for execution. A fixed placeholder,
/// not a live estimate; callers may pass another amount.
pub const DEFAULT_FEE: u128 = 1000000000;

/// The weight ceiling declared for the transacted unlock call.
pub const TRANSACT_REF_TIME: u64 = 1000000000;

/// The proof-size ceiling declared for the transacted unlock call.
pub const TRANSACT_PROOF_SIZE: u64 = 100000;

/// Where the two relay-chain call indices live in the relay chain's schema
/// snapshot: the registrar pallet and its remove-lock call.
pub struct RelaySchema {
    pub registrar_pallet: u8,
    pub remove_lock_call: u8,
}

/// Where the parachain call indices live in the parachain's schema snapshot:
/// the privileged-dispatch pallet and its unchecked-weight call, and the
/// cross-chain messaging pallet and its send call.
pub struct ParaSchema {
    pub sudo_pallet: u8,
    pub sudo_unchecked_weight_call: u8,
    pub polkadot_xcm_pallet: u8,
    pub send_call: u8,
}

/// The wire form of the relay-chain call that removes the lock of a
/// parachain: the two call indices, then the identifier as four
/// little-endian bytes.
pub open spec fn spec_remove_lock_call(s: RelaySchema, para_id: u32) -> Seq<u8> {
    seq![s.registrar_pallet, s.remove_lock_call] + u32_le_spec(para_id)
}

/// Encodes the relay-chain call that removes the lock of `para_id`.
pub fn encode_remove_lock_call(s: &RelaySchema, para_id: u32) -> (r: Vec<u8>)
    ensures
        r@ == spec_remove_lock_call(*s, para_id),
{
    let mut out: Vec<u8> = Vec::new();
    out.push(s.registrar_pallet);
    out.push(s.remove_lock_call);
    push_u32_le(&mut out, para_id);
    proof {
        assert(out@ =~= spec_remove_lock_call(*s, para_id));
    }
    out
}

/// Assembles the five-instruction cross-chain program that funds itself,
/// dispatches the embedded unlock call under the native origin, and returns
/// the surplus to the refund account: withdraw the fee, buy execution with
/// it under no weight limit, transact the call, refund the surplus, deposit
/// everything left with the beneficiary.
pub fn build_unlock_message(refund: &AccountId, fee: u128, unlock_call: Vec<u8>) -> (r: Vec<
    Instruction,
>)
    requires
        refund.wf(),
    ensures
        r@.len() == 5,
        r@[0] matches Instruction::WithdrawAsset(assets) && assets@.len() == 1 && assets@[0].id
            == here_location() && assets@[0].amount == fee,
        r@[1] matches Instruction::BuyExecution { fees, weight_limit } && fees.id
            == here_location() && fees.amount == fee && weight_limit == WeightLimit::Unlimited,
        r@[2] matches Instruction::Transact { origin_kind, require_weight_at_most, call }
            && origin_kind == OriginKind::Native && require_weight_at_most.ref_time
            == TRANSACT_REF_TIME && require_weight_at_most.proof_size == TRANSACT_PROOF_SIZE
            && call@ == unlock_call@,
        r@[3] == Instruction::RefundSurplus,
        r@[4] matches Instruction::DepositAsset { assets, beneficiary } && assets
            == AssetFilter::WildAll && beneficiary.parents == 0 && (beneficiary.interior matches
            Junctions::X1(j) && (j matches Junction::AccountId32 { id } && id@ == refund@)),
{
    let withdrawn = Asset { id: Location { parents: 0, interior: Junctions::Here }, amount: fee };
    let fees = Asset { id: Location { parents: 0, interior: Junctions::Here }, amount: fee };
    let beneficiary = Location {
        parents: 0,
        interior: Junctions::X1(Junction::AccountId32 { id: refund.duplicate() }),
    };
    let mut withdrawn_list: Vec<Asset> = Vec::new();
    withdrawn_list.push(withdrawn);
    let mut r: Vec<Instruction> = Vec::new();
    r.push(Instruction::WithdrawAsset(withdrawn_list));
    r.push(Instruction::BuyExecution { fees, weight_limit: WeightLimit::Unlimited });
    r.push(
        Instruction::Transact {
            origin_kind: OriginKind::Native,
            require_weight_at_most: Weight {
                ref_time: TRANSACT_REF_TIME,
                proof_size: TRANSACT_PROOF_SIZE,
            },
            call: unlock_call,
        },
    );
    r.push(Instruction::RefundSurplus);
    r.push(Instruction::DepositAsset { assets: AssetFilter::WildAll, beneficiary });
    r
}

/// The wire form of the fee asset: the local asset, fungible, of the given
/// amount.
pub open spec fn spec_fee_asset_bytes(fee: u128) -> Seq<u8> {
    spec_encode_location(here_location()) + seq![0u8] + compact_spec(fee as nat)
}

/// The wire form of the five-instruction program, spelled out byte by byte:
/// withdraw the fee asset, buy execution with it under no limit, transact
/// the embedded call natively under the fixed weight ceiling, refund the
/// surplus, deposit everything with the refund account.
pub open spec fn spec_unlock_instructions(refund: Seq<u8>, fee: u128, unlock_call: Seq<u8>) -> Seq<
    u8,
> {
    seq![0u8] + compact_spec(1) + spec_fee_asset_bytes(fee) + seq![19u8] + spec_fee_asset_bytes(fee)
        + seq![0u8] + seq![6u8, 0u8] + compact_spec(TRANSACT_REF_TIME as nat) + compact_spec(
        TRANSACT_PROOF_SIZE as nat,
    ) + compact_spec(unlock_call.len() as nat) + unlock_call + seq![20u8] + seq![13u8, 1u8, 0u8]
        + seq![0u8, 1u8, 1u8, 0u8] + refund
}

/// An instruction list with the assembled program's shape encodes to exactly
/// the bytes that `spec_unlock_instructions` spells out.
proof fn lemma_message_encoding(s: Seq<Instruction>, refund: Seq<u8>, fee: u128, unlock_call: Seq<
    u8,
>)
    requires
        s.len() == 5,
        s[0] matches Instruction::WithdrawAsset(assets) && assets@.len() == 1 && assets@[0].id
            == here_location() && assets@[0].amount == fee,
        s[1] matches Instruction::BuyExecution { fees, weight_limit } && fees.id == here_location()
            && fees.amount == fee && weight_limit == WeightLimit::Unlimited,
        s[2] matches Instruction::Transact { origin_kind, require_weight_at_most, call }
            && origin_kind == OriginKind::Native && require_weight_at_most.ref_time
            == TRANSACT_REF_TIME && require_weight_at_most.proof_size == TRANSACT_PROOF_SIZE
            && call@ == unlock_call,
        s[3] == Instruction::RefundSurplus,
        s[4] matches Instruction::DepositAsset { assets, beneficiary } && assets
            == AssetFilter::WildAll && beneficiary.parents == 0 && (beneficiary.interior matches
            Junctions::X1(j) && (j matches Junction::AccountId32 { id } && id@ == refund)),
    ensures
        spec_encode_instruction_seq(s) == spec_unlock_instructions(refund, fee, unlock_call),
{
    let s4 = s.drop_last();
    let s3 = s4.drop_last();
    let s2 = s3.drop_last();
    let s1 = s2.drop_last();
    let s0 = s1.drop_last();
    assert(s0 =~= Seq::<Instruction>::empty());
    assert(s1.last() == s[0]);
    assert(s2.last() == s[1]);
    assert(s3.last() == s[2]);
    assert(s4.last() == s[3]);
    assert(s.last() == s[4]);
    let a0 = s[0]->WithdrawAsset_0;
    assert(a0@.drop_last() =~= Seq::<Asset>::empty());
    assert(a0@.last() == a0@[0]);
    assert(spec_encode_asset_seq(Seq::<Asset>::empty()) == Seq::<u8>::empty());
    assert(spec_encode_asset(a0@[0]) =~= spec_fee_asset_bytes(fee));
    assert(spec_encode_asset_seq(a0@) =~= spec_fee_asset_bytes(fee));
    assert(spec_encode_instruction(s[0]) =~= seq![0u8] + compact_spec(1) + spec_fee_asset_bytes(
        fee,
    ));
    assert(spec_encode_instruction(s[1]) =~= seq![19u8] + spec_fee_asset_bytes(fee) + seq![0u8]);
    assert(spec_encode_instruction(s[2]) =~= seq![6u8, 0u8] + compact_spec(TRANSACT_REF_TIME as nat)
        + compact_spec(TRANSACT_PROOF_SIZE as nat) + compact_spec(unlock_call.len() as nat)
        + unlock_call);
    assert(spec_encode_instruction(s[3]) =~= seq![20u8]);
    assert(spec_encode_instruction(s[4]) =~= seq![13u8, 1u8, 0u8] + seq![0u8, 1u8, 1u8, 0u8]
        + refund);
    assert(spec_encode_instruction_seq(s0) == Seq::<u8>::empty());
    assert(spec_encode_instruction_seq(s1) =~= spec_encode_instruction(s[0]));
    assert(spec_encode_instruction_seq(s2) =~= spec_encode_instruction(s[0])
        + spec_encode_instruction(s[1]));
    assert(spec_encode_instruction_seq(s3) =~= spec_encode_instruction(s[0])
        + spec_encode_instruction(s[1]) + spec_encode_instruction(s[2]));
    assert(spec_encode_instruction_seq(s4) =~= spec_encode_instruction(s[0])
        + spec_encode_instruction(s[1]) + spec_encode_instruction(s[2]) + spec_encode_instruction(
        s[3],
    ));
    assert(spec_encode_instruction_seq(s) =~= spec_encode_instruction(s[0])
        + spec_encode_instruction(s[1]) + spec_encode_instruction(s[2]) + spec_encode_instruction(
        s[3],
    ) + spec_encode_instruction(s[4]));
    assert(spec_encode_instruction_seq(s) =~= spec_unlock_instructions(refund, fee, unlock_call));
}

/// The wire form of the whole payload: the privileged-dispatch call indices,
/// the send call indices, the destination location and the program under
/// their version envelopes, and the zero weight of the unchecked-weight
/// envelope.
pub open spec fn spec_unlock_payload(
    para: ParaSchema,
    relay: RelaySchema,
    para_id: u32,
    refund: Seq<u8>,
    fee: u128,
) -> Seq<u8> {
    seq![para.sudo_pallet, para.sudo_unchecked_weight_call, para.polkadot_xcm_pallet, para.send_call]
        + spec_encode_versioned_location_v4(parent_location()) + seq![4u8] + compact_spec(5)
        + spec_unlock_instructions(refund, fee, spec_remove_lock_call(relay, para_id))
        + compact_spec(0) + compact_spec(0)
}

/// Encodes the full unlock payload against the two schema snapshots: the
/// relay-chain unlock call is encoded against the relay schema, embedded in
/// the five-instruction program, and the send of that program is wrapped in
/// the parachain's unchecked-weight privileged dispatch.
pub fn encode_unlock_payload(
    para: &ParaSchema,
    relay: &RelaySchema,
    para_id: u32,
    refund: &AccountId,
    fee: u128,
) -> (r: Vec<u8>)
    requires
        refund.wf(),
    ensures
        r@ == spec_unlock_payload(*para, *relay, para_id, refund@, fee),
{
    let unlock_call = encode_remove_lock_call(relay, para_id);
    let ghost unlock_call_bytes = unlock_call@;
    let message = build_unlock_message(refund, fee, unlock_call);
    let mut out: Vec<u8> = Vec::new();
    out.push(para.sudo_pallet);
    out.push(para.sudo_unchecked_weight_call);
    out.push(para.polkadot_xcm_pallet);
    out.push(para.send_call);
    let dest = Location { parents: 1, interior: Junctions::Here };
    push_versioned_location_v4(&mut out, &dest);
    push_versioned_xcm_v4(&mut out, &message);
    push_compact_u128(&mut out, 0);
    push_compact_u128(&mut out, 0);
    proof {
        assert(dest == parent_location());
        lemma_message_encoding(message@, refund@, fee, unlock_call_bytes);
        assert(out@ =~= spec_unlock_payload(*para, *relay, para_id, refund@, fee));
    }
    out
}

/// Two encodings of the same assembled call against the same schema
/// snapshots are byte-identical: the payload is a function of the schemas
/// and inputs alone.
pub proof fn lemma_payload_deterministic(
    para: ParaSchema,
    relay: RelaySchema,
    para_id: u32,
    refund: Seq<u8>,
    fee: u128,
    first: Seq<u8>,
    second: Seq<u8>,
)
    requires
        first == spec_unlock_payload(para, relay, para_id, refund, fee),
        second == spec_unlock_payload(para, relay, para_id, refund, fee),
    ensures
        first == second,
{
}

/// The lowercase hexadecimal digit of a value below sixteen.
pub open spec fn hex_digit(v: nat) -> char {
    if v == 0 {
        '0'
    } else if v == 1 {
        '1'
    } else if v == 2 {
        '2'
    } else if v == 3 {
        '3'
    } else if v == 4 {
        '4'
    } else if v == 5 {
        '5'
    } else if v == 6 {
        '6'
    } else if v == 7 {
        '7'
    } else if v == 8 {
        '8'
    } else if v == 9 {
        '9'
    } else if v == 10 {
        'a'
    } else if v == 11 {
        'b'
    } else if v == 12 {
        'c'
    } else if v == 13 {
        'd'
    } else if v == 14 {
        'e'
    } else {
        'f'
    }
}

/// The lowercase hexadecimal text of a byte sequence: two digits per byte,
/// high nibble first.
pub open spec fn hex_of(bytes: Seq<u8>) -> Seq<char>
    decreases bytes.len(),
{
    if bytes.len() == 0 {
        Seq::empty()
    } else {
        hex_of(bytes.drop_last()) + seq![
            hex_digit((bytes.last() / 16) as nat),
            hex_digit((bytes.last() % 16) as nat),
        ]
    }
}

/// Relies on `hex::encode`: the lowercase hexadecimal text of the bytes, two
/// digits per byte, high nibble first, a function of the bytes alone.
#[verifier::external_body]
fn encode_hex(bytes: &Vec<u8>) -> (r: String)
    ensures
        r@ == hex_of(bytes@),
{
    hex::encode(bytes.as_slice())
}

/// The lowercase hexadecimal text of a byte vector.
pub fn to_hex_string(bytes: &Vec<u8>) -> (r: String)
    ensures
        r@ == hex_of(bytes@),
{
    encode_hex(bytes)
}

/// Encodes the full unlock payload and renders it as lowercase hexadecimal
/// text, the single machine-consumable line of the run.
pub fn unlock_payload_hex(
    para: &ParaSchema,
    relay: &RelaySchema,
    para_id: u32,
    refund: &AccountId,
    fee: u128,
) -> (r: String)
    requires
        refund.wf(),
    ensures
        r@ == hex_of(spec_unlock_payload(*para, *relay, para_id, refund@, fee)),
{
    let bytes = encode_unlock_payload(para, relay, para_id, refund, fee);
    encode_hex(&bytes)
}

} // verus!
