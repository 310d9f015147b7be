//! The cross-chain message data model used by the unlock call, and its
//! verified wire encoding.
//!
//! The types mirror the version-4 cross-chain message format, restricted to
//! the shapes this tool sends. Every variant tag written by the encoders is
//! the declaration position of that variant in the version-4 format.

use vstd::prelude::*;
use crate::account::AccountId;
use crate::scale::{compact_spec, push_bytes, push_compact_u128, push_compact_u32, push_compact_u64};

verus! {

/// One step in a chain topology path.
pub enum Junction {
    /// A parachain, named by its numeric identifier.
    Parachain(u32),
    /// A 32-byte account, carrying no network qualifier.
    AccountId32 { id: AccountId },
}

/// The interior steps of a location: none, or a single junction. The tool
/// never names a deeper path.
pub enum Junctions {
    /// No interior steps.
    Here,
    /// Exactly one interior step.
    X1(Junction),
}

/// A position in the multi-chain topology: how many hops up toward the
/// relay, then the interior steps.
pub struct Location {
    pub parents: u8,
    pub interior: Junctions,
}

/// A two-dimensional execution weight.
pub struct Weight {
    pub ref_time: u64,
    pub proof_size: u64,
}

/// A fungible amount of the asset that a location names.
pub struct Asset {
    pub id: Location,
    pub amount: u128,
}

/// Which assets an instruction acts on: a definite list, or everything.
pub enum AssetFilter {
    /// Exactly the listed assets.
    Definite(Vec<Asset>),
    /// Every asset in the holding register.
    WildAll,
}

/// A bound on the weight an execution purchase may consume.
pub enum WeightLimit {
    Unlimited,
    Limited(Weight),
}

/// The origin a transacted call is dispatched under.
pub enum OriginKind {
    Native,
    SovereignAccount,
    Superuser,
    Xcm,
}

/// One step of a cross-chain execution program. The order of instructions in
/// a program is significant.
pub enum Instruction {
    /// Move the listed assets from the executing account into holding.
    WithdrawAsset(Vec<Asset>),
    /// Pay for execution from holding, up to the given weight limit.
    BuyExecution { fees: Asset, weight_limit: WeightLimit },
    /// Dispatch an encoded call under the given origin.
    Transact { origin_kind: OriginKind, require_weight_at_most: Weight, call: Vec<u8> },
    /// Return unspent execution payment to holding.
    RefundSurplus,
    /// Move assets matching the filter from holding to the beneficiary.
    DepositAsset { assets: AssetFilter, beneficiary: Location },
}

/// The location with no hops and no interior steps: the chain itself.
pub open spec fn here_location() -> Location {
    Location { parents: 0, interior: Junctions::Here }
}

/// The location one hop up with no interior steps: the relay chain as seen
/// from a parachain.
pub open spec fn parent_location() -> Location {
    Location { parents: 1, interior: Junctions::Here }
}

/// The wire form of a junction.
pub open spec fn spec_encode_junction(j: Junction) -> Seq<u8> {
    match j {
        Junction::Parachain(id) => seq![0u8] + compact_spec(id as nat),
        Junction::AccountId32 { id } => seq![1u8, 0u8] + id@,
    }
}

/// The wire form of interior steps.
pub open spec fn spec_encode_junctions(j: Junctions) -> Seq<u8> {
    match j {
        Junctions::Here => seq![0u8],
        Junctions::X1(inner) => seq![1u8] + spec_encode_junction(inner),
    }
}

/// The wire form of a location.
pub open spec fn spec_encode_location(l: Location) -> Seq<u8> {
    seq![l.parents] + spec_encode_junctions(l.interior)
}

/// The wire form of a weight: both components compact.
pub open spec fn spec_encode_weight(w: Weight) -> Seq<u8> {
    compact_spec(w.ref_time as nat) + compact_spec(w.proof_size as nat)
}

/// The wire form of a fungible asset: its location, the fungible tag, the
/// compact amount.
pub open spec fn spec_encode_asset(a: Asset) -> Seq<u8> {
    spec_encode_location(a.id) + seq![0u8] + compact_spec(a.amount as nat)
}

/// The concatenated wire forms of a list of assets, in order.
pub open spec fn spec_encode_asset_seq(s: Seq<Asset>) -> Seq<u8>
    decreases s.len(),
{
    if s.len() == 0 {
        Seq::empty()
    } else {
        spec_encode_asset_seq(s.drop_last()) + spec_encode_asset(s.last())
    }
}

/// The wire form of an asset list: a compact count, then each asset.
pub open spec fn spec_encode_assets(s: Seq<Asset>) -> Seq<u8> {
    compact_spec(s.len() as nat) + spec_encode_asset_seq(s)
}

/// The wire form of an asset filter.
pub open spec fn spec_encode_asset_filter(f: AssetFilter) -> Seq<u8> {
    match f {
        AssetFilter::Definite(assets) => seq![0u8] + spec_encode_assets(assets@),
        AssetFilter::WildAll => seq![1u8, 0u8],
    }
}

/// The wire form of a weight limit.
pub open spec fn spec_encode_weight_limit(wl: WeightLimit) -> Seq<u8> {
    match wl {
        WeightLimit::Unlimited => seq![0u8],
        WeightLimit::Limited(w) => seq![1u8] + spec_encode_weight(w),
    }
}

/// The wire form of an origin kind.
pub open spec fn spec_encode_origin_kind(k: OriginKind) -> Seq<u8> {
    match k {
        OriginKind::Native => seq![0u8],
        OriginKind::SovereignAccount => seq![1u8],
        OriginKind::Superuser => seq![2u8],
        OriginKind::Xcm => seq![3u8],
    }
}

/// The wire form of one instruction: its variant tag, then its fields in
/// declaration order. An embedded call is length-prefixed.
pub open spec fn spec_encode_instruction(i: Instruction) -> Seq<u8> {
    match i {
        Instruction::WithdrawAsset(assets) => seq![0u8] + spec_encode_assets(assets@),
        Instruction::BuyExecution { fees, weight_limit } => seq![19u8] + spec_encode_asset(
            fees,
        ) + spec_encode_weight_limit(weight_limit),
        Instruction::Transact { origin_kind, require_weight_at_most, call } => seq![6u8]
            + spec_encode_origin_kind(origin_kind) + spec_encode_weight(require_weight_at_most)
            + compact_spec(call@.len() as nat) + call@,
        Instruction::RefundSurplus => seq![20u8],
        Instruction::DepositAsset { assets, beneficiary } => seq![13u8] + spec_encode_asset_filter(
            assets,
        ) + spec_encode_location(beneficiary),
    }
}

/// The concatenated wire forms of a program's instructions, in order.
pub open spec fn spec_encode_instruction_seq(s: Seq<Instruction>) -> Seq<u8>
    decreases s.len(),
{
    if s.len() == 0 {
        Seq::empty()
    } else {
        spec_encode_instruction_seq(s.drop_last()) + spec_encode_instruction(s.last())
    }
}

/// The wire form of a whole program under the version-4 envelope: the
/// version tag, a compact instruction count, then each instruction.
pub open spec fn spec_encode_versioned_xcm_v4(s: Seq<Instruction>) -> Seq<u8> {
    seq![4u8] + compact_spec(s.len() as nat) + spec_encode_instruction_seq(s)
}

/// The wire form of a location under the version-4 envelope.
pub open spec fn spec_encode_versioned_location_v4(l: Location) -> Seq<u8> {
    seq![4u8] + spec_encode_location(l)
}

/// The location of a parachain as seen from the relay chain: no hops, one
/// junction naming the parachain.
pub fn parachain_location(para_id: u32) -> (r: Location)
    ensures
        r.parents == 0,
        r.interior == Junctions::X1(Junction::Parachain(para_id)),
{
    Location { parents: 0, interior: Junctions::X1(Junction::Parachain(para_id)) }
}

/// Appends the wire form of a junction to `out`.
pub fn push_junction(out: &mut Vec<u8>, j: &Junction)
    ensures
        final(out)@ == old(out)@ + spec_encode_junction(*j),
{
    match j {
        Junction::Parachain(id) => {
            out.push(0u8);
            push_compact_u32(out, *id);
            proof {
                assert(out@ =~= old(out)@ + spec_encode_junction(*j));
            }
        },
        Junction::AccountId32 { id } => {
            out.push(1u8);
            out.push(0u8);
            push_bytes(out, id.as_bytes());
            proof {
                assert(out@ =~= old(out)@ + spec_encode_junction(*j));
            }
        },
    }
}

/// Appends the wire form of interior steps to `out`.
pub fn push_junctions(out: &mut Vec<u8>, j: &Junctions)
    ensures
        final(out)@ == old(out)@ + spec_encode_junctions(*j),
{
    match j {
        Junctions::Here => {
            out.push(0u8);
            proof {
                assert(out@ =~= old(out)@ + spec_encode_junctions(*j));
            }
        },
        Junctions::X1(inner) => {
            out.push(1u8);
            push_junction(out, inner);
            proof {
                assert(out@ =~= old(out)@ + spec_encode_junctions(*j));
            }
        },
    }
}

/// Appends the wire form of a location to `out`.
pub fn push_location(out: &mut Vec<u8>, l: &Location)
    ensures
        final(out)@ == old(out)@ + spec_encode_location(*l),
{
    out.push(l.parents);
    push_junctions(out, &l.interior);
    proof {
        assert(out@ =~= old(out)@ + spec_encode_location(*l));
    }
}

/// Appends the wire form of a weight to `out`.
pub fn push_weight(out: &mut Vec<u8>, w: &Weight)
    ensures
        final(out)@ == old(out)@ + spec_encode_weight(*w),
{
    push_compact_u64(out, w.ref_time);
    push_compact_u64(out, w.proof_size);
    proof {
        assert(out@ =~= old(out)@ + spec_encode_weight(*w));
    }
}

/// Appends the wire form of a fungible asset to `out`.
pub fn push_asset(out: &mut Vec<u8>, a: &Asset)
    ensures
        final(out)@ == old(out)@ + spec_encode_asset(*a),
{
    push_location(out, &a.id);
    out.push(0u8);
    push_compact_u128(out, a.amount);
    proof {
        assert(out@ =~= old(out)@ + spec_encode_asset(*a));
    }
}

/// Appends the wire form of an asset list to `out`.
pub fn push_assets(out: &mut Vec<u8>, assets: &Vec<Asset>)
    ensures
        final(out)@ == old(out)@ + spec_encode_assets(assets@),
{
    push_compact_u128(out, assets.len() as u128);
    let mut i: usize = 0;
    while i < assets.len()
        invariant
            i <= assets@.len(),
            out@ == old(out)@ + compact_spec(assets@.len() as nat) + spec_encode_asset_seq(
                assets@.subrange(0, i as int),
            ),
        decreases assets@.len() - i,
    {
        let ghost prefix = assets@.subrange(0, i as int);
        push_asset(out, &assets[i]);
        proof {
            assert(assets@.subrange(0, i + 1).drop_last() =~= prefix);
            assert(assets@.subrange(0, i + 1).last() == assets@[i as int]);
            assert(out@ =~= old(out)@ + compact_spec(assets@.len() as nat)
                + spec_encode_asset_seq(assets@.subrange(0, i + 1)));
        }
        i = i + 1;
    }
    proof {
        assert(assets@.subrange(0, assets@.len() as int) =~= assets@);
        assert(out@ =~= old(out)@ + spec_encode_assets(assets@));
    }
}

/// Appends the wire form of an asset filter to `out`.
pub fn push_asset_filter(out: &mut Vec<u8>, f: &AssetFilter)
    ensures
        final(out)@ == old(out)@ + spec_encode_asset_filter(*f),
{
    match f {
        AssetFilter::Definite(assets) => {
            out.push(0u8);
            push_assets(out, assets);
            proof {
                assert(out@ =~= old(out)@ + spec_encode_asset_filter(*f));
            }
        },
        AssetFilter::WildAll => {
            out.push(1u8);
            out.push(0u8);
            proof {
                assert(out@ =~= old(out)@ + spec_encode_asset_filter(*f));
            }
        },
    }
}

/// Appends the wire form of a weight limit to `out`.
pub fn push_weight_limit(out: &mut Vec<u8>, wl: &WeightLimit)
    ensures
        final(out)@ == old(out)@ + spec_encode_weight_limit(*wl),
{
    match wl {
        WeightLimit::Unlimited => {
            out.push(0u8);
            proof {
                assert(out@ =~= old(out)@ + spec_encode_weight_limit(*wl));
            }
        },
        WeightLimit::Limited(w) => {
            out.push(1u8);
            push_weight(out, w);
            proof {
                assert(out@ =~= old(out)@ + spec_encode_weight_limit(*wl));
            }
        },
    }
}

/// Appends the wire form of an origin kind to `out`.
pub fn push_origin_kind(out: &mut Vec<u8>, k: &OriginKind)
    ensures
        final(out)@ == old(out)@ + spec_encode_origin_kind(*k),
{
    match k {
        OriginKind::Native => out.push(0u8),
        OriginKind::SovereignAccount => out.push(1u8),
        OriginKind::Superuser => out.push(2u8),
        OriginKind::Xcm => out.push(3u8),
    }
    proof {
        assert(out@ =~= old(out)@ + spec_encode_origin_kind(*k));
    }
}

/// Appends the wire form of one instruction to `out`.
pub fn push_instruction(out: &mut Vec<u8>, i: &Instruction)
    ensures
        final(out)@ == old(out)@ + spec_encode_instruction(*i),
{
    match i {
        Instruction::WithdrawAsset(assets) => {
            out.push(0u8);
            push_assets(out, assets);
        },
        Instruction::BuyExecution { fees, weight_limit } => {
            out.push(19u8);
            push_asset(out, fees);
            push_weight_limit(out, weight_limit);
        },
        Instruction::Transact { origin_kind, require_weight_at_most, call } => {
            out.push(6u8);
            push_origin_kind(out, origin_kind);
            push_weight(out, require_weight_at_most);
            push_compact_u128(out, call.len() as u128);
            push_bytes(out, call);
        },
        Instruction::RefundSurplus => {
            out.push(20u8);
        },
        Instruction::DepositAsset { assets, beneficiary } => {
            out.push(13u8);
            push_asset_filter(out, assets);
            push_location(out, beneficiary);
        },
    }
    proof {
        assert(out@ =~= old(out)@ + spec_encode_instruction(*i));
    }
}

/// Appends the wire form of a whole program under the version-4 envelope to
/// `out`.
pub fn push_versioned_xcm_v4(out: &mut Vec<u8>, program: &Vec<Instruction>)
    ensures
        final(out)@ == old(out)@ + spec_encode_versioned_xcm_v4(program@),
{
    out.push(4u8);
    push_compact_u128(out, program.len() as u128);
    let mut i: usize = 0;
    while i < program.len()
        invariant
            i <= program@.len(),
            out@ == old(out)@ + seq![4u8] + compact_spec(program@.len() as nat)
                + spec_encode_instruction_seq(program@.subrange(0, i as int)),
        decreases program@.len() - i,
    {
        let ghost prefix = program@.subrange(0, i as int);
        push_instruction(out, &program[i]);
        proof {
            assert(program@.subrange(0, i + 1).drop_last() =~= prefix);
            assert(program@.subrange(0, i + 1).last() == program@[i as int]);
            assert(out@ =~= old(out)@ + seq![4u8] + compact_spec(program@.len() as nat)
                + spec_encode_instruction_seq(program@.subrange(0, i + 1)));
        }
        i = i + 1;
    }
    proof {
        assert(program@.subrange(0, program@.len() as int) =~= program@);
        assert(out@ =~= old(out)@ + spec_encode_versioned_xcm_v4(program@));
    }
}

/// Appends the wire form of a location under the version-4 envelope to
/// `out`.
pub fn push_versioned_location_v4(out: &mut Vec<u8>, l: &Location)
    ensures
        final(out)@ == old(out)@ + spec_encode_versioned_location_v4(*l),
{
    out.push(4u8);
    push_location(out, l);
    proof {
        assert(out@ =~= old(out)@ + spec_encode_versioned_location_v4(*l));
    }
}

} // verus!
