//! The Pangolin runtime (spec version 27000): its version, the transactions its
//! off-chain workers sign, the conversion of Ethereum transactions into
//! extrinsics, the storage migration it runs on upgrade, and the digest that
//! proves ownership of an account across the Pangolin–Pangoro bridge.
//!
//! Calls, Ethereum transactions and signatures are carried here as the bytes of
//! their SCALE encoding, or as opaque values.
use vstd::prelude::*;
use crate::era::{
    Era, birth, checked_next_power_of_two_u32, death, is_pow2, lemma_mortal_covers_current,
    lemma_next_pow2, mortal_period, quantize_factor, next_pow2, next_pow2_from, spec_mortal,
};
use crate::scale::{
    begins_with_byte_vec, decode_byte_vec, encode_byte_array, encode_byte_vec,
    lemma_byte_vec_prefix_unique,
    lemma_byte_vec_roundtrip, scale_byte_vec,
};

verus! {

/// A 32-byte account identifier.
pub type AccountId = [u8; 32];

/// A bridged chain's identifier.
pub type ChainId = [u8; 4];

/// An account's transaction index.
pub type Nonce = u32;

/// A block number.
pub type BlockNumber = u32;

/// An amount of the native token.
pub type Balance = u128;

/// Execution weight.
pub type Weight = u64;

/// How many recent block hashes the Pangolin chain keeps.
pub const BLOCK_HASH_COUNT: u32 = 256;

/// The most weight one block may use: two seconds of execution.
pub const MAXIMUM_BLOCK_WEIGHT: u64 = 2_000_000_000_000;

/// The Pangolin chain's identifier, `b"pagl"`.
pub const PANGOLIN_CHAIN_ID: ChainId = [0x70u8, 0x61u8, 0x67u8, 0x6cu8];

/// The Pangoro chain's identifier, `b"pagr"`.
pub const PANGORO_CHAIN_ID: ChainId = [0x70u8, 0x61u8, 0x67u8, 0x72u8];

/// The version byte of an unsigned extrinsic (format 4, no signature).
pub const UNSIGNED_EXTRINSIC_VERSION: u8 = 4;

/// The index of the Ethereum pallet in this runtime.
pub const ETHEREUM_PALLET_INDEX: u8 = 41;

/// The index of the Ethereum pallet's `transact` call.
pub const ETHEREUM_TRANSACT_CALL_INDEX: u8 = 0;

// ------------------------------------------------------------------------------
// Version
// ------------------------------------------------------------------------------

/// A runtime API's identifier: the first 8 bytes of the BLAKE2b hash of the
/// API trait's name.
pub type ApiId = [u8; 8];

/// The identifier of the `Core` runtime API.
pub const CORE_API_ID: ApiId = [0xdf, 0x6a, 0xcb, 0x68, 0x99, 0x07, 0x60, 0x9b];

/// The identifier of the `Metadata` runtime API.
pub const METADATA_API_ID: ApiId = [0x37, 0xe3, 0x97, 0xfc, 0x7c, 0x91, 0xf5, 0xe4];

/// The identifier of the `BlockBuilder` runtime API.
pub const BLOCK_BUILDER_API_ID: ApiId = [0x40, 0xfe, 0x3a, 0xd4, 0x01, 0xf8, 0x95, 0x9a];

/// The identifier of the `TaggedTransactionQueue` runtime API.
pub const TAGGED_TRANSACTION_QUEUE_API_ID: ApiId = [0xd2, 0xbc, 0x98, 0x97, 0xee, 0xd0, 0x8f, 0x15];

/// The identifier of the `OffchainWorkerApi` runtime API.
pub const OFFCHAIN_WORKER_API_ID: ApiId = [0xf7, 0x8b, 0x27, 0x8b, 0xe5, 0x3f, 0x45, 0x4c];

/// The identifier of the `GrandpaApi` runtime API.
pub const GRANDPA_API_ID: ApiId = [0xed, 0x99, 0xc5, 0xac, 0xb2, 0x5e, 0xed, 0xf5];

/// The identifier of the `BabeApi` runtime API.
pub const BABE_API_ID: ApiId = [0xcb, 0xca, 0x25, 0xe3, 0x9f, 0x14, 0x23, 0x87];

/// The identifier of the `AuthorityDiscoveryApi` runtime API.
pub const AUTHORITY_DISCOVERY_API_ID: ApiId = [0x68, 0x7a, 0xd4, 0x4a, 0xd3, 0x7f, 0x03, 0xc2];

/// The identifier of the `SessionKeys` runtime API.
pub const SESSION_KEYS_API_ID: ApiId = [0xab, 0x3c, 0x05, 0x72, 0x29, 0x1f, 0xeb, 0x8b];

/// The identifier of the `AccountNonceApi` runtime API.
pub const ACCOUNT_NONCE_API_ID: ApiId = [0xbc, 0x9d, 0x89, 0x90, 0x4f, 0x5b, 0x92, 0x3f];

/// The identifier of the `TransactionPaymentApi` runtime API.
pub const TRANSACTION_PAYMENT_API_ID: ApiId = [0x37, 0xc8, 0xbb, 0x13, 0x50, 0xa9, 0xa2, 0xa8];

/// The identifier of the `BalancesApi` runtime API.
pub const BALANCES_API_ID: ApiId = [0x19, 0x9a, 0xf4, 0x87, 0xd8, 0x4d, 0x98, 0x47];

/// The identifier of the `HeaderMMRApi` runtime API.
pub const HEADER_MMR_API_ID: ApiId = [0x64, 0x97, 0x7c, 0xd9, 0x28, 0x41, 0xbc, 0x5e];

/// The identifier of the `StakingApi` runtime API.
pub const STAKING_API_ID: ApiId = [0x18, 0xef, 0x58, 0xa3, 0xb6, 0x7b, 0xa7, 0x70];

/// The identifier of the `FeeMarketApi` runtime API.
pub const FEE_MARKET_API_ID: ApiId = [0x2d, 0x06, 0xc6, 0x35, 0x32, 0xb9, 0x38, 0xe3];

/// The identifier of the `EthereumRuntimeRPCApi` runtime API.
pub const ETHEREUM_RUNTIME_RPC_API_ID: ApiId = [0x58, 0x22, 0x11, 0xf6, 0x5b, 0xb1, 0x4b, 0x89];

/// The identifier of the `PangoroFinalityApi` runtime API.
pub const PANGORO_FINALITY_API_ID: ApiId = [0xd2, 0xad, 0x69, 0xe3, 0xe7, 0x8c, 0xe7, 0x76];

/// The identifier of the `ToPangoroOutboundLaneApi` runtime API.
pub const TO_PANGORO_OUTBOUND_LANE_API_ID: ApiId = [0xa8, 0xa5, 0x90, 0x4b, 0x33, 0xf5, 0xb0, 0x67];

/// The identifier of the `FromPangoroInboundLaneApi` runtime API.
pub const FROM_PANGORO_INBOUND_LANE_API_ID: ApiId = [0xc5, 0x45, 0xe5, 0x22, 0x62, 0x9a, 0xd5, 0x14];

/// The runtime APIs this runtime implements, in order, each with its version.
pub open spec fn pangolin_apis() -> Seq<(ApiId, u32)> {
    seq![
        (CORE_API_ID, 3u32),
        (METADATA_API_ID, 1u32),
        (BLOCK_BUILDER_API_ID, 5u32),
        (TAGGED_TRANSACTION_QUEUE_API_ID, 3u32),
        (OFFCHAIN_WORKER_API_ID, 2u32),
        (GRANDPA_API_ID, 2u32),
        (BABE_API_ID, 2u32),
        (AUTHORITY_DISCOVERY_API_ID, 1u32),
        (SESSION_KEYS_API_ID, 1u32),
        (ACCOUNT_NONCE_API_ID, 1u32),
        (TRANSACTION_PAYMENT_API_ID, 1u32),
        (BALANCES_API_ID, 1u32),
        (HEADER_MMR_API_ID, 1u32),
        (STAKING_API_ID, 1u32),
        (FEE_MARKET_API_ID, 1u32),
        (ETHEREUM_RUNTIME_RPC_API_ID, 1u32),
        (PANGORO_FINALITY_API_ID, 1u32),
        (TO_PANGORO_OUTBOUND_LANE_API_ID, 1u32),
        (FROM_PANGORO_INBOUND_LANE_API_ID, 1u32),
    ]
}

/// The version of a runtime.
pub struct RuntimeVersion {
    pub spec_name: String,
    pub impl_name: String,
    pub authoring_version: u32,
    pub spec_version: u32,
    pub impl_version: u32,
    pub transaction_version: u32,
    /// The runtime APIs it implements, with their versions.
    pub apis: Vec<(ApiId, u32)>,
}

/// This runtime's version: Pangolin, spec version 27000.
pub open spec fn is_pangolin_version(v: RuntimeVersion) -> bool {
    &&& v.spec_name@ == "Pangolin"@
    &&& v.impl_name@ == "Pangolin"@
    &&& v.authoring_version == 0
    &&& v.spec_version == 27000
    &&& v.impl_version == 0
    &&& v.transaction_version == 0
    &&& v.apis@ == pangolin_apis()
}

/// This runtime's version.
pub fn version() -> (v: RuntimeVersion)
    ensures
        is_pangolin_version(v),
{
    let mut apis: Vec<(ApiId, u32)> = Vec::new();
    apis.push((CORE_API_ID, 3));
    apis.push((METADATA_API_ID, 1));
    apis.push((BLOCK_BUILDER_API_ID, 5));
    apis.push((TAGGED_TRANSACTION_QUEUE_API_ID, 3));
    apis.push((OFFCHAIN_WORKER_API_ID, 2));
    apis.push((GRANDPA_API_ID, 2));
    apis.push((BABE_API_ID, 2));
    apis.push((AUTHORITY_DISCOVERY_API_ID, 1));
    apis.push((SESSION_KEYS_API_ID, 1));
    apis.push((ACCOUNT_NONCE_API_ID, 1));
    apis.push((TRANSACTION_PAYMENT_API_ID, 1));
    apis.push((BALANCES_API_ID, 1));
    apis.push((HEADER_MMR_API_ID, 1));
    apis.push((STAKING_API_ID, 1));
    apis.push((FEE_MARKET_API_ID, 1));
    apis.push((ETHEREUM_RUNTIME_RPC_API_ID, 1));
    apis.push((PANGORO_FINALITY_API_ID, 1));
    apis.push((TO_PANGORO_OUTBOUND_LANE_API_ID, 1));
    apis.push((FROM_PANGORO_INBOUND_LANE_API_ID, 1));
    assert(apis@ =~= pangolin_apis());
    RuntimeVersion {
        apis,
        spec_name: String::from_str("Pangolin"),
        impl_name: String::from_str("Pangolin"),
        authoring_version: 0,
        spec_version: 27000,
        impl_version: 0,
        transaction_version: 0,
    }
}

/// The version of a runtime compiled natively, with the authoring versions
/// (besides its own) it can author blocks for.
pub struct NativeVersion {
    pub runtime_version: RuntimeVersion,
    pub can_author_with: Vec<u32>,
}

/// The version information used to identify this runtime when compiled
/// natively: this runtime's version, with no further authoring versions.
pub fn native_version() -> (v: NativeVersion)
    ensures
        is_pangolin_version(v.runtime_version),
        v.can_author_with@ == Seq::<u32>::empty(),
{
    NativeVersion { runtime_version: version(), can_author_with: Vec::new() }
}

/// The Wasm binary of the runtime. A client built without it (the build was
/// told to skip it) has `None`, on which the client cannot run: `requires` leaves
/// that out.
pub fn wasm_binary_unwrap(wasm_binary: Option<&[u8]>) -> (r: &[u8])
    requires
        wasm_binary is Some,
    ensures
        r@ == wasm_binary.unwrap()@,
{
    match wasm_binary {
        Some(b) => b,
        None => {
            proof {
                assert(false);
            }
            &[]
        },
    }
}

/// Which slots may be claimed by block authors.
#[derive(PartialEq, Eq, Structural, Clone, Copy, Debug)]
pub enum AllowedSlots {
    PrimarySlots,
    PrimaryAndSecondaryPlainSlots,
    PrimaryAndSecondaryVRFSlots,
}

/// The BABE configuration of an epoch.
#[derive(Clone, Copy, Debug)]
pub struct BabeEpochConfiguration {
    /// The probability `c.0 / c.1` that a slot has a primary author.
    pub c: (u64, u64),
    pub allowed_slots: AllowedSlots,
}

/// The BABE epoch configuration at genesis: a primary slot with probability
/// 1/4, and secondary plain slots allowed.
pub fn babe_genesis_epoch_config() -> (c: BabeEpochConfiguration)
    ensures
        c.c == (1u64, 4u64),
        c.allowed_slots == AllowedSlots::PrimaryAndSecondaryPlainSlots,
{
    BabeEpochConfiguration { c: (1, 4), allowed_slots: AllowedSlots::PrimaryAndSecondaryPlainSlots }
}

// ------------------------------------------------------------------------------
// Signed transactions
// ------------------------------------------------------------------------------

/// The signed extensions' data of a transaction: its era, the sender's nonce and
/// the tip. (The other checks carry no data of their own.)
#[derive(PartialEq, Eq, Structural, Clone, Copy, Debug)]
pub struct SignedExtra {
    pub era: Era,
    pub nonce: Nonce,
    pub tip: Balance,
}

/// The address of an account, as the runtime's lookup gives it back.
pub enum MultiAddress {
    Id(AccountId),
}

/// The runtime itself.
pub struct Runtime;

/// The mortality period a transaction asks for with `block_hash_count` hashes
/// kept: the largest power of two below the count (half the next power of two),
/// or 2 when that power does not fit in a `u32`.
pub open spec fn spec_transaction_period(block_hash_count: u32) -> nat {
    let p = next_pow2(block_hash_count as nat);
    if p <= u32::MAX {
        p / 2
    } else {
        2
    }
}

/// The block a transaction is built in: the runtime's block number is that of
/// the block being built, one past the last one, so one less (never below 0).
pub open spec fn spec_current_block(block_number: u32) -> nat {
    if block_number == 0 {
        0
    } else {
        (block_number - 1) as nat
    }
}

/// The signed-extension data of a transaction built at `block_number` with
/// `nonce`: a mortal era of the largest period the kept block hashes allow,
/// starting at the current block, and no tip.
pub open spec fn spec_signed_extra(block_number: u32, nonce: Nonce) -> SignedExtra {
    SignedExtra {
        era: spec_mortal(
            spec_transaction_period(BLOCK_HASH_COUNT) as u64,
            spec_current_block(block_number) as u64,
        ),
        nonce: nonce,
        tip: 0,
    }
}

impl Runtime {
    /// The mortality period for transactions when `block_hash_count` block
    /// hashes are kept.
    pub fn transaction_period(block_hash_count: u32) -> (p: u64)
        ensures
            p == spec_transaction_period(block_hash_count),
    {
        proof {
            lemma_next_pow2(block_hash_count as nat);
        }
        match checked_next_power_of_two_u32(block_hash_count) {
            Some(c) => (c / 2) as u64,
            None => 2,
        }
    }

    /// The signed-extension data of a transaction built at `block_number`.
    pub fn signed_extra(block_number: BlockNumber, nonce: Nonce) -> (e: SignedExtra)
        ensures
            e == spec_signed_extra(block_number, nonce),
    {
        let period = Runtime::transaction_period(BLOCK_HASH_COUNT);
        let current_block = (block_number as u64).saturating_sub(1);
        SignedExtra { era: Era::mortal(period, current_block), nonce, tip: 0 }
    }

    /// Builds a signed transaction for `call` from `account` with `nonce`, at a
    /// time the runtime's block number is `block_number`. `sign` stands for
    /// building the signed payload of the call with these extensions and signing
    /// it with the account's key; it gives `None` where either fails. The
    /// transaction is the call, the account's address, the signature and the
    /// extensions.
    pub fn create_transaction<C, S, F: FnOnce(&C, &SignedExtra) -> Option<S>>(
        call: C,
        account: AccountId,
        nonce: Nonce,
        block_number: BlockNumber,
        sign: F,
    ) -> (r: Option<(C, (MultiAddress, S, SignedExtra))>)
        requires
            sign.requires((&call, &spec_signed_extra(block_number, nonce))),
        ensures
            match r {
                Some((c, (address, signature, extra))) => {
                    &&& c == call
                    &&& address == MultiAddress::Id(account)
                    &&& extra == spec_signed_extra(block_number, nonce)
                    &&& sign.ensures((&call, &extra), Some(signature))
                },
                None => sign.ensures((&call, &spec_signed_extra(block_number, nonce)), None),
            },
    {
        let extra = Runtime::signed_extra(block_number, nonce);
        let signature = sign(&call, &extra);
        match signature {
            Some(s) => Some((call, (MultiAddress::Id(account), s, extra))),
            None => None,
        }
    }
}

/// A transaction of this runtime lives at most as long as the block hashes it
/// may refer to: with `n` hashes kept (2 <= n <= 2^31), the requested period is
/// the largest power of two below `n`.
pub proof fn lemma_transaction_period_below_hash_count(block_hash_count: u32)
    requires
        2 <= block_hash_count <= 0x8000_0000u32,
    ensures
        is_pow2(spec_transaction_period(block_hash_count)),
        spec_transaction_period(block_hash_count) < block_hash_count,
        block_hash_count <= 2 * spec_transaction_period(block_hash_count),
{
    let n = block_hash_count as nat;
    lemma_next_pow2(n);
    let p = next_pow2(n);
    assert(p > 1);
    assert(p % 2 == 0 && is_pow2(p / 2));
    assert(p <= u32::MAX);
}

/// A transaction this runtime signs lives 128 blocks, half the 256 block hashes
/// the chain keeps, and is valid in the block it was made for: its era began at
/// that block (the period is short enough that the phase is not rounded) and ends
/// 128 blocks later.
pub proof fn lemma_signed_transaction_lifetime(block_number: BlockNumber, nonce: Nonce)
    ensures
        spec_signed_extra(block_number, nonce).era == Era::Mortal(
            128,
            (spec_current_block(block_number) % 128) as u64,
        ),
        birth(spec_signed_extra(block_number, nonce).era, spec_current_block(block_number))
            == spec_current_block(block_number),
        death(spec_signed_extra(block_number, nonce).era, spec_current_block(block_number))
            == spec_current_block(block_number) + 128,
        128 < BLOCK_HASH_COUNT,
{
    reveal_with_fuel(next_pow2_from, 10);
    assert(next_pow2(256) == 256);
    assert(spec_transaction_period(BLOCK_HASH_COUNT) == 128);
    assert(next_pow2(128) == 128);
    assert(mortal_period(128) == 128);
    let c = spec_current_block(block_number);
    assert(quantize_factor(128) == 1);
    assert((c % 128) / 1 * 1 == c % 128);
    lemma_mortal_covers_current(128, c as u64);
}

/// The extensions of a transaction made when the runtime's block number is `b`
/// (the block being built): a 128-block era whose phase is that of block
/// `b - 1`, the last finished block (block 0 when `b` is 0), the given nonce,
/// and no tip. This holds for every block number, however large.
pub proof fn lemma_signed_extra_at_previous_block(block_number: BlockNumber, nonce: Nonce)
    ensures
        spec_signed_extra(block_number, nonce) == (SignedExtra {
            era: Era::Mortal(
                128,
                (if block_number == 0 {
                    0
                } else {
                    (block_number - 1) % 128
                }) as u64,
            ),
            nonce: nonce,
            tip: 0,
        }),
        block_number >= 1 ==> birth(
            spec_signed_extra(block_number, nonce).era,
            (block_number - 1) as nat,
        ) == block_number - 1,
{
    lemma_signed_transaction_lifetime(block_number, nonce);
}

// ------------------------------------------------------------------------------
// Account ownership across the bridge
// ------------------------------------------------------------------------------

/// The bytes a bridge account-ownership proof signs: the SCALE encodings of the
/// call, the account, the spec version, the source chain and the target chain,
/// one after another.
pub open spec fn spec_ownership_digest(
    call: Seq<u8>,
    account_id: Seq<u8>,
    spec_version: Seq<u8>,
    source_chain: Seq<u8>,
    target_chain: Seq<u8>,
) -> Seq<u8> {
    call + account_id + spec_version + source_chain + target_chain
}

/// The digest that proves the owner of an account on the source chain wants a
/// call dispatched on the target chain. `call`, `account_id` and `spec_version`
/// are the SCALE encodings of the call, the account and the target runtime's
/// spec version; the chain identifiers are encoded here.
pub fn account_ownership_digest(
    call: &[u8],
    account_id: &[u8],
    spec_version: &[u8],
    source_chain: &ChainId,
    target_chain: &ChainId,
) -> (r: Vec<u8>)
    ensures
        r@ == spec_ownership_digest(
            call@,
            account_id@,
            spec_version@,
            source_chain@,
            target_chain@,
        ),
{
    let mut proof: Vec<u8> = Vec::new();
    proof.extend_from_slice(call);
    proof.extend_from_slice(account_id);
    proof.extend_from_slice(spec_version);
    let source = encode_byte_array(source_chain);
    proof.extend_from_slice(source.as_slice());
    let target = encode_byte_array(target_chain);
    proof.extend_from_slice(target.as_slice());
    assert(proof@ =~= spec_ownership_digest(
        call@,
        account_id@,
        spec_version@,
        source_chain@,
        target_chain@,
    ));
    proof
}

/// The digest a Pangolin account signs to prove it owns the account that
/// dispatches a call on Pangoro. The arguments are the SCALE encodings of the
/// Pangoro call, of the Pangolin account and of Pangoro's spec version.
pub fn pangolin_to_pangoro_account_ownership_digest(
    pangoro_call: &[u8],
    pangolin_account_id: &[u8],
    pangoro_spec_version: &[u8],
) -> (r: Vec<u8>)
    ensures
        r@ == spec_ownership_digest(
            pangoro_call@,
            pangolin_account_id@,
            pangoro_spec_version@,
            PANGOLIN_CHAIN_ID@,
            PANGORO_CHAIN_ID@,
        ),
{
    account_ownership_digest(
        pangoro_call,
        pangolin_account_id,
        pangoro_spec_version,
        &PANGOLIN_CHAIN_ID,
        &PANGORO_CHAIN_ID,
    )
}

/// Reading a digest back: cut at the lengths of the encoded call, account and
/// version, it gives back those encodings, then the source and target chain
/// identifiers, and nothing more.
pub proof fn lemma_ownership_digest_parts(
    call: Seq<u8>,
    account_id: Seq<u8>,
    spec_version: Seq<u8>,
    source_chain: ChainId,
    target_chain: ChainId,
)
    ensures
        ({
            let d = spec_ownership_digest(
                call,
                account_id,
                spec_version,
                source_chain@,
                target_chain@,
            );
            let a = call.len() as int;
            let b = a + account_id.len();
            let c = b + spec_version.len();
            &&& d.len() == c + 8
            &&& d.subrange(0, a) == call
            &&& d.subrange(a, b) == account_id
            &&& d.subrange(b, c) == spec_version
            &&& d.subrange(c, c + 4) == source_chain@
            &&& d.subrange(c + 4, c + 8) == target_chain@
        }),
{
    let d = spec_ownership_digest(call, account_id, spec_version, source_chain@, target_chain@);
    let a = call.len() as int;
    let b = a + account_id.len();
    let c = b + spec_version.len();
    assert(source_chain@.len() == 4);
    assert(target_chain@.len() == 4);
    assert(d.subrange(0, a) =~= call);
    assert(d.subrange(a, b) =~= account_id);
    assert(d.subrange(b, c) =~= spec_version);
    assert(d.subrange(c, c + 4) =~= source_chain@);
    assert(d.subrange(c + 4, c + 8) =~= target_chain@);
}

// ------------------------------------------------------------------------------
// Extrinsics from Ethereum transactions
// ------------------------------------------------------------------------------

/// An unsigned extrinsic: the SCALE encoding of the call it dispatches.
pub struct UncheckedExtrinsic {
    pub function: Vec<u8>,
}

/// An extrinsic as the node sees it: the bytes of an encoded extrinsic, without
/// their length.
pub struct OpaqueExtrinsic(pub Vec<u8>);

/// The encoded call `Ethereum::transact(transaction)`, from the transaction's
/// encoding.
pub open spec fn spec_transact_call(transaction: Seq<u8>) -> Seq<u8> {
    seq![ETHEREUM_PALLET_INDEX, ETHEREUM_TRANSACT_CALL_INDEX] + transaction
}

/// The SCALE encoding of an unsigned extrinsic dispatching `function`: the
/// length-prefixed bytes of the version byte and the call.
pub open spec fn spec_unsigned_extrinsic_encoding(function: Seq<u8>) -> Seq<u8> {
    scale_byte_vec(seq![UNSIGNED_EXTRINSIC_VERSION] + function)
}

impl UncheckedExtrinsic {
    /// An unsigned extrinsic dispatching `function`.
    pub fn new_unsigned(function: Vec<u8>) -> (x: UncheckedExtrinsic)
        ensures
            x.function@ == function@,
    {
        UncheckedExtrinsic { function }
    }

    /// The extrinsic's SCALE encoding.
    pub fn encode(&self) -> (r: Vec<u8>)
        requires
            self.function@.len() < u32::MAX,
        ensures
            r@ == spec_unsigned_extrinsic_encoding(self.function@),
    {
        let mut body: Vec<u8> = Vec::new();
        body.push(UNSIGNED_EXTRINSIC_VERSION);
        body.extend_from_slice(self.function.as_slice());
        assert(body@ =~= seq![UNSIGNED_EXTRINSIC_VERSION] + self.function@);
        encode_byte_vec(body.as_slice())
    }
}

/// The call of the unsigned extrinsic that `input` begins with: its encoding
/// must be a SCALE byte vector whose first byte is the unsigned version byte.
/// `None` when `input` holds no such extrinsic (this type has no signature, so a
/// signed extrinsic gives `None` too).
pub open spec fn spec_decode_unsigned(input: Seq<u8>) -> Option<Seq<u8>> {
    if exists|body: Seq<u8>|
        #[trigger] begins_with_byte_vec(input, body) && body.len() >= 1 && body[0]
            == UNSIGNED_EXTRINSIC_VERSION {
        let body = choose|body: Seq<u8>|
            #[trigger] begins_with_byte_vec(input, body) && body.len() >= 1 && body[0]
                == UNSIGNED_EXTRINSIC_VERSION;
        Some(body.drop_first())
    } else {
        None
    }
}

impl UncheckedExtrinsic {
    /// Reads an unsigned extrinsic from the start of `input`.
    pub fn decode(input: &[u8]) -> (r: Option<UncheckedExtrinsic>)
        ensures
            match r {
                Some(x) => spec_decode_unsigned(input@) == Some(x.function@),
                None => spec_decode_unsigned(input@) is None,
            },
    {
        match decode_byte_vec(input) {
            Ok(body) => {
                proof {
                    assert forall|b: Seq<u8>| #[trigger]
                        begins_with_byte_vec(input@, b) implies b == body@ by {
                        lemma_byte_vec_prefix_unique(input@, b, body@);
                    }
                }
                if body.len() >= 1 && body[0] == UNSIGNED_EXTRINSIC_VERSION {
                    let mut function: Vec<u8> = Vec::new();
                    let mut j: usize = 1;
                    while j < body.len()
                        invariant
                            1 <= j <= body@.len(),
                            function@ == body@.subrange(1, j as int),
                        decreases body@.len() - j,
                    {
                        function.push(body[j]);
                        j = j + 1;
                        assert(function@ =~= body@.subrange(1, j as int));
                    }
                    assert(body@.drop_first() =~= body@.subrange(1, body@.len() as int));
                    Some(UncheckedExtrinsic { function })
                } else {
                    None
                }
            },
            Err(_) => None,
        }
    }
}

impl OpaqueExtrinsic {
    /// The SCALE encoding of the opaque extrinsic: its length, then its bytes.
    pub fn encode(&self) -> (r: Vec<u8>)
        requires
            self.0@.len() <= u32::MAX,
        ensures
            r@ == scale_byte_vec(self.0@),
    {
        encode_byte_vec(self.0.as_slice())
    }
}

/// The opaque form of a converted Ethereum transaction, encoded again, reads
/// back as the unsigned extrinsic the conversion builds: its call is
/// `Ethereum::transact(transaction)`.
pub proof fn lemma_opaque_decodes_to_unsigned(transaction: Seq<u8>)
    requires
        transaction.len() + 3 <= u32::MAX,
    ensures
        spec_decode_unsigned(
            scale_byte_vec(seq![UNSIGNED_EXTRINSIC_VERSION] + spec_transact_call(transaction)),
        ) == Some(spec_transact_call(transaction)),
{
    let body = seq![UNSIGNED_EXTRINSIC_VERSION] + spec_transact_call(transaction);
    let input = scale_byte_vec(body);
    lemma_byte_vec_roundtrip(body, Seq::empty());
    assert(input + Seq::<u8>::empty() =~= input);
    assert(begins_with_byte_vec(input, body) && body.len() >= 1 && body[0]
        == UNSIGNED_EXTRINSIC_VERSION);
    let chosen = choose|b: Seq<u8>|
        #[trigger] begins_with_byte_vec(input, b) && b.len() >= 1 && b[0]
            == UNSIGNED_EXTRINSIC_VERSION;
    lemma_byte_vec_prefix_unique(input, chosen, body);
    assert(body.drop_first() =~= spec_transact_call(transaction));
}

/// The encoded call `Ethereum::transact(transaction)`.
pub fn ethereum_transact_call(transaction: &[u8]) -> (r: Vec<u8>)
    ensures
        r@ == spec_transact_call(transaction@),
{
    let mut call: Vec<u8> = Vec::new();
    call.push(ETHEREUM_PALLET_INDEX);
    call.push(ETHEREUM_TRANSACT_CALL_INDEX);
    call.extend_from_slice(transaction);
    assert(call@ =~= spec_transact_call(transaction@));
    call
}

/// Turns Ethereum transactions into extrinsics of this runtime.
pub struct TransactionConverter;

impl TransactionConverter {
    /// The unsigned extrinsic that submits `transaction` (SCALE-encoded) to the
    /// Ethereum pallet.
    pub fn convert_transaction(&self, transaction: &[u8]) -> (x: UncheckedExtrinsic)
        ensures
            x.function@ == spec_transact_call(transaction@),
    {
        UncheckedExtrinsic::new_unsigned(ethereum_transact_call(transaction))
    }

    /// The same extrinsic, in the node's opaque form: the extrinsic is encoded,
    /// and the encoding read back as a byte vector. That reading always succeeds,
    /// and gives the version byte followed by the call.
    pub fn convert_transaction_opaque(&self, transaction: &[u8]) -> (x: OpaqueExtrinsic)
        requires
            transaction@.len() + 3 <= u32::MAX,
        ensures
            x.0@ == seq![UNSIGNED_EXTRINSIC_VERSION] + spec_transact_call(transaction@),
    {
        let extrinsic = self.convert_transaction(transaction);
        let encoded = extrinsic.encode();
        let ghost body = seq![UNSIGNED_EXTRINSIC_VERSION] + extrinsic.function@;
        proof {
            lemma_byte_vec_roundtrip(body, Seq::empty());
            assert(encoded@ =~= scale_byte_vec(body) + Seq::<u8>::empty());
        }
        match decode_byte_vec(encoded.as_slice()) {
            Ok(bytes) => OpaqueExtrinsic(bytes),
            Err(_) => {
                proof {
                    assert(false);
                }
                OpaqueExtrinsic(Vec::new())
            },
        }
    }
}

/// The Ethereum transactions among `xts`: the encodings of the transactions of
/// the extrinsics that dispatch `Ethereum::transact`, in order.
pub open spec fn spec_extrinsic_filter(xts: Seq<Seq<u8>>) -> Seq<Seq<u8>>
    decreases xts.len(),
{
    if xts.len() == 0 {
        Seq::empty()
    } else {
        let rest = spec_extrinsic_filter(xts.drop_last());
        let f = xts.last();
        if f.len() >= 2 && f[0] == ETHEREUM_PALLET_INDEX && f[1] == ETHEREUM_TRANSACT_CALL_INDEX {
            rest.push(f.subrange(2, f.len() as int))
        } else {
            rest
        }
    }
}

/// The calls of a list of extrinsics.
pub open spec fn functions_of(xts: Seq<UncheckedExtrinsic>) -> Seq<Seq<u8>> {
    xts.map_values(|x: UncheckedExtrinsic| x.function@)
}

/// The Ethereum transactions submitted by the extrinsics `xts`, in order.
pub fn extrinsic_filter(xts: &Vec<UncheckedExtrinsic>) -> (r: Vec<Vec<u8>>)
    ensures
        r@.map_values(|t: Vec<u8>| t@) == spec_extrinsic_filter(functions_of(xts@)),
{
    let mut out: Vec<Vec<u8>> = Vec::new();
    let mut i: usize = 0;
    while i < xts.len()
        invariant
            i <= xts@.len(),
            out@.map_values(|t: Vec<u8>| t@) == spec_extrinsic_filter(
                functions_of(xts@.subrange(0, i as int)),
            ),
        decreases xts@.len() - i,
    {
        let f = &xts[i].function;
        assert(functions_of(xts@.subrange(0, i + 1)).drop_last() =~= functions_of(
            xts@.subrange(0, i as int),
        ));
        assert(functions_of(xts@.subrange(0, i + 1)).last() == f@);
        if f.len() >= 2 && f[0] == ETHEREUM_PALLET_INDEX && f[1] == ETHEREUM_TRANSACT_CALL_INDEX {
            let mut t: Vec<u8> = Vec::new();
            let mut j: usize = 2;
            while j < f.len()
                invariant
                    2 <= j <= f@.len(),
                    t@ == f@.subrange(2, j as int),
                decreases f@.len() - j,
            {
                t.push(f[j]);
                j = j + 1;
                assert(t@ =~= f@.subrange(2, j as int));
            }
            let ghost before = out@;
            out.push(t);
            assert(out@.map_values(|t: Vec<u8>| t@) =~= before.map_values(|t: Vec<u8>| t@).push(
                f@.subrange(2, f@.len() as int),
            ));
        }
        i = i + 1;
    }
    assert(xts@.subrange(0, xts@.len() as int) =~= xts@);
    out
}

/// Filtering the extrinsic made from an Ethereum transaction gives back exactly
/// that transaction.
pub proof fn lemma_filter_recovers_converted(transaction: Seq<u8>)
    ensures
        spec_extrinsic_filter(seq![spec_transact_call(transaction)]) == seq![transaction],
{
    let xs = seq![spec_transact_call(transaction)];
    let f = spec_transact_call(transaction);
    assert(xs.drop_last() =~= Seq::<Seq<u8>>::empty());
    assert(xs.last() == f);
    assert(f[0] == ETHEREUM_PALLET_INDEX && f[1] == ETHEREUM_TRANSACT_CALL_INDEX);
    assert(spec_extrinsic_filter(Seq::<Seq<u8>>::empty()) == Seq::<Seq<u8>>::empty());
    assert(spec_transact_call(transaction).subrange(2, spec_transact_call(transaction).len() as int)
        =~= transaction);
    assert(Seq::<Seq<u8>>::empty().push(transaction) =~= seq![transaction]);
}

/// An extrinsic submits an Ethereum transaction: its call is
/// `Ethereum::transact`, i.e. it starts with the Ethereum pallet's index and the
/// `transact` call's index.
pub open spec fn is_ethereum_transact(f: Seq<u8>) -> bool {
    f.len() >= 2 && f[0] == 41u8 && f[1] == 0u8
}

/// Filtering one more extrinsic adds its Ethereum transaction (what follows the
/// two call-index bytes) when it submits one, and nothing otherwise, whatever
/// came before.
pub proof fn lemma_filter_push(xts: Seq<Seq<u8>>, x: Seq<u8>)
    ensures
        spec_extrinsic_filter(xts.push(x)) == (if is_ethereum_transact(x) {
            spec_extrinsic_filter(xts).push(x.subrange(2, x.len() as int))
        } else {
            spec_extrinsic_filter(xts)
        }),
{
    assert(xts.push(x).drop_last() =~= xts);
    assert(xts.push(x).last() == x);
}

/// Filtering is done extrinsic by extrinsic: the transactions of two lists one
/// after the other are those of the first, then those of the second.
pub proof fn lemma_filter_concat(a: Seq<Seq<u8>>, b: Seq<Seq<u8>>)
    ensures
        spec_extrinsic_filter(a + b) == spec_extrinsic_filter(a) + spec_extrinsic_filter(b),
    decreases b.len(),
{
    if b.len() == 0 {
        assert(a + b =~= a);
        assert(spec_extrinsic_filter(a) + spec_extrinsic_filter(b) =~= spec_extrinsic_filter(a));
    } else {
        let x = b.last();
        let b0 = b.drop_last();
        lemma_filter_concat(a, b0);
        assert(a + b =~= (a + b0).push(x));
        assert(b =~= b0.push(x));
        lemma_filter_push(a + b0, x);
        lemma_filter_push(b0, x);
        if is_ethereum_transact(x) {
            assert((spec_extrinsic_filter(a) + spec_extrinsic_filter(b0)).push(
                x.subrange(2, x.len() as int),
            ) =~= spec_extrinsic_filter(a) + spec_extrinsic_filter(b0).push(
                x.subrange(2, x.len() as int),
            ));
        }
    }
}

/// The number of extrinsics in `xts` that submit Ethereum transactions.
pub open spec fn count_ethereum_transacts(xts: Seq<Seq<u8>>) -> nat
    decreases xts.len(),
{
    if xts.len() == 0 {
        0
    } else {
        count_ethereum_transacts(xts.drop_last()) + (if is_ethereum_transact(xts.last()) {
            1nat
        } else {
            0nat
        })
    }
}

/// The filter keeps one transaction for each extrinsic that submits one: none is
/// lost and none is made up.
pub proof fn lemma_filter_len(xts: Seq<Seq<u8>>)
    ensures
        spec_extrinsic_filter(xts).len() == count_ethereum_transacts(xts),
    decreases xts.len(),
{
    if xts.len() > 0 {
        lemma_filter_len(xts.drop_last());
        lemma_filter_push(xts.drop_last(), xts.last());
        assert(xts.drop_last().push(xts.last()) =~= xts);
    }
}

// ------------------------------------------------------------------------------
// Balances instances
// ------------------------------------------------------------------------------

/// The two balances of this runtime.
#[derive(PartialEq, Eq, Structural, Clone, Copy, Debug)]
pub enum BalancesInstance {
    Ring,
    Kton,
}

/// The balances instance a usable-balance query names: 0 is RING, 1 is KTON, and
/// any other number names none (the query then answers the default).
pub fn usable_balance_instance(instance: u8) -> (r: Option<BalancesInstance>)
    ensures
        r == (if instance == 0 {
            Some(BalancesInstance::Ring)
        } else if instance == 1 {
            Some(BalancesInstance::Kton)
        } else {
            None
        }),
{
    match instance {
        0 => Some(BalancesInstance::Ring),
        1 => Some(BalancesInstance::Kton),
        _ => None,
    }
}

// ------------------------------------------------------------------------------
// Runtime upgrade
// ------------------------------------------------------------------------------

/// A storage operation of a migration.
pub enum MigrationStep {
    /// Remove every value stored under `module`'s `item`.
    RemoveStoragePrefix { module: String, item: String },
    /// Move everything stored under pallet `old` to pallet `new`.
    MovePallet { old: String, new: String },
}

/// A migration: its storage operations, in order, and the weight it reports.
pub struct Migration {
    pub steps: Vec<MigrationStep>,
    pub weight: Weight,
}

/// The migration of this upgrade: drop the fee market's
/// `ConfirmedMessagesThisBlock`, then move `BridgeDispatch` to
/// `BridgePangoroDispatch`; it reports a whole block's weight.
pub open spec fn is_upgrade_migration(m: Migration) -> bool {
    &&& m.steps@.len() == 2
    &&& m.steps@[0] matches MigrationStep::RemoveStoragePrefix { module, item } && module@
        == "FeeMarket"@ && item@ == "ConfirmedMessagesThisBlock"@
    &&& m.steps@[1] matches MigrationStep::MovePallet { old, new } && old@ == "BridgeDispatch"@
        && new@ == "BridgePangoroDispatch"@
    &&& m.weight == MAXIMUM_BLOCK_WEIGHT
}

/// The storage migration run on this runtime upgrade.
pub fn migrate() -> (m: Migration)
    ensures
        is_upgrade_migration(m),
{
    let mut steps: Vec<MigrationStep> = Vec::new();
    steps.push(
        MigrationStep::RemoveStoragePrefix {
            module: String::from_str("FeeMarket"),
            item: String::from_str("ConfirmedMessagesThisBlock"),
        },
    );
    steps.push(
        MigrationStep::MovePallet {
            old: String::from_str("BridgeDispatch"),
            new: String::from_str("BridgePangoroDispatch"),
        },
    );
    Migration { steps, weight: MAXIMUM_BLOCK_WEIGHT }
}

/// A key of the runtime's storage, as migrations see it: the pallet it belongs
/// to, the storage item, and the rest of the key (map keys and the like).
pub struct StorageKey {
    pub pallet: Seq<char>,
    pub item: Seq<char>,
    pub suffix: Seq<u8>,
}

/// The key that `k` would have under pallet `pallet`.
pub open spec fn under_pallet(k: StorageKey, pallet: Seq<char>) -> StorageKey {
    StorageKey { pallet: pallet, item: k.item, suffix: k.suffix }
}

/// What a migration step does to the storage `s`: removing a prefix drops every
/// value of that pallet's item; moving a pallet drops every value of the old
/// pallet and writes each under the same key of the new pallet (over what was
/// there).
pub open spec fn apply_step(s: Map<StorageKey, Seq<u8>>, step: MigrationStep) -> Map<
    StorageKey,
    Seq<u8>,
> {
    match step {
        MigrationStep::RemoveStoragePrefix { module, item } => Map::new(
            |k: StorageKey| s.dom().contains(k) && !(k.pallet == module@ && k.item == item@),
            |k: StorageKey| s[k],
        ),
        MigrationStep::MovePallet { old, new } => Map::new(
            |k: StorageKey|
                (s.dom().contains(k) && k.pallet != old@) || (k.pallet == new@ && s.dom().contains(
                    under_pallet(k, old@),
                )),
            |k: StorageKey|
                if k.pallet == new@ && s.dom().contains(under_pallet(k, old@)) {
                    s[under_pallet(k, old@)]
                } else {
                    s[k]
                },
        ),
    }
}

/// The storage after the steps, taken in order.
pub open spec fn apply_steps(s: Map<StorageKey, Seq<u8>>, steps: Seq<MigrationStep>) -> Map<
    StorageKey,
    Seq<u8>,
>
    decreases steps.len(),
{
    if steps.len() == 0 {
        s
    } else {
        apply_steps(apply_step(s, steps[0]), steps.drop_first())
    }
}

/// The key the post-upgrade check reads: the fee market's
/// `ConfirmedMessagesThisBlock` value.
pub open spec fn confirmed_messages_key() -> StorageKey {
    StorageKey {
        pallet: "FeeMarket"@,
        item: "ConfirmedMessagesThisBlock"@,
        suffix: Seq::empty(),
    }
}

proof fn lemma_pallet_names_differ()
    ensures
        "FeeMarket"@ != "BridgeDispatch"@,
        "FeeMarket"@ != "BridgePangoroDispatch"@,
        "BridgeDispatch"@ != "BridgePangoroDispatch"@,
{
    reveal_strlit("FeeMarket");
    reveal_strlit("BridgeDispatch");
    reveal_strlit("BridgePangoroDispatch");
    assert("FeeMarket"@.len() != "BridgeDispatch"@.len());
    assert("FeeMarket"@.len() != "BridgePangoroDispatch"@.len());
    assert("BridgeDispatch"@.len() != "BridgePangoroDispatch"@.len());
}

/// After the upgrade's migration, from any storage, nothing is left of the fee
/// market's `ConfirmedMessagesThisBlock` and nothing of `BridgeDispatch`.
pub proof fn lemma_migration_leaves(m: Migration, s: Map<StorageKey, Seq<u8>>)
    requires
        is_upgrade_migration(m),
    ensures
        forall|k: StorageKey| #[trigger]
            apply_steps(s, m.steps@).dom().contains(k) ==> !(k.pallet == "FeeMarket"@ && k.item
                == "ConfirmedMessagesThisBlock"@) && k.pallet != "BridgeDispatch"@,
{
    lemma_pallet_names_differ();
    reveal_with_fuel(apply_steps, 3);
    let s1 = apply_step(s, m.steps@[0]);
    assert(m.steps@.drop_first().drop_first() =~= Seq::<MigrationStep>::empty());
    assert(apply_steps(s, m.steps@) == apply_step(s1, m.steps@[1]));
}

/// The post-upgrade check holds right after the upgrade: whatever the storage
/// was, the migration leaves no `ConfirmedMessagesThisBlock` value.
pub proof fn lemma_post_upgrade_holds_after_upgrade(m: Migration, s: Map<StorageKey, Seq<u8>>)
    requires
        is_upgrade_migration(m),
    ensures
        !apply_steps(s, m.steps@).dom().contains(confirmed_messages_key()),
{
    lemma_migration_leaves(m, s);
    let k = confirmed_messages_key();
    if apply_steps(s, m.steps@).dom().contains(k) {
        assert(k.pallet == "FeeMarket"@);
    }
}

/// Running the migration a second time changes nothing more.
pub proof fn lemma_migration_idempotent(m: Migration, s: Map<StorageKey, Seq<u8>>)
    requires
        is_upgrade_migration(m),
    ensures
        apply_steps(apply_steps(s, m.steps@), m.steps@) == apply_steps(s, m.steps@),
{
    lemma_pallet_names_differ();
    lemma_migration_leaves(m, s);
    reveal_with_fuel(apply_steps, 3);
    let a = apply_steps(s, m.steps@);
    assert(m.steps@.drop_first().drop_first() =~= Seq::<MigrationStep>::empty());
    let a1 = apply_step(a, m.steps@[0]);
    assert(a1 =~= a);
    let a2 = apply_step(a1, m.steps@[1]);
    assert forall|k: StorageKey| #[trigger] a2.dom().contains(k) == a.dom().contains(k) by {
        if a.dom().contains(under_pallet(k, "BridgeDispatch"@)) {
            assert(under_pallet(k, "BridgeDispatch"@).pallet == "BridgeDispatch"@);
        }
    }
    assert(a2 =~= a);
    assert(apply_steps(a, m.steps@) == a2);
}

/// The hooks of this runtime's upgrade.
pub struct CustomOnRuntimeUpgrade;

impl CustomOnRuntimeUpgrade {
    /// Nothing to check before the upgrade.
    pub fn pre_upgrade() -> (r: Result<(), &'static str>)
        ensures
            r is Ok,
    {
        Ok(())
    }

    /// After the upgrade, the fee market's `ConfirmedMessagesThisBlock` must be
    /// gone; the check fails (panics) otherwise, so `requires`
    /// leaves the other case out. `confirmed_messages_still_stored` is what the
    /// storage says.
    pub fn post_upgrade(confirmed_messages_still_stored: bool) -> (r: Result<(), &'static str>)
        requires
            !confirmed_messages_still_stored,
        ensures
            r is Ok,
    {
        Ok(())
    }

    /// The upgrade runs the migration.
    pub fn on_runtime_upgrade() -> (m: Migration)
        ensures
            is_upgrade_migration(m),
    {
        migrate()
    }
}

} // verus!
