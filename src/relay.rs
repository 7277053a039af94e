use vstd::prelude::*;
use spl_token_swap::solana_program::pubkey::Pubkey;
use spl_token_swap::instruction::{swap, Swap};

verus! {

/// A 32-byte ledger address.
#[derive(Clone, Copy, Debug)]
pub struct Address(pub [u8; 32]);

/// What the ledger says an account holds, as far as the relay reads it.
#[derive(Clone, Copy, Debug)]
pub enum AccountKind {
    Mint,
    Token { mint: Address, owner: Address },
    Other,
}

/// One account handed in by the caller.
#[derive(Clone, Copy, Debug)]
pub struct AccountRef {
    pub key: Address,
    pub is_signer: bool,
    pub is_writable: bool,
    pub kind: AccountKind,
}

/// The account set of one swap, one field per role.
#[derive(Clone, Copy, Debug)]
pub struct SwapTokens {
    pub destination_mint: AccountRef,
    pub source_mint: AccountRef,
    pub destination: AccountRef,
    pub source: AccountRef,
    pub swap_destination: AccountRef,
    pub swap_source: AccountRef,
    pub pool_mint: AccountRef,
    pub amm: AccountRef,
    pub amm_authority: AccountRef,
    pub pool_fee: AccountRef,
    pub user: AccountRef,
    pub token_swap_program: AccountRef,
    pub token_program: AccountRef,
}

/// One account entry of an outbound instruction.
#[derive(Clone, Copy, Debug)]
pub struct Meta {
    pub key: Address,
    pub is_signer: bool,
    pub is_writable: bool,
}

/// An outbound instruction: target program, positional accounts, payload.
#[derive(Clone, Debug)]
pub struct SwapCall {
    pub program_id: Address,
    pub metas: Vec<Meta>,
    pub data: Vec<u8>,
}

#[derive(Clone, Copy, Debug, PartialEq, Eq, Structural)]
pub enum SwapError {
    InvalidAccountRole,
    ZeroAmount,
    ExternalCallFailed(u64),
}

/// Discriminator of the swap instruction in the external program's layout.
pub const SWAP_TAG: u8 = 1;

/// Length in bytes of an encoded swap payload.
pub const SWAP_DATA_LEN: usize = 17;

pub open spec fn is_default(a: Address) -> bool {
    forall|j: int| 0 <= j < 32 ==> a.0@[j] == 0u8
}

/// The byte of `x` that starts at bit `sh`.
pub open spec fn le_byte(x: u64, sh: u64) -> u8 {
    ((x >> sh) & 0xffu64) as u8
}

/// `x` as eight little-endian bytes.
pub open spec fn le_bytes(x: u64) -> Seq<u8> {
    seq![le_byte(x, 0u64), le_byte(x, 8u64), le_byte(x, 16u64), le_byte(x, 24u64),
         le_byte(x, 32u64), le_byte(x, 40u64), le_byte(x, 48u64), le_byte(x, 56u64)]
}

/// The little-endian number held by the eight bytes of `b` from `k`.
pub open spec fn le_value(b: Seq<u8>, k: int) -> u64 {
    (b[k] as u64) | ((b[k + 1] as u64) << 8u64) | ((b[k + 2] as u64) << 16u64)
        | ((b[k + 3] as u64) << 24u64) | ((b[k + 4] as u64) << 32u64)
        | ((b[k + 5] as u64) << 40u64) | ((b[k + 6] as u64) << 48u64)
        | ((b[k + 7] as u64) << 56u64)
}

/// The swap payload: tag, then both amounts as little-endian u64.
pub open spec fn swap_payload(amount_in: u64, minimum_amount_out: u64) -> Seq<u8> {
    seq![SWAP_TAG] + le_bytes(amount_in) + le_bytes(minimum_amount_out)
}

/// What a reader of the external program's layout takes from `b`.
pub open spec fn decoded_swap(b: Seq<u8>) -> Option<(u64, u64)> {
    if b.len() == SWAP_DATA_LEN && b[0] == SWAP_TAG {
        Some((le_value(b, 1), le_value(b, 9)))
    } else {
        None
    }
}

pub open spec fn is_token_of(t: AccountRef, mint: AccountRef, owner: AccountRef) -> bool {
    match t.kind {
        AccountKind::Token { mint: m, owner: o } => m.0@ == mint.key.0@ && o.0@ == owner.key.0@,
        _ => false,
    }
}

pub open spec fn is_token(t: AccountRef) -> bool {
    t.kind is Token
}

pub open spec fn is_mint(t: AccountRef) -> bool {
    t.kind is Mint
}

/// The address of the SPL Token program.
pub open spec fn token_program_id() -> Seq<u8> {
    seq![
        6u8, 221u8, 246u8, 225u8, 215u8, 101u8, 161u8, 147u8,
        217u8, 203u8, 225u8, 70u8, 206u8, 235u8, 121u8, 172u8,
        28u8, 180u8, 133u8, 237u8, 95u8, 91u8, 55u8, 145u8,
        58u8, 140u8, 245u8, 133u8, 126u8, 255u8, 0u8, 169u8,
    ]
}

/// A well-formed account set: every address set, each account of the class
/// its role needs, the caller's token accounts of the right mints and owned by
/// the caller, the debited and credited accounts writable, the caller a signer,
/// and the token program the SPL Token program.
pub open spec fn valid_accounts(a: SwapTokens) -> bool {
    &&& !is_default(a.destination_mint.key) && !is_default(a.source_mint.key)
    &&& !is_default(a.destination.key) && !is_default(a.source.key)
    &&& !is_default(a.swap_destination.key) && !is_default(a.swap_source.key)
    &&& !is_default(a.pool_mint.key) && !is_default(a.amm.key)
    &&& !is_default(a.amm_authority.key) && !is_default(a.pool_fee.key)
    &&& !is_default(a.user.key) && !is_default(a.token_swap_program.key)
    &&& !is_default(a.token_program.key)
    &&& is_mint(a.destination_mint) && is_mint(a.source_mint) && is_mint(a.pool_mint)
    &&& is_token_of(a.source, a.source_mint, a.user)
    &&& is_token_of(a.destination, a.destination_mint, a.user)
    &&& is_token(a.swap_source) && is_token(a.swap_destination) && is_token(a.pool_fee)
    &&& a.source.is_writable && a.destination.is_writable
    &&& a.swap_source.is_writable && a.swap_destination.is_writable
    &&& a.pool_mint.is_writable && a.pool_fee.is_writable
    &&& a.amm_authority.is_writable && a.user.is_writable
    &&& a.user.is_signer
    &&& a.token_program.key.0@ == token_program_id()
}

/// The account list handed to the cross-program call, in its fixed order;
/// `spl_token_swap::instruction::swap` takes the keys in this order too.
pub open spec fn outbound_order(a: SwapTokens) -> Seq<Address> {
    seq![a.token_swap_program.key, a.token_program.key, a.amm.key, a.amm_authority.key,
         a.user.key, a.source.key, a.swap_source.key, a.swap_destination.key,
         a.destination.key, a.pool_mint.key, a.pool_fee.key]
}

pub open spec fn meta(key: Address, is_signer: bool, is_writable: bool) -> Meta {
    Meta { key, is_signer, is_writable }
}

/// The positional accounts of the external swap instruction.
pub open spec fn swap_metas(a: SwapTokens) -> Seq<Meta> {
    seq![meta(a.amm.key, false, false), meta(a.amm_authority.key, false, false),
         meta(a.user.key, true, false), meta(a.source.key, false, true),
         meta(a.swap_source.key, false, true), meta(a.swap_destination.key, false, true),
         meta(a.destination.key, false, true), meta(a.pool_mint.key, false, true),
         meta(a.pool_fee.key, false, true), meta(a.token_program.key, false, false)]
}

/// The instruction that a swap of `amount_in` with floor `minimum_amount_out`
/// sends to the external program.
pub open spec fn is_swap_call(c: SwapCall, a: SwapTokens, amount_in: u64, minimum_amount_out: u64) -> bool {
    &&& c.program_id == a.token_swap_program.key
    &&& c.metas@ == swap_metas(a)
    &&& c.data@ == swap_payload(amount_in, minimum_amount_out)
}

/// The caller's result for an outcome of the external call.
pub open spec fn outcome_result(o: Result<(), u64>) -> Result<(), SwapError> {
    match o {
        Ok(()) => Ok(()),
        Err(code) => Err(SwapError::ExternalCallFailed(code)),
    }
}

/// The instruction that `spl_token_swap::instruction::swap` builds from `k`.
pub open spec fn is_instruction_of(c: SwapCall, k: Seq<Address>, amount_in: u64, minimum_amount_out: u64) -> bool {
    &&& c.program_id == k[0]
    &&& c.metas@ == seq![meta(k[2], false, false), meta(k[3], false, false),
         meta(k[4], true, false), meta(k[5], false, true), meta(k[6], false, true),
         meta(k[7], false, true), meta(k[8], false, true), meta(k[9], false, true),
         meta(k[10], false, true), meta(k[1], false, false)]
    &&& c.data@ == swap_payload(amount_in, minimum_amount_out)
}

/// Relies on spl_token_swap::instruction::swap: it always returns `Ok`, with
/// the given program id, the ten accounts in its fixed order and flags (no host
/// fee account), and the payload that `SwapInstruction::pack` writes for `Swap`.
#[verifier::external_body]
fn build_swap_instruction(k: &[Address; 11], amount_in: u64, minimum_amount_out: u64) -> (r: Option<SwapCall>)
    ensures
        r is Some,
        is_instruction_of(r->0, k@, amount_in, minimum_amount_out),
{
    let p = |i: usize| Pubkey::new_from_array(k[i].0);
    let ix = swap(&p(0), &p(1), &p(2), &p(3), &p(4), &p(5), &p(6), &p(7), &p(8), &p(9), &p(10),
        None, Swap { amount_in, minimum_amount_out }).ok()?;
    Some(SwapCall {
        program_id: Address(ix.program_id.to_bytes()),
        metas: ix.accounts.iter().map(|m| Meta {
            key: Address(m.pubkey.to_bytes()), is_signer: m.is_signer, is_writable: m.is_writable,
        }).collect(),
        data: ix.data,
    })
}

/// Whether two addresses are the same.
pub fn same_address(a: &Address, b: &Address) -> (r: bool)
    ensures
        r == (a.0@ == b.0@),
{
    let mut i: usize = 0;
    while i < 32
        invariant
            0 <= i <= 32,
            a.0@.len() == 32,
            b.0@.len() == 32,
            forall|j: int| 0 <= j < i ==> a.0@[j] == b.0@[j],
        decreases 32 - i,
    {
        if a.0[i] != b.0[i] {
            return false;
        }
        i += 1;
    }
    assert(a.0@ =~= b.0@);
    true
}

/// Whether an address is the all-zero default.
pub fn is_default_address(a: &Address) -> (r: bool)
    ensures
        r == is_default(*a),
{
    let mut i: usize = 0;
    while i < 32
        invariant
            0 <= i <= 32,
            a.0@.len() == 32,
            forall|j: int| 0 <= j < i ==> a.0@[j] == 0u8,
        decreases 32 - i,
    {
        if a.0[i] != 0 {
            return false;
        }
        i += 1;
    }
    true
}

fn check_token_of(t: &AccountRef, mint: &AccountRef, owner: &AccountRef) -> (r: bool)
    ensures
        r == is_token_of(*t, *mint, *owner),
{
    match &t.kind {
        AccountKind::Token { mint: m, owner: o } => same_address(m, &mint.key) && same_address(o, &owner.key),
        _ => false,
    }
}

fn check_keys(a: &SwapTokens) -> (r: bool)
    ensures
        r == (!is_default(a.destination_mint.key) && !is_default(a.source_mint.key)
            && !is_default(a.destination.key) && !is_default(a.source.key)
            && !is_default(a.swap_destination.key) && !is_default(a.swap_source.key)
            && !is_default(a.pool_mint.key) && !is_default(a.amm.key)
            && !is_default(a.amm_authority.key) && !is_default(a.pool_fee.key)
            && !is_default(a.user.key) && !is_default(a.token_swap_program.key)
            && !is_default(a.token_program.key)),
{
    !is_default_address(&a.destination_mint.key) && !is_default_address(&a.source_mint.key)
        && !is_default_address(&a.destination.key) && !is_default_address(&a.source.key)
        && !is_default_address(&a.swap_destination.key) && !is_default_address(&a.swap_source.key)
        && !is_default_address(&a.pool_mint.key) && !is_default_address(&a.amm.key)
        && !is_default_address(&a.amm_authority.key) && !is_default_address(&a.pool_fee.key)
        && !is_default_address(&a.user.key) && !is_default_address(&a.token_swap_program.key)
        && !is_default_address(&a.token_program.key)
}

/// Relies on anchor_spl::token::ID, the program id that spl_token declares:
/// the address of the SPL Token program.
#[verifier::external_body]
fn spl_token_program() -> (r: Address)
    ensures
        r.0@ == token_program_id(),
{
    Address(anchor_spl::token::ID.to_bytes())
}

/// Whether the account set is well formed for a swap.
pub fn check_accounts(a: &SwapTokens) -> (r: bool)
    ensures
        r == valid_accounts(*a),
{
    check_keys(a)
        && matches!(a.destination_mint.kind, AccountKind::Mint)
        && matches!(a.source_mint.kind, AccountKind::Mint)
        && matches!(a.pool_mint.kind, AccountKind::Mint)
        && check_token_of(&a.source, &a.source_mint, &a.user)
        && check_token_of(&a.destination, &a.destination_mint, &a.user)
        && matches!(a.swap_source.kind, AccountKind::Token { .. })
        && matches!(a.swap_destination.kind, AccountKind::Token { .. })
        && matches!(a.pool_fee.kind, AccountKind::Token { .. })
        && a.source.is_writable && a.destination.is_writable
        && a.swap_source.is_writable && a.swap_destination.is_writable
        && a.pool_mint.is_writable && a.pool_fee.is_writable
        && a.amm_authority.is_writable && a.user.is_writable
        && a.user.is_signer
        && same_address(&a.token_program.key, &spl_token_program())
}

/// The account list of the cross-program call, in its fixed order.
pub fn outbound_accounts(a: &SwapTokens) -> (r: Vec<Address>)
    ensures
        r@ == outbound_order(*a),
{
    let mut r: Vec<Address> = Vec::new();
    r.push(a.token_swap_program.key);
    r.push(a.token_program.key);
    r.push(a.amm.key);
    r.push(a.amm_authority.key);
    r.push(a.user.key);
    r.push(a.source.key);
    r.push(a.swap_source.key);
    r.push(a.swap_destination.key);
    r.push(a.destination.key);
    r.push(a.pool_mint.key);
    r.push(a.pool_fee.key);
    assert(r@ =~= outbound_order(*a));
    r
}

fn read_le(b: &[u8], k: usize) -> (r: u64)
    requires
        k + 8 <= b@.len(),
    ensures
        r == le_value(b@, k as int),
{
    (b[k] as u64) | ((b[k + 1] as u64) << 8u64) | ((b[k + 2] as u64) << 16u64)
        | ((b[k + 3] as u64) << 24u64) | ((b[k + 4] as u64) << 32u64)
        | ((b[k + 5] as u64) << 40u64) | ((b[k + 6] as u64) << 48u64)
        | ((b[k + 7] as u64) << 56u64)
}

/// Reads a swap payload in the external program's layout.
pub fn decode_swap_data(data: &[u8]) -> (r: Option<(u64, u64)>)
    ensures
        r == decoded_swap(data@),
{
    if data.len() != SWAP_DATA_LEN || data[0] != SWAP_TAG {
        return None;
    }
    Some((read_le(data, 1), read_le(data, 9)))
}

/// Validates the request and builds the outbound call and its account list.
pub fn prepare_swap(accounts: &SwapTokens, amount_in: u64, minimum_amount_out: u64) -> (r: Result<(SwapCall, Vec<Address>), SwapError>)
    ensures
        amount_in == 0 ==> (r matches Err(SwapError::ZeroAmount)),
        amount_in > 0 && !valid_accounts(*accounts) ==> (r matches Err(SwapError::InvalidAccountRole)),
        amount_in > 0 && valid_accounts(*accounts) ==> (r matches Ok((c, l))
            && is_swap_call(c, *accounts, amount_in, minimum_amount_out)
            && l@ == outbound_order(*accounts)),
{
    if amount_in == 0 {
        return Err(SwapError::ZeroAmount);
    }
    if !check_accounts(accounts) {
        return Err(SwapError::InvalidAccountRole);
    }
    let k: [Address; 11] = [accounts.token_swap_program.key, accounts.token_program.key,
        accounts.amm.key, accounts.amm_authority.key, accounts.user.key, accounts.source.key,
        accounts.swap_source.key, accounts.swap_destination.key, accounts.destination.key,
        accounts.pool_mint.key, accounts.pool_fee.key];
    assert(k@ =~= outbound_order(*accounts));
    match build_swap_instruction(&k, amount_in, minimum_amount_out) {
        Some(c) => {
            assert(c.metas@ =~= swap_metas(*accounts));
            Ok((c, outbound_accounts(accounts)))
        },
        None => Err(SwapError::InvalidAccountRole),
    }
}

/// The caller's result for an outcome of the external call: its error code
/// is kept as it came.
pub fn finish_swap(outcome: Result<(), u64>) -> (r: Result<(), SwapError>)
    ensures
        r == outcome_result(outcome),
{
    match outcome {
        Ok(()) => Ok(()),
        Err(code) => Err(SwapError::ExternalCallFailed(code)),
    }
}

/// Swaps `amount_in` of the input token through the external program, with
/// `minimum_amount_out` as the floor on the output. `invoke` makes the
/// cross-program call; it is made at most once, and only after the request
/// passed validation: a caller's `invoke` need accept no other call.
pub fn swap_tokens<F: FnOnce(&SwapCall, &Vec<Address>) -> Result<(), u64>>(
    accounts: &SwapTokens,
    amount_in: u64,
    minimum_amount_out: u64,
    invoke: F,
) -> (r: Result<(), SwapError>)
    requires
        forall|c: SwapCall, l: Vec<Address>|
            amount_in > 0 && valid_accounts(*accounts)
                && is_swap_call(c, *accounts, amount_in, minimum_amount_out)
                && l@ == outbound_order(*accounts) ==> invoke.requires((&c, &l)),
    ensures
        amount_in == 0 ==> r == Err::<(), SwapError>(SwapError::ZeroAmount),
        amount_in > 0 && !valid_accounts(*accounts) ==> r == Err::<(), SwapError>(SwapError::InvalidAccountRole),
        amount_in > 0 && valid_accounts(*accounts) ==> exists|c: SwapCall, l: Vec<Address>, o: Result<(), u64>|
            is_swap_call(c, *accounts, amount_in, minimum_amount_out)
                && l@ == outbound_order(*accounts)
                && invoke.ensures((&c, &l), o)
                && r == outcome_result(o),
{
    match prepare_swap(accounts, amount_in, minimum_amount_out) {
        Err(e) => Err(e),
        Ok((c, l)) => {
            let o = invoke(&c, &l);
            finish_swap(o)
        },
    }
}

proof fn lemma_le_value_of_bytes(b: Seq<u8>, k: int, x: u64)
    requires
        0 <= k,
        k + 8 <= b.len(),
        b.subrange(k, k + 8) == le_bytes(x),
    ensures
        le_value(b, k) == x,
{
    assert(b.subrange(k, k + 8)[0] == b[k]);
    assert(b.subrange(k, k + 8)[1] == b[k + 1]);
    assert(b.subrange(k, k + 8)[2] == b[k + 2]);
    assert(b.subrange(k, k + 8)[3] == b[k + 3]);
    assert(b.subrange(k, k + 8)[4] == b[k + 4]);
    assert(b.subrange(k, k + 8)[5] == b[k + 5]);
    assert(b.subrange(k, k + 8)[6] == b[k + 6]);
    assert(b.subrange(k, k + 8)[7] == b[k + 7]);
    assert((x >> 0u64) & 0xffu64 <= 0xffu64) by (bit_vector);
    assert((x >> 8u64) & 0xffu64 <= 0xffu64) by (bit_vector);
    assert((x >> 16u64) & 0xffu64 <= 0xffu64) by (bit_vector);
    assert((x >> 24u64) & 0xffu64 <= 0xffu64) by (bit_vector);
    assert((x >> 32u64) & 0xffu64 <= 0xffu64) by (bit_vector);
    assert((x >> 40u64) & 0xffu64 <= 0xffu64) by (bit_vector);
    assert((x >> 48u64) & 0xffu64 <= 0xffu64) by (bit_vector);
    assert((x >> 56u64) & 0xffu64 <= 0xffu64) by (bit_vector);
    assert(x == ((x >> 0u64) & 0xffu64) | (((x >> 8u64) & 0xffu64) << 8u64)
        | (((x >> 16u64) & 0xffu64) << 16u64) | (((x >> 24u64) & 0xffu64) << 24u64)
        | (((x >> 32u64) & 0xffu64) << 32u64) | (((x >> 40u64) & 0xffu64) << 40u64)
        | (((x >> 48u64) & 0xffu64) << 48u64) | (((x >> 56u64) & 0xffu64) << 56u64)) by (bit_vector);
}

/// Encoding and decoding agree: the swap payload is seventeen bytes, and a
/// reader of the external program's layout takes back exactly the two
/// amounts that were written.
pub proof fn lemma_swap_payload_round_trip(amount_in: u64, minimum_amount_out: u64)
    ensures
        swap_payload(amount_in, minimum_amount_out).len() == SWAP_DATA_LEN,
        decoded_swap(swap_payload(amount_in, minimum_amount_out)) == Some((amount_in, minimum_amount_out)),
{
    let b = swap_payload(amount_in, minimum_amount_out);
    assert(b.subrange(1, 9) =~= le_bytes(amount_in));
    assert(b.subrange(9, 17) =~= le_bytes(minimum_amount_out));
    lemma_le_value_of_bytes(b, 1, amount_in);
    lemma_le_value_of_bytes(b, 9, minimum_amount_out);
}

/// `a` with its two pool token accounts exchanged.
pub open spec fn with_pool_accounts_exchanged(a: SwapTokens) -> SwapTokens {
    SwapTokens { swap_source: a.swap_destination, swap_destination: a.swap_source, ..a }
}

/// The position of the pool accounts in the outbound call carries the trade
/// direction: exchanging them keeps the account set valid, and the account
/// that receives the caller's input becomes the one that pays the output, so
/// the two calls differ whenever the two pool accounts do.
pub proof fn lemma_pool_order_sets_direction(a: SwapTokens)
    requires
        valid_accounts(a),
        a.swap_source.key.0@ != a.swap_destination.key.0@,
    ensures
        valid_accounts(with_pool_accounts_exchanged(a)),
        outbound_order(with_pool_accounts_exchanged(a))[6] == a.swap_destination.key,
        outbound_order(with_pool_accounts_exchanged(a))[7] == a.swap_source.key,
        swap_metas(with_pool_accounts_exchanged(a))[4].key == a.swap_destination.key,
        swap_metas(with_pool_accounts_exchanged(a))[5].key == a.swap_source.key,
        outbound_order(a) != outbound_order(with_pool_accounts_exchanged(a)),
        swap_metas(a) != swap_metas(with_pool_accounts_exchanged(a)),
{
    let b = with_pool_accounts_exchanged(a);
    assert(outbound_order(a)[6] != outbound_order(b)[6]);
    assert(swap_metas(a)[4] != swap_metas(b)[4]);
}
} // verus!
