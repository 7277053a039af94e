use std::cell::Cell;

use swap3::relay::{
    check_accounts, decode_swap_data, finish_swap, outbound_accounts, prepare_swap, same_address,
    swap_tokens, AccountKind, AccountRef, Address, SwapCall, SwapError, SwapTokens,
};

fn addr(n: u8) -> Address {
    let mut b = [0u8; 32];
    b[0] = n;
    b[31] = 0xA0;
    Address(b)
}

const TOKEN_PROGRAM: [u8; 32] = [
    6, 221, 246, 225, 215, 101, 161, 147, 217, 203, 225, 70, 206, 235, 121, 172, 28, 180, 133,
    237, 95, 91, 55, 145, 58, 140, 245, 133, 126, 255, 0, 169,
];

/// The address of role `n` in `valid_set`.
fn role_addr(n: u8) -> Address {
    if n == 13 {
        Address(TOKEN_PROGRAM)
    } else {
        addr(n)
    }
}

fn mint(n: u8) -> AccountRef {
    AccountRef { key: addr(n), is_signer: false, is_writable: false, kind: AccountKind::Mint }
}

fn token(n: u8, m: u8, owner: u8) -> AccountRef {
    AccountRef {
        key: addr(n),
        is_signer: false,
        is_writable: true,
        kind: AccountKind::Token { mint: addr(m), owner: addr(owner) },
    }
}

fn plain(n: u8, is_signer: bool, is_writable: bool) -> AccountRef {
    AccountRef { key: addr(n), is_signer, is_writable, kind: AccountKind::Other }
}

fn valid_set() -> SwapTokens {
    let mut pool_mint = mint(7);
    pool_mint.is_writable = true;
    SwapTokens {
        destination_mint: mint(1),
        source_mint: mint(2),
        destination: token(3, 1, 11),
        source: token(4, 2, 11),
        swap_destination: token(5, 1, 9),
        swap_source: token(6, 2, 9),
        pool_mint,
        amm: plain(8, false, false),
        amm_authority: plain(9, false, true),
        pool_fee: token(10, 7, 9),
        user: plain(11, true, true),
        token_swap_program: plain(12, false, false),
        token_program: AccountRef {
            key: Address(TOKEN_PROGRAM),
            is_signer: false,
            is_writable: false,
            kind: AccountKind::Other,
        },
    }
}

fn key_bytes(a: &Address) -> [u8; 32] {
    a.0
}

#[test]
fn valid_set_is_accepted() {
    assert!(check_accounts(&valid_set()));
}

#[test]
fn zero_amount_fails_without_external_call() {
    let calls = Cell::new(0u32);
    let r = swap_tokens(&valid_set(), 0, 5, |_c: &SwapCall, _l: &Vec<Address>| {
        calls.set(calls.get() + 1);
        Ok(())
    });
    assert_eq!(r, Err(SwapError::ZeroAmount));
    assert_eq!(calls.get(), 0);
}

#[test]
fn wrong_source_mint_fails_without_external_call() {
    let mut a = valid_set();
    a.source = token(4, 1, 11);
    let calls = Cell::new(0u32);
    let r = swap_tokens(&a, 100, 5, |_c: &SwapCall, _l: &Vec<Address>| {
        calls.set(calls.get() + 1);
        Ok(())
    });
    assert_eq!(r, Err(SwapError::InvalidAccountRole));
    assert_eq!(calls.get(), 0);
}

#[test]
fn wrong_destination_mint_is_rejected() {
    let mut a = valid_set();
    a.destination = token(3, 2, 11);
    assert_eq!(prepare_swap(&a, 1, 1).err(), Some(SwapError::InvalidAccountRole));
}

#[test]
fn user_not_signer_is_rejected() {
    let mut a = valid_set();
    a.user.is_signer = false;
    assert_eq!(prepare_swap(&a, 1, 1).err(), Some(SwapError::InvalidAccountRole));
}

#[test]
fn readonly_pool_account_is_rejected() {
    let mut a = valid_set();
    a.swap_source.is_writable = false;
    assert_eq!(prepare_swap(&a, 1, 1).err(), Some(SwapError::InvalidAccountRole));
}

#[test]
fn default_address_is_rejected() {
    let mut a = valid_set();
    a.amm.key = Address([0u8; 32]);
    assert_eq!(prepare_swap(&a, 1, 1).err(), Some(SwapError::InvalidAccountRole));
}

#[test]
fn mint_role_holding_token_account_is_rejected() {
    let mut a = valid_set();
    a.pool_mint = token(7, 1, 9);
    assert_eq!(prepare_swap(&a, 1, 1).err(), Some(SwapError::InvalidAccountRole));
}

#[test]
fn other_token_program_is_rejected() {
    let mut a = valid_set();
    a.token_program.key = addr(13);
    let calls = Cell::new(0u32);
    let r = swap_tokens(&a, 100, 5, |_c: &SwapCall, _l: &Vec<Address>| {
        calls.set(calls.get() + 1);
        Ok(())
    });
    assert_eq!(r, Err(SwapError::InvalidAccountRole));
    assert_eq!(calls.get(), 0);
}

#[test]
fn failed_call_is_not_retried() {
    let calls = Cell::new(0u32);
    let r = swap_tokens(&valid_set(), 10, 9, |_c: &SwapCall, _l: &Vec<Address>| {
        calls.set(calls.get() + 1);
        Err(1)
    });
    assert_eq!(r, Err(SwapError::ExternalCallFailed(1)));
    assert_eq!(calls.get(), 1);
}

#[test]
fn payload_round_trip() {
    let (call, _) = prepare_swap(&valid_set(), 1_000_000, 990_000).unwrap();
    assert_eq!(call.data.len(), 17);
    assert_eq!(
        call.data,
        vec![1, 0x40, 0x42, 0x0F, 0, 0, 0, 0, 0, 0x30, 0x1B, 0x0F, 0, 0, 0, 0, 0]
    );
    assert_eq!(decode_swap_data(&call.data), Some((1_000_000, 990_000)));
}

#[test]
fn payload_of_largest_amounts() {
    let (call, _) = prepare_swap(&valid_set(), u64::MAX, 0).unwrap();
    assert_eq!(decode_swap_data(&call.data), Some((u64::MAX, 0)));
}

#[test]
fn decode_rejects_other_layouts() {
    assert_eq!(decode_swap_data(&[1u8; 16]), None);
    assert_eq!(decode_swap_data(&[1u8; 18]), None);
    let mut b = [0u8; 17];
    b[0] = 2;
    assert_eq!(decode_swap_data(&b), None);
    b[0] = 1;
    b[1] = 7;
    b[16] = 0x80;
    assert_eq!(decode_swap_data(&b), Some((7, 0x8000_0000_0000_0000)));
}

#[test]
fn instruction_targets_swap_program_with_fixed_metas() {
    let a = valid_set();
    let (call, _) = prepare_swap(&a, 10, 9).unwrap();
    assert_eq!(key_bytes(&call.program_id), key_bytes(&addr(12)));
    let expect: Vec<(u8, bool, bool)> = vec![
        (8, false, false),
        (9, false, false),
        (11, true, false),
        (4, false, true),
        (6, false, true),
        (5, false, true),
        (3, false, true),
        (7, false, true),
        (10, false, true),
        (13, false, false),
    ];
    assert_eq!(call.metas.len(), expect.len());
    for (m, (n, s, w)) in call.metas.iter().zip(expect.iter()) {
        assert_eq!(key_bytes(&m.key), key_bytes(&role_addr(*n)));
        assert_eq!(m.is_signer, *s);
        assert_eq!(m.is_writable, *w);
    }
}

#[test]
fn outbound_list_follows_fixed_order() {
    let l = outbound_accounts(&valid_set());
    let order: Vec<u8> = vec![12, 13, 8, 9, 11, 4, 6, 5, 3, 7, 10];
    assert_eq!(l.len(), order.len());
    for (k, n) in l.iter().zip(order.iter()) {
        assert_eq!(key_bytes(k), key_bytes(&role_addr(*n)));
    }
}

#[test]
fn exchanging_pool_accounts_changes_direction() {
    let a = valid_set();
    let mut b = valid_set();
    b.swap_source = a.swap_destination;
    b.swap_destination = a.swap_source;
    let (ca, la) = prepare_swap(&a, 10, 9).unwrap();
    let (cb, lb) = prepare_swap(&b, 10, 9).unwrap();
    assert!(!same_address(&la[6], &lb[6]));
    assert!(same_address(&lb[6], &a.swap_destination.key));
    assert!(same_address(&lb[7], &a.swap_source.key));
    assert!(same_address(&cb.metas[4].key, &a.swap_destination.key));
    assert!(!same_address(&ca.metas[4].key, &cb.metas[4].key));
}

#[test]
fn external_failure_code_is_kept() {
    let r = swap_tokens(&valid_set(), 1_000_000, 990_000, |_c: &SwapCall, _l: &Vec<Address>| {
        Err(0x1_0000_0006)
    });
    assert_eq!(r, Err(SwapError::ExternalCallFailed(0x1_0000_0006)));
}

#[test]
fn successful_call_is_made_once_with_the_request() {
    let calls = Cell::new(0u32);
    let r = swap_tokens(&valid_set(), 1_000_000, 990_000, |c: &SwapCall, l: &Vec<Address>| {
        calls.set(calls.get() + 1);
        assert_eq!(decode_swap_data(&c.data), Some((1_000_000, 990_000)));
        assert_eq!(l.len(), 11);
        Ok(())
    });
    assert_eq!(r, Ok(()));
    assert_eq!(calls.get(), 1);
}

#[test]
fn finish_maps_outcomes() {
    assert_eq!(finish_swap(Ok(())), Ok(()));
    assert_eq!(finish_swap(Err(0)), Err(SwapError::ExternalCallFailed(0)));
}

#[test]
fn same_address_compares_all_bytes() {
    let mut b = addr(1);
    assert!(same_address(&addr(1), &b));
    b.0[17] = 3;
    assert!(!same_address(&addr(1), &b));
}
