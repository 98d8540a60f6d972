use escrow::{Account, Address, AddressKind, CustodyError, DataKey, Ledger, Storage, TokenCustody};

#[test]
fn addresses_are_told_apart_by_kind_and_key() {
    let a = Address::account(1, 2);
    assert_eq!(a, Address { kind: AddressKind::Account, hi: 1, lo: 2 });
    assert_eq!(Address::contract(1, 2), Address { kind: AddressKind::Contract, hi: 1, lo: 2 });
    assert_ne!(a, Address::contract(1, 2));
    assert_ne!(a, Address::account(2, 1));
    assert_ne!(a, Address::account(1, 3));
    let account = Account { token: a, holder: Address::account(0, 9) };
    assert_ne!(account, Account { token: Address::account(0, 9), holder: a });
}

#[test]
fn balances_are_kept_apart_by_token_and_holder() {
    let mut custody = TokenCustody::new();
    let (t1, t2) = (Address::contract(0, 1), Address::contract(0, 2));
    let (a, b) = (Address::account(0, 1), Address::account(0, 2));
    custody.set_balance(&t1, &a, 10);
    custody.set_balance(&t2, &a, 20);
    custody.set_balance(&t1, &b, 30);
    custody.set_balance(&t1, &a, 40);
    assert_eq!(custody.balance(&t1, &a), 40);
    assert_eq!(custody.balance(&t2, &a), 20);
    assert_eq!(custody.balance(&t1, &b), 30);
    assert_eq!(custody.balance(&t2, &b), 0);
    // an account and a contract with one key are two holders
    assert_eq!(custody.balance(&t1, &Address::contract(0, 1)), 0);
}

#[test]
fn custody_moves_exact_amounts() {
    let token = Address::contract(0, 1);
    let other = Address::contract(0, 2);
    let alice = Address::account(0, 3);
    let bob = Address::account(0, 4);
    let mut custody = TokenCustody::new();
    assert_eq!(custody.balance(&token, &alice), 0);
    assert_eq!(custody.in_custody(&token), 0);

    assert_eq!(custody.mint(&token, &alice, 100), Ok(()));
    assert_eq!(custody.mint(&token, &alice, 20), Ok(()));
    assert_eq!(custody.balance(&token, &alice), 120);
    assert_eq!(custody.balance(&other, &alice), 0);
    assert_eq!(custody.balance(&token, &bob), 0);

    assert_eq!(custody.pull(&token, &alice, 50), Ok(()));
    assert_eq!(custody.balance(&token, &alice), 70);
    assert_eq!(custody.in_custody(&token), 50);
    assert_eq!(custody.in_custody(&other), 0);

    assert_eq!(custody.push(&token, &bob, 30), Ok(()));
    assert_eq!(custody.balance(&token, &bob), 30);
    assert_eq!(custody.balance(&token, &alice), 70);
    assert_eq!(custody.in_custody(&token), 20);

    assert_eq!(custody.pull(&token, &alice, 0), Ok(()));
    assert_eq!(custody.push(&token, &alice, 0), Ok(()));
    assert_eq!(custody.balance(&token, &alice), 70);
    assert_eq!(custody.in_custody(&token), 20);
}

#[test]
fn custody_refuses_what_cannot_be_moved() {
    let token = Address::contract(0, 1);
    let alice = Address::account(0, 3);
    let mut custody = TokenCustody::new();
    custody.mint(&token, &alice, 100).unwrap();
    custody.pull(&token, &alice, 40).unwrap();

    assert_eq!(custody.mint(&token, &alice, -1), Err(CustodyError::NegativeAmount));
    assert_eq!(custody.pull(&token, &alice, -1), Err(CustodyError::NegativeAmount));
    assert_eq!(custody.push(&token, &alice, -1), Err(CustodyError::NegativeAmount));
    assert_eq!(custody.pull(&token, &alice, 61), Err(CustodyError::InsufficientBalance));
    assert_eq!(custody.push(&token, &alice, 41), Err(CustodyError::InsufficientBalance));
    assert_eq!(custody.mint(&token, &alice, i128::MAX - 59), Err(CustodyError::BalanceOverflow));
    assert_eq!(custody.mint(&token, &alice, i128::MAX - 60), Ok(()));
    assert_eq!(custody.balance(&token, &alice), i128::MAX);
    assert_eq!(custody.push(&token, &alice, 1), Err(CustodyError::BalanceOverflow));
    assert_eq!(custody.in_custody(&token), 40);

    custody.set_frozen(&token, &alice, true);
    assert_eq!(custody.mint(&token, &alice, 0), Err(CustodyError::AccountFrozen));
    assert_eq!(custody.pull(&token, &alice, 1), Err(CustodyError::AccountFrozen));
    assert_eq!(custody.push(&token, &alice, 0), Err(CustodyError::AccountFrozen));
    assert_eq!(custody.pull(&token, &alice, -1), Err(CustodyError::NegativeAmount));
    custody.set_frozen(&token, &alice, false);

    custody.set_in_custody(&token, i128::MAX);
    assert_eq!(custody.pull(&token, &alice, 1), Err(CustodyError::BalanceOverflow));
    assert_eq!(custody.balance(&token, &alice), i128::MAX);
    custody.set_balance(&token, &alice, 5);
    assert_eq!(custody.balance(&token, &alice), 5);
    assert_eq!(custody.in_custody(&token), i128::MAX);
}

#[test]
fn storage_keeps_each_record_under_its_key() {
    let a = Address::account(0, 1);
    let b = Address::account(0, 2);
    let mut storage = Storage::new();
    assert_eq!(storage.order_count(), 0);
    assert_eq!(storage.supported_tokens(), None);
    assert_eq!(storage.supports(&a), None);
    assert_eq!(storage.buyer_orders(&a), Vec::<u64>::new());
    assert_eq!(storage.farmer_orders(&a), Vec::<u64>::new());

    storage.set_supported_tokens(vec![a]);
    assert_eq!(storage.supports(&a), Some(true));
    assert_eq!(storage.supports(&b), Some(false));
    assert_eq!(storage.supported_tokens(), Some(vec![a]));

    storage.set_buyer_orders(a, vec![1, 2]);
    storage.set_farmer_orders(a, vec![3]);
    storage.set_buyer_orders(a, vec![1, 2, 5]);
    assert_eq!(storage.buyer_orders(&a), vec![1, 2, 5]);
    assert_eq!(storage.farmer_orders(&a), vec![3]);
    assert_eq!(storage.buyer_orders(&b), Vec::<u64>::new());

    storage.set_order_count(7);
    assert_eq!(storage.order_count(), 7);
    assert!(storage.has(&DataKey::OrderCount));
    storage.set_admin(b);
    assert_eq!(storage.admin(), Some(b));

    storage.extend_ttl(DataKey::Admin);
    storage.extend_ttl(DataKey::Order(3));
    assert_eq!(storage.retention(), vec![DataKey::Admin, DataKey::Order(3)]);
}

#[test]
fn the_clock_shows_what_it_was_set_to() {
    let mut ledger = Ledger::new();
    assert_eq!(ledger.timestamp(), 0);
    ledger.set_timestamp(12345);
    assert_eq!(ledger.timestamp(), 12345);
}
