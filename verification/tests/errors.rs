use escrow::{Address, DataKey, Env, EscrowContract, EscrowError, Order, OrderStatus};

fn parties() -> (Address, Address, Address, Address, Address) {
    (
        Address::account(0, 1),
        Address::account(0, 2),
        Address::account(0, 3),
        Address::contract(0, 100),
        Address::contract(0, 101),
    )
}

fn ready() -> Env {
    let (admin, buyer, _, t1, t2) = parties();
    let mut env = Env::new();
    env.mock_all_auths();
    env.custody.mint(&t1, &buyer, 1000).unwrap();
    EscrowContract::initialize(&mut env, admin, vec![t1, t2]).unwrap();
    env
}

#[test]
fn initialize_a_second_time_is_turned_down() {
    let (admin, _, _, t1, t2) = parties();
    let mut env = ready();
    assert_eq!(
        EscrowContract::initialize(&mut env, admin, vec![t1, t2]),
        Err(EscrowError::AlreadyInitialized)
    );
    // whatever the arguments, and before the number of tokens is looked at
    assert_eq!(
        EscrowContract::initialize(&mut env, Address::account(7, 7), vec![]),
        Err(EscrowError::AlreadyInitialized)
    );
    assert_eq!(env.storage.admin(), Some(admin));
    assert_eq!(EscrowContract::get_supported_tokens(&env), vec![t1, t2]);
}

#[test]
fn initialize_needs_two_tokens() {
    let (admin, _, _, t1, t2) = parties();
    let mut env = Env::new();
    assert_eq!(
        EscrowContract::initialize(&mut env, admin, vec![]),
        Err(EscrowError::MustSupportTwoTokens)
    );
    assert_eq!(
        EscrowContract::initialize(&mut env, admin, vec![t1]),
        Err(EscrowError::MustSupportTwoTokens)
    );
    assert_eq!(env.storage.admin(), None);
    assert!(!env.storage.has(&DataKey::Admin));
    assert!(!env.storage.has(&DataKey::SupportedTokens));
    assert_eq!(EscrowContract::get_supported_tokens(&env), Vec::<Address>::new());

    // a failed attempt does not stand in the way of a later one
    assert_eq!(EscrowContract::initialize(&mut env, admin, vec![t1, t2]), Ok(()));
    assert_eq!(env.storage.admin(), Some(admin));
    assert!(env.storage.has(&DataKey::Admin));
    assert!(env.storage.has(&DataKey::SupportedTokens));
    assert_eq!(EscrowContract::get_supported_tokens(&env), vec![t1, t2]);
}

#[test]
fn create_order_with_an_amount_not_positive() {
    let (_, buyer, farmer, t1, _) = parties();
    let mut env = ready();
    for amount in [0i128, -1, -500, i128::MIN] {
        assert_eq!(
            EscrowContract::create_order(&mut env, buyer, farmer, t1, amount),
            Err(EscrowError::AmountMustBePositive)
        );
    }
    assert_eq!(env.custody.balance(&t1, &buyer), 1000);
    assert_eq!(env.custody.in_custody(&t1), 0);
    assert_eq!(env.storage.order_count(), 0);
    assert!(!env.storage.has(&DataKey::OrderCount));
    assert_eq!(EscrowContract::get_orders_by_buyer(&env, buyer), Vec::<u64>::new());
    assert_eq!(EscrowContract::create_order(&mut env, buyer, farmer, t1, 1), Ok(1));
}

#[test]
fn the_amount_is_looked_at_before_the_configuration() {
    let (_, buyer, farmer, t1, _) = parties();
    let mut env = Env::new();
    env.mock_all_auths();
    assert_eq!(
        EscrowContract::create_order(&mut env, buyer, farmer, t1, 0),
        Err(EscrowError::AmountMustBePositive)
    );
    assert_eq!(
        EscrowContract::create_order(&mut env, buyer, farmer, t1, 1),
        Err(EscrowError::ContractNotInitialized)
    );
}

#[test]
fn create_order_with_an_unlisted_token() {
    let (_, buyer, farmer, t1, _) = parties();
    let mut env = ready();
    let unlisted = Address::contract(0, 102);
    env.custody.mint(&unlisted, &buyer, 1000).unwrap();
    assert_eq!(
        EscrowContract::create_order(&mut env, buyer, farmer, unlisted, 500),
        Err(EscrowError::UnsupportedToken)
    );
    // the same key under another kind is another address
    assert_eq!(
        EscrowContract::create_order(&mut env, buyer, farmer, Address::account(0, 100), 500),
        Err(EscrowError::UnsupportedToken)
    );
    assert_eq!(env.custody.balance(&unlisted, &buyer), 1000);
    assert_eq!(env.custody.in_custody(&unlisted), 0);
    assert_eq!(env.storage.order_count(), 0);
    assert_eq!(EscrowContract::create_order(&mut env, buyer, farmer, t1, 500), Ok(1));
}

#[test]
fn create_order_needs_the_buyer_s_authorization() {
    let (admin, buyer, farmer, t1, t2) = parties();
    let mut env = Env::new();
    env.custody.mint(&t1, &buyer, 1000).unwrap();
    EscrowContract::initialize(&mut env, admin, vec![t1, t2]).unwrap();

    assert_eq!(
        EscrowContract::create_order(&mut env, buyer, farmer, t1, 500),
        Err(EscrowError::Unauthorized)
    );
    // the farmer's authorization is not the buyer's
    env.auth.grant(farmer);
    assert_eq!(
        EscrowContract::create_order(&mut env, buyer, farmer, t1, 500),
        Err(EscrowError::Unauthorized)
    );
    assert_eq!(env.custody.balance(&t1, &buyer), 1000);
    assert_eq!(env.storage.order_count(), 0);

    env.auth.grant(buyer);
    assert!(env.auth.allows(&buyer));
    assert_eq!(EscrowContract::create_order(&mut env, buyer, farmer, t1, 500), Ok(1));

    env.auth.clear();
    assert!(!env.auth.allows(&buyer));
    assert_eq!(
        EscrowContract::confirm_receipt(&mut env, buyer, 1),
        Err(EscrowError::Unauthorized)
    );
    assert_eq!(
        EscrowContract::get_order_details(&env, 1).unwrap().status,
        OrderStatus::Pending
    );
}

#[test]
fn create_order_without_the_funds_changes_nothing() {
    let (_, buyer, farmer, t1, t2) = parties();
    let mut env = ready();
    assert_eq!(
        EscrowContract::create_order(&mut env, buyer, farmer, t1, 1001),
        Err(EscrowError::TransferFailed)
    );
    assert_eq!(
        EscrowContract::create_order(&mut env, buyer, farmer, t2, 1),
        Err(EscrowError::TransferFailed)
    );
    assert_eq!(env.custody.balance(&t1, &buyer), 1000);
    assert_eq!(env.custody.in_custody(&t1), 0);
    assert_eq!(env.storage.order_count(), 0);
    assert_eq!(env.storage.order(1), None);
    assert_eq!(EscrowContract::get_orders_by_buyer(&env, buyer), Vec::<u64>::new());
    assert_eq!(EscrowContract::get_orders_by_farmer(&env, farmer), Vec::<u64>::new());
    assert_eq!(env.storage.retention(), Vec::<DataKey>::new());
    assert_eq!(EscrowContract::create_order(&mut env, buyer, farmer, t1, 1000), Ok(1));
    assert_eq!(env.custody.balance(&t1, &buyer), 0);
}

#[test]
fn confirm_receipt_of_an_order_that_does_not_exist() {
    let (_, buyer, _, _, _) = parties();
    let mut env = ready();
    assert_eq!(
        EscrowContract::confirm_receipt(&mut env, buyer, 1),
        Err(EscrowError::OrderDoesNotExist)
    );
    assert_eq!(
        EscrowContract::confirm_receipt(&mut env, buyer, 0),
        Err(EscrowError::OrderDoesNotExist)
    );
}

#[test]
fn confirm_receipt_by_another_than_the_buyer() {
    let (_, buyer, farmer, t1, _) = parties();
    let mut env = ready();
    assert_eq!(EscrowContract::create_order(&mut env, buyer, farmer, t1, 500), Ok(1));
    assert_eq!(
        EscrowContract::confirm_receipt(&mut env, farmer, 1),
        Err(EscrowError::NotBuyer)
    );
    assert_eq!(env.custody.balance(&t1, &farmer), 0);
    assert_eq!(env.custody.in_custody(&t1), 500);
    // who calls is looked at before the status
    assert_eq!(EscrowContract::confirm_receipt(&mut env, buyer, 1), Ok(()));
    assert_eq!(
        EscrowContract::confirm_receipt(&mut env, farmer, 1),
        Err(EscrowError::NotBuyer)
    );
}

#[test]
fn refund_of_an_order_that_does_not_exist() {
    let mut env = ready();
    assert_eq!(
        EscrowContract::refund_expired_order(&mut env, 1),
        Err(EscrowError::OrderDoesNotExist)
    );
}

#[test]
fn refund_needs_no_authorization() {
    let (_, buyer, farmer, t1, _) = parties();
    let mut env = ready();
    assert_eq!(EscrowContract::create_order(&mut env, buyer, farmer, t1, 500), Ok(1));
    env.auth.clear();
    env.ledger.set_timestamp(345601);
    assert_eq!(EscrowContract::refund_expired_order(&mut env, 1), Ok(()));
    assert_eq!(env.custody.balance(&t1, &buyer), 1000);
}

#[test]
fn a_payment_that_cannot_be_made_leaves_the_order_pending() {
    let (_, buyer, farmer, t1, _) = parties();
    let mut env = ready();
    assert_eq!(EscrowContract::create_order(&mut env, buyer, farmer, t1, 500), Ok(1));
    let log = env.storage.retention();

    // the farmer's balance cannot take the amount
    env.custody.set_balance(&t1, &farmer, i128::MAX - 499);
    assert_eq!(
        EscrowContract::confirm_receipt(&mut env, buyer, 1),
        Err(EscrowError::TransferFailed)
    );
    assert_eq!(
        EscrowContract::get_order_details(&env, 1).unwrap().status,
        OrderStatus::Pending
    );
    assert_eq!(env.custody.in_custody(&t1), 500);
    assert_eq!(env.custody.balance(&t1, &farmer), i128::MAX - 499);
    assert_eq!(env.storage.retention(), log);

    env.custody.set_balance(&t1, &farmer, i128::MAX - 500);
    assert_eq!(EscrowContract::confirm_receipt(&mut env, buyer, 1), Ok(()));
    assert_eq!(env.custody.balance(&t1, &farmer), i128::MAX);
}

#[test]
fn a_frozen_account_stops_the_call_and_nothing_is_written() {
    let (_, buyer, farmer, t1, _) = parties();
    let mut env = ready();

    env.custody.set_frozen(&t1, &buyer, true);
    assert!(env.custody.is_frozen(&t1, &buyer));
    assert_eq!(
        EscrowContract::create_order(&mut env, buyer, farmer, t1, 500),
        Err(EscrowError::TransferFailed)
    );
    assert_eq!(env.storage.order_count(), 0);
    assert_eq!(env.custody.balance(&t1, &buyer), 1000);

    env.custody.set_frozen(&t1, &buyer, false);
    assert!(!env.custody.is_frozen(&t1, &buyer));
    assert_eq!(EscrowContract::create_order(&mut env, buyer, farmer, t1, 500), Ok(1));

    env.custody.set_frozen(&t1, &farmer, true);
    assert_eq!(
        EscrowContract::confirm_receipt(&mut env, buyer, 1),
        Err(EscrowError::TransferFailed)
    );
    assert_eq!(
        EscrowContract::get_order_details(&env, 1).unwrap().status,
        OrderStatus::Pending
    );
    assert_eq!(env.custody.in_custody(&t1), 500);
    assert_eq!(env.custody.balance(&t1, &farmer), 0);
    assert_eq!(env.storage.retention(), vec![DataKey::Order(1)]);

    // the buyer's account is not frozen: the refund goes through
    env.ledger.set_timestamp(345601);
    assert_eq!(EscrowContract::refund_expired_order(&mut env, 1), Ok(()));
    assert_eq!(env.custody.balance(&t1, &buyer), 1000);
}

#[test]
fn a_refund_that_cannot_be_paid_leaves_the_order_pending() {
    let (_, buyer, farmer, t1, _) = parties();
    let mut env = ready();
    assert_eq!(EscrowContract::create_order(&mut env, buyer, farmer, t1, 500), Ok(1));
    env.ledger.set_timestamp(345601);

    // the custody account was emptied behind the contract's back
    env.custody.set_in_custody(&t1, 499);
    assert_eq!(
        EscrowContract::refund_expired_order(&mut env, 1),
        Err(EscrowError::TransferFailed)
    );
    assert_eq!(
        EscrowContract::get_order_details(&env, 1).unwrap().status,
        OrderStatus::Pending
    );
    assert_eq!(env.custody.balance(&t1, &buyer), 500);
    assert_eq!(env.custody.in_custody(&t1), 499);
}

#[test]
fn the_retention_of_an_order_is_extended_with_every_write() {
    let (_, buyer, farmer, t1, _) = parties();
    let mut env = ready();
    assert_eq!(env.storage.retention(), Vec::<DataKey>::new());
    assert_eq!(EscrowContract::create_order(&mut env, buyer, farmer, t1, 100), Ok(1));
    assert_eq!(env.storage.retention(), vec![DataKey::Order(1)]);
    assert_eq!(EscrowContract::create_order(&mut env, buyer, farmer, t1, 100), Ok(2));
    assert_eq!(EscrowContract::confirm_receipt(&mut env, buyer, 1), Ok(()));
    env.ledger.set_timestamp(345601);
    assert_eq!(EscrowContract::refund_expired_order(&mut env, 2), Ok(()));
    assert_eq!(
        env.storage.retention(),
        vec![DataKey::Order(1), DataKey::Order(2), DataKey::Order(1), DataKey::Order(2)]
    );
    // calls that are turned down give no instruction
    assert_eq!(
        EscrowContract::refund_expired_order(&mut env, 1),
        Err(EscrowError::OrderNotPending)
    );
    assert_eq!(env.storage.retention().len(), 4);
}

#[test]
fn the_order_records_what_was_agreed() {
    let (_, buyer, farmer, t1, _) = parties();
    let mut env = ready();
    env.ledger.set_timestamp(42);
    assert_eq!(EscrowContract::create_order(&mut env, buyer, farmer, t1, 500), Ok(1));
    let expected = Order {
        id: 1,
        buyer,
        farmer,
        token: t1,
        amount: 500,
        created_at: 42,
        status: OrderStatus::Pending,
    };
    assert_eq!(EscrowContract::get_order_details(&env, 1), Ok(expected));
    assert!(env.storage.has(&DataKey::Order(1)));
    assert!(env.storage.has(&DataKey::BuyerOrders(buyer)));
    assert!(env.storage.has(&DataKey::FarmerOrders(farmer)));
    assert!(env.storage.has(&DataKey::OrderCount));
    assert!(!env.storage.has(&DataKey::Order(2)));
    assert!(!env.storage.has(&DataKey::BuyerOrders(farmer)));
    assert!(!env.storage.has(&DataKey::FarmerOrders(buyer)));

    env.ledger.set_timestamp(43);
    assert_eq!(EscrowContract::confirm_receipt(&mut env, buyer, 1), Ok(()));
    assert_eq!(
        EscrowContract::get_order_details(&env, 1),
        Ok(Order { status: OrderStatus::Completed, ..expected })
    );
    assert!(OrderStatus::Completed.is_terminal());
    assert!(OrderStatus::Refunded.is_terminal());
    assert!(!OrderStatus::Pending.is_terminal());
}
