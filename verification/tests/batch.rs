use escrow::{Address, Env, EscrowContract, EscrowError, OrderStatus};

fn three_orders() -> (Env, Address, Address, Address) {
    let admin = Address::account(0, 1);
    let buyer = Address::account(0, 2);
    let farmer = Address::account(0, 3);
    let t1 = Address::contract(0, 100);
    let t2 = Address::contract(0, 101);
    let mut env = Env::new();
    env.mock_all_auths();
    env.custody.mint(&t1, &buyer, 1000).unwrap();
    EscrowContract::initialize(&mut env, admin, vec![t1, t2]).unwrap();
    env.ledger.set_timestamp(1000);
    assert_eq!(EscrowContract::create_order(&mut env, buyer, farmer, t1, 100), Ok(1));
    assert_eq!(EscrowContract::create_order(&mut env, buyer, farmer, t1, 200), Ok(2));
    env.ledger.set_timestamp(2000);
    assert_eq!(EscrowContract::create_order(&mut env, buyer, farmer, t1, 300), Ok(3));
    (env, buyer, farmer, t1)
}

fn status(env: &Env, id: u64) -> OrderStatus {
    EscrowContract::get_order_details(env, id).unwrap().status
}

#[test]
fn a_batch_refunds_every_order() {
    let (mut env, buyer, _, t1) = three_orders();
    env.ledger.set_timestamp(2000 + 345601);
    assert_eq!(EscrowContract::refund_expired_orders(&mut env, vec![3, 1, 2]), Ok(()));
    assert_eq!(status(&env, 1), OrderStatus::Refunded);
    assert_eq!(status(&env, 2), OrderStatus::Refunded);
    assert_eq!(status(&env, 3), OrderStatus::Refunded);
    assert_eq!(env.custody.balance(&t1, &buyer), 1000);
    assert_eq!(env.custody.in_custody(&t1), 0);
}

#[test]
fn an_empty_batch_does_nothing() {
    let (mut env, buyer, _, t1) = three_orders();
    assert_eq!(EscrowContract::refund_expired_orders(&mut env, vec![]), Ok(()));
    assert_eq!(env.custody.balance(&t1, &buyer), 400);
    assert_eq!(status(&env, 1), OrderStatus::Pending);
}

#[test]
fn a_batch_stops_at_the_first_failure_and_keeps_what_it_did() {
    let (mut env, buyer, _, t1) = three_orders();
    // orders 1 and 2 have expired, order 3 has not
    env.ledger.set_timestamp(1000 + 345601);
    assert_eq!(
        EscrowContract::refund_expired_orders(&mut env, vec![1, 3, 2]),
        Err(EscrowError::OrderNotExpired)
    );
    assert_eq!(status(&env, 1), OrderStatus::Refunded);
    assert_eq!(status(&env, 3), OrderStatus::Pending);
    assert_eq!(status(&env, 2), OrderStatus::Pending);
    assert_eq!(env.custody.balance(&t1, &buyer), 500);
    assert_eq!(env.custody.in_custody(&t1), 500);
}

#[test]
fn a_batch_that_names_an_order_twice_fails_at_the_second() {
    let (mut env, buyer, _, t1) = three_orders();
    env.ledger.set_timestamp(2000 + 345601);
    assert_eq!(
        EscrowContract::refund_expired_orders(&mut env, vec![2, 2, 1]),
        Err(EscrowError::OrderNotPending)
    );
    assert_eq!(status(&env, 2), OrderStatus::Refunded);
    assert_eq!(status(&env, 1), OrderStatus::Pending);
    assert_eq!(env.custody.balance(&t1, &buyer), 600);
}

#[test]
fn a_batch_with_an_unknown_order() {
    let (mut env, buyer, _, t1) = three_orders();
    env.ledger.set_timestamp(2000 + 345601);
    assert_eq!(
        EscrowContract::refund_expired_orders(&mut env, vec![9, 1]),
        Err(EscrowError::OrderDoesNotExist)
    );
    assert_eq!(status(&env, 1), OrderStatus::Pending);
    assert_eq!(env.custody.balance(&t1, &buyer), 400);
}

#[test]
fn a_batch_of_one_is_that_refund() {
    let (mut env, buyer, _, t1) = three_orders();
    env.ledger.set_timestamp(1000 + 345600);
    assert_eq!(
        EscrowContract::refund_expired_orders(&mut env, vec![1]),
        Err(EscrowError::OrderNotExpired)
    );
    env.ledger.set_timestamp(1000 + 345601);
    assert_eq!(EscrowContract::refund_expired_orders(&mut env, vec![1]), Ok(()));
    assert_eq!(status(&env, 1), OrderStatus::Refunded);
    assert_eq!(env.custody.balance(&t1, &buyer), 500);
}
