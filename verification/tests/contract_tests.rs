use usei_transfer_tokens::contract::{execute, get_owner_fee, instantiate, query};
use usei_transfer_tokens::error::ContractError;
use usei_transfer_tokens::msg::{
    BankMsg, Coin, ExecuteMsg, InstantiateMsg, MessageInfo, QueryAnswer, QueryMsg,
};
use usei_transfer_tokens::state::{Config, Ledger};

fn coin(amount: u128, denom: &str) -> Coin {
    Coin { denom: denom.to_string(), amount }
}

fn coins(amount: u128, denom: &str) -> Vec<Coin> {
    vec![coin(amount, denom)]
}

fn mock_info(sender: &str, funds: Vec<Coin>) -> MessageInfo {
    MessageInfo { sender: sender.to_string(), funds }
}

fn assert_config_state(config: &Config, expected_owner: &str, flat_fee: u128, percent_fee: u128) {
    let ledger = Ledger::new();
    match query(config, &ledger, QueryMsg::Config {}) {
        QueryAnswer::Config(value) => {
            assert_eq!(value.owner, expected_owner);
            assert_eq!(value.fee.flat_fee, flat_fee);
            assert_eq!(value.fee.percent_fee, percent_fee);
        }
        _ => panic!("unexpected query answer"),
    }
}

fn set_address_with_coins(ledger: &mut Ledger, address: &str, coin_quantity: u128) {
    ledger.credit(&address.to_string(), coin_quantity);
}

fn assert_account_balance(config: &Config, ledger: &Ledger, address: &str, expected_balance: u128) {
    let msg = QueryMsg::GetWithdrawableCoinQuantity { address: address.to_string() };
    match query(config, ledger, msg) {
        QueryAnswer::Balance(data) => {
            assert_eq!(data.address, address);
            assert_eq!(data.balance, expected_balance);
        }
        _ => panic!("unexpected query answer"),
    }
}

fn mock_init_no_owner_specified() -> Config {
    let msg = InstantiateMsg { owner: None, flat_fee: None, percent_fee: None };
    let info = mock_info("creator", coins(2, "token"));
    instantiate(info, msg).expect("contract successfully handles InstantiateMsg")
}

fn mock_init_with_fees(flat_fee: u128, percent_fee: u128) -> Config {
    let msg = InstantiateMsg { owner: None, flat_fee: Some(flat_fee), percent_fee: Some(percent_fee) };
    let info = mock_info("creator", coins(2, "token"));
    instantiate(info, msg).expect("contract successfully handles InstantiateMsg")
}

fn mock_init_owner_specified(owner: String) -> Config {
    let msg = InstantiateMsg { owner: Some(owner), flat_fee: None, percent_fee: None };
    let info = mock_info("creator", coins(2, "token"));
    instantiate(info, msg).expect("contract successfully handles InstantiateMsg")
}

#[test]
fn create_contract_with_implict_owner() {
    let config = mock_init_no_owner_specified();
    assert_config_state(&config, "creator", 0, 0);
}

#[test]
fn create_contract_with_explicit_owner() {
    let config = mock_init_owner_specified(String::from("someone"));
    assert_config_state(&config, "someone", 0, 0);
}

#[test]
fn create_contract_with_bad_percent() {
    let msg = InstantiateMsg { owner: None, flat_fee: Some(0), percent_fee: Some(10000000) };
    let info = mock_info("creator", coins(2, "token"));
    let res = instantiate(info, msg);
    match res.unwrap_err() {
        ContractError::PercentFeeTooLarge { .. } => {}
        e => panic!("unexpected error: {:?}", e),
    }
}

#[test]
fn query_contract_owner() {
    let config = mock_init_owner_specified(String::from("someone"));
    let ledger = Ledger::new();
    match query(&config, &ledger, QueryMsg::GetOwner {}) {
        QueryAnswer::Owner(data) => assert_eq!(data.owner, "someone"),
        _ => panic!("unexpected query answer"),
    }
}

#[test]
fn query_account_balance_info() {
    let config = mock_init_no_owner_specified();
    let mut ledger = Ledger::new();

    // Sanity check that Alice's account balance is initially empty.
    assert_account_balance(&config, &ledger, "alice", 0);

    // Manually set Alice's account balance to 123 and expect it in the subsequent query.
    set_address_with_coins(&mut ledger, "alice", 123);

    assert_account_balance(&config, &ledger, "alice", 123);
}

#[test]
fn send_coins_to_two_new_accounts_even_split() {
    let config = mock_init_no_owner_specified();
    let mut ledger = Ledger::new();

    let info = mock_info("creator", coins(300, "usei"));
    let msg = ExecuteMsg::SendCoins {
        dest_addr1: String::from("alice"),
        dest_addr2: String::from("bob"),
    };

    let _res = execute(&config, &mut ledger, info, msg)
        .expect("contract successfully sent the coins");

    // Alice should have exactly half the coins
    // Bob should have the other half of the coins
    // Joe should still have no coins
    assert_account_balance(&config, &ledger, "alice", 150);
    assert_account_balance(&config, &ledger, "bob", 150);
    assert_account_balance(&config, &ledger, "joe", 0);
}

#[test]
fn send_coins_with_flat_fees() {
    let config = mock_init_with_fees(20, 0);
    let mut ledger = Ledger::new();

    let info = mock_info("creator", coins(300, "usei"));
    let msg = ExecuteMsg::SendCoins {
        dest_addr1: String::from("alice"),
        dest_addr2: String::from("bob"),
    };

    let _res = execute(&config, &mut ledger, info, msg)
        .expect("contract successfully sent the coins");

    // 300 coins were sent, minus the flat fee (20), so Alice and Bob should have
    // 140 coins each.
    assert_account_balance(&config, &ledger, "alice", 140);
    assert_account_balance(&config, &ledger, "bob", 140);
    // The contract owner, 'creator', should have 20 coins now.
    assert_account_balance(&config, &ledger, "creator", 20);
}

#[test]
fn send_coins_with_percent_fees() {
    let config = mock_init_with_fees(0, 5000);
    let mut ledger = Ledger::new();

    let info = mock_info("creator", coins(300, "usei"));
    let msg = ExecuteMsg::SendCoins {
        dest_addr1: String::from("alice"),
        dest_addr2: String::from("bob"),
    };

    let _res = execute(&config, &mut ledger, info, msg)
        .expect("contract successfully sent the coins");

    // 300 coins were sent, minus the percent fee (50%), so Alice and Bob should have
    // 75 coins each.
    assert_account_balance(&config, &ledger, "alice", 75);
    assert_account_balance(&config, &ledger, "bob", 75);
    // The contract owner, 'creator', should have 150 coins now.
    assert_account_balance(&config, &ledger, "creator", 150);
}

#[test]
fn send_coins_to_two_new_accounts_odd_split() {
    let config = mock_init_no_owner_specified();
    let mut ledger = Ledger::new();

    let info = mock_info("creator", coins(15, "usei"));
    let msg = ExecuteMsg::SendCoins {
        dest_addr1: String::from("alice"),
        dest_addr2: String::from("bob"),
    };

    let _res = execute(&config, &mut ledger, info, msg)
        .expect("contract successfully sent the coins");

    // Alice and Bob should both have their half of the coins, rounded down.
    // No errors should be thrown.
    assert_account_balance(&config, &ledger, "alice", 7);
    assert_account_balance(&config, &ledger, "bob", 7);
}

#[test]
fn send_coins_to_two_existing_accounts() {
    let config = mock_init_no_owner_specified();
    let mut ledger = Ledger::new();

    let info = mock_info("creator", coins(20, "usei"));
    let msg = ExecuteMsg::SendCoins {
        dest_addr1: String::from("alice"),
        dest_addr2: String::from("bob"),
    };

    let _res = execute(&config, &mut ledger, info, msg)
        .expect("contract successfully sent the coins the first time");

    let info = mock_info("creator", coins(30, "usei"));
    let msg = ExecuteMsg::SendCoins {
        dest_addr1: String::from("alice"),
        dest_addr2: String::from("bob"),
    };
    let _res = execute(&config, &mut ledger, info, msg)
        .expect("contract successfully sent the coins the second time");

    // Between the two transactions, 50 coins were sent.
    // Alice and Bob should both have 25 coins each.
    assert_account_balance(&config, &ledger, "alice", 25);
    assert_account_balance(&config, &ledger, "bob", 25);
}

#[test]
fn send_unrelated_coin() {
    let config = mock_init_no_owner_specified();
    let mut ledger = Ledger::new();

    // Instead of sending 'usei', send 'ueth'.
    let info = mock_info("creator", coins(20, "ueth"));
    let msg = ExecuteMsg::SendCoins {
        dest_addr1: String::from("alice"),
        dest_addr2: String::from("bob"),
    };

    let _res = execute(&config, &mut ledger, info, msg)
        .expect("contract successfully sent the coins");

    // Alice and Bob should *not* see their balances increase.
    assert_account_balance(&config, &ledger, "alice", 0);
    assert_account_balance(&config, &ledger, "bob", 0);
}

#[test]
fn send_usei_and_unrelated_coins_together() {
    let config = mock_init_no_owner_specified();
    let mut ledger = Ledger::new();

    // Send both 'usei' and 'ueth'.
    let info = mock_info("creator", vec![coin(10, "usei"), coin(20, "ueth")]);
    let msg = ExecuteMsg::SendCoins {
        dest_addr1: String::from("alice"),
        dest_addr2: String::from("bob"),
    };

    let _res = execute(&config, &mut ledger, info, msg)
        .expect("contract successfully sent the coins");

    // Alice and Bob should see their balances increase by 5 each, since 10 USEI was sent total.
    assert_account_balance(&config, &ledger, "alice", 5);
    assert_account_balance(&config, &ledger, "bob", 5);
}

#[test]
fn withdraw_coins() {
    let config = mock_init_no_owner_specified();
    let mut ledger = Ledger::new();

    // Give Alice 5 coins to start off with.
    set_address_with_coins(&mut ledger, "alice", 5);
    assert_account_balance(&config, &ledger, "alice", 5);

    // After withdrawing 2 coins, Alice should now only have 3.
    let info = mock_info("alice", vec![]);
    let msg = ExecuteMsg::WithdrawCoins { quantity: 2 };

    let res = execute(&config, &mut ledger, info, msg)
        .expect("contract successfully created the withdraw event");

    // Make sure the release instruction is produced for the host to execute.
    let msg = res.messages.get(0).expect("no message");
    match msg {
        BankMsg::Send { to_address, amount } => {
            assert_eq!(to_address, "alice");
            assert_eq!(amount.len(), 1);
            assert_eq!(amount[0].denom, "usei");
            assert_eq!(amount[0].amount, 2);
        }
    }
    assert_eq!(res.attributes.len(), 2);
    assert_eq!(res.attributes[0].key, "action");
    assert_eq!(res.attributes[0].value, "withdraw");
    assert_eq!(res.attributes[1].key, "to");
    assert_eq!(res.attributes[1].value, "alice");

    assert_account_balance(&config, &ledger, "alice", 3);

    // Alice can withdraw her remaining 3 coins, so she is left with 0.
    let info = mock_info("alice", vec![]);
    let msg = ExecuteMsg::WithdrawCoins { quantity: 3 };

    let _res = execute(&config, &mut ledger, info, msg)
        .expect("contract successfully created the withdraw event");

    assert_account_balance(&config, &ledger, "alice", 0);
}

#[test]
fn withdraw_coins_not_enough_funds() {
    let config = mock_init_no_owner_specified();
    let mut ledger = Ledger::new();

    // Give Alice 5 coins to start off with.
    set_address_with_coins(&mut ledger, "alice", 5);
    assert_account_balance(&config, &ledger, "alice", 5);

    // Alice cannot withdraw 10 coins, since she only has 5.
    let info = mock_info("alice", vec![]);
    let msg = ExecuteMsg::WithdrawCoins { quantity: 10 };

    let res = execute(&config, &mut ledger, info, msg);
    match res.unwrap_err() {
        ContractError::InsufficientFunds { withdraw_quantity, balance } => {
            assert_eq!(withdraw_quantity, 10);
            assert_eq!(balance, 5);
        }
        e => panic!("unexpected error: {:?}", e),
    }

    // Alice should still have her 5 coins left.
    assert_account_balance(&config, &ledger, "alice", 5);
}

#[test]
fn withdraw_coins_empty_quantity() {
    let config = mock_init_no_owner_specified();
    let mut ledger = Ledger::new();

    // Give Alice 5 coins to start off with.
    set_address_with_coins(&mut ledger, "alice", 5);
    assert_account_balance(&config, &ledger, "alice", 5);

    // A withdrawal of zero coins is rejected outright.
    let info = mock_info("alice", vec![]);
    let msg = ExecuteMsg::WithdrawCoins { quantity: 0 };

    let res = execute(&config, &mut ledger, info, msg);
    match res.unwrap_err() {
        ContractError::EmptyWithdrawQuantity { .. } => {}
        e => panic!("unexpected error: {:?}", e),
    }

    // The rejected withdrawal left Alice's balance alone.
    assert_account_balance(&config, &ledger, "alice", 5);
}

#[test]
fn fee_grows_with_gross_amount() {
    // The fee is monotonic non-decreasing in the gross amount, and each value
    // follows the formula floor(gross * percent / 10000) + flat exactly.
    let config = mock_init_with_fees(7, 250);
    let small = get_owner_fee(&config, 100).expect("fee for the smaller amount");
    let large = get_owner_fee(&config, 200).expect("fee for the larger amount");
    assert_eq!(small, 9); // floor(100 * 250 / 10000) + 7 == 2 + 7
    assert_eq!(large, 12); // floor(200 * 250 / 10000) + 7 == 5 + 7
    assert!(small <= large);
}

#[test]
fn repeated_balance_reads_are_identical() {
    // Reads mutate nothing: asking twice without an intervening mutation
    // answers the same both times.
    let config = mock_init_no_owner_specified();
    let mut ledger = Ledger::new();
    set_address_with_coins(&mut ledger, "alice", 42);
    for _ in 0..2 {
        assert_account_balance(&config, &ledger, "alice", 42);
        assert_account_balance(&config, &ledger, "bob", 0);
    }
}

#[test]
fn send_conserves_all_but_the_odd_unit() {
    // With a flat fee of 2, sending 15 leaves a remainder of 13: shares of 6
    // each, the fee of 2 to the owner, and exactly one unit lost.
    let config = mock_init_with_fees(2, 0);
    let mut ledger = Ledger::new();

    let info = mock_info("creator", coins(15, "usei"));
    let msg = ExecuteMsg::SendCoins {
        dest_addr1: String::from("alice"),
        dest_addr2: String::from("bob"),
    };
    let _res = execute(&config, &mut ledger, info, msg)
        .expect("contract successfully sent the coins");

    assert_account_balance(&config, &ledger, "alice", 6);
    assert_account_balance(&config, &ledger, "bob", 6);
    assert_account_balance(&config, &ledger, "creator", 2);
    // 6 + 6 + 2 == 14 == 15 - 1: the odd unit is gone for good.
}

#[test]
fn send_with_flat_and_percent_fees_together() {
    // fee == floor(300 * 5000 / 10000) + 20 == 170; the remaining 130 split
    // into 65 each.
    let config = mock_init_with_fees(20, 5000);
    let mut ledger = Ledger::new();

    let info = mock_info("creator", coins(300, "usei"));
    let msg = ExecuteMsg::SendCoins {
        dest_addr1: String::from("alice"),
        dest_addr2: String::from("bob"),
    };
    let _res = execute(&config, &mut ledger, info, msg)
        .expect("contract successfully sent the coins");

    assert_account_balance(&config, &ledger, "alice", 65);
    assert_account_balance(&config, &ledger, "bob", 65);
    assert_account_balance(&config, &ledger, "creator", 170);
}

#[test]
fn send_to_the_same_account_twice_over() {
    // Both destinations may name one account; it then receives both shares.
    let config = mock_init_no_owner_specified();
    let mut ledger = Ledger::new();

    let info = mock_info("creator", coins(10, "usei"));
    let msg = ExecuteMsg::SendCoins {
        dest_addr1: String::from("alice"),
        dest_addr2: String::from("alice"),
    };
    let _res = execute(&config, &mut ledger, info, msg)
        .expect("contract successfully sent the coins");

    assert_account_balance(&config, &ledger, "alice", 10);
}

#[test]
fn send_that_cannot_cover_the_fee() {
    // A flat fee of 20 exceeds the 10 coins attached: the send fails and no
    // balance moves.
    let config = mock_init_with_fees(20, 0);
    let mut ledger = Ledger::new();

    let info = mock_info("creator", coins(10, "usei"));
    let msg = ExecuteMsg::SendCoins {
        dest_addr1: String::from("alice"),
        dest_addr2: String::from("bob"),
    };
    let res = execute(&config, &mut ledger, info, msg);
    match res.unwrap_err() {
        ContractError::CannotCoverFee { send_quantity } => assert_eq!(send_quantity, 10),
        e => panic!("unexpected error: {:?}", e),
    }
    assert_account_balance(&config, &ledger, "alice", 0);
    assert_account_balance(&config, &ledger, "bob", 0);
    assert_account_balance(&config, &ledger, "creator", 0);
}

#[test]
fn send_with_no_attached_coins() {
    // Nothing attached means a gross amount of zero: the send succeeds with
    // zero fees and zero shares.
    let config = mock_init_no_owner_specified();
    let mut ledger = Ledger::new();

    let info = mock_info("creator", vec![]);
    let msg = ExecuteMsg::SendCoins {
        dest_addr1: String::from("alice"),
        dest_addr2: String::from("bob"),
    };
    let _res = execute(&config, &mut ledger, info, msg)
        .expect("contract successfully sent the coins");

    assert_account_balance(&config, &ledger, "alice", 0);
    assert_account_balance(&config, &ledger, "bob", 0);
}

#[test]
fn percent_fee_boundary_values() {
    // 9999 basis points (99.99%) is the largest accepted percentage; 10000 is
    // rejected before anything is stored.
    let msg = InstantiateMsg { owner: None, flat_fee: None, percent_fee: Some(9999) };
    let info = mock_info("creator", coins(2, "token"));
    let config = instantiate(info, msg).expect("largest percentage accepted");
    assert_eq!(config.fee.percent_fee, 9999);

    let msg = InstantiateMsg { owner: None, flat_fee: None, percent_fee: Some(10000) };
    let info = mock_info("creator", coins(2, "token"));
    match instantiate(info, msg).unwrap_err() {
        ContractError::PercentFeeTooLarge { percent_fee } => assert_eq!(percent_fee, 10000),
        e => panic!("unexpected error: {:?}", e),
    }
}
