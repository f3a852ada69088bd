use vstd::prelude::*;

use vstd::arithmetic::div_mod::{
    lemma_div_is_ordered, lemma_div_pos_is_pos, lemma_fundamental_div_mod,
    lemma_hoist_over_denominator, lemma_multiply_divide_le,
};
use vstd::arithmetic::mul::{
    lemma_mul_is_associative, lemma_mul_is_commutative, lemma_mul_is_distributive_add_other_way,
    lemma_mul_inequality, lemma_mul_nonnegative, lemma_mul_upper_bound,
};

use crate::error::ContractError;
use crate::msg::{
    BankMsg, Coin, ExecuteMsg, GetOwnerResponse, GetWithdrawableCoinQuantityResponse,
    InstantiateMsg, MessageInfo, QueryAnswer, QueryMsg, Response,
};
use crate::state::{balance_of, credited, Config, Fee, Ledger};

verus! {

/// The one denomination the ledger accounts for; coins of any other
/// denomination attached to a send are ignored.
pub open spec fn spec_coin_denom() -> Seq<char> {
    "usei"@
}

/// Executable counterpart of [`spec_coin_denom`].
pub fn coin_denom() -> (denom: String)
    ensures
        denom@ == spec_coin_denom(),
{
    "usei".to_owned()
}

/// The fee owed on a gross amount: the percentage component (basis points of
/// 0.01%, rounded down) plus the flat component. Pure and deterministic: the
/// result depends on the schedule and the gross amount alone.
pub open spec fn spec_fee_amount(fee: Fee, gross: int) -> int {
    gross * fee.percent_fee / 10000 + fee.flat_fee
}

/// Splitting the percentage computation at the divisor keeps every
/// intermediate product within the numeric range: the quotient-times-percent
/// part never exceeds the gross amount, and the remainder-times-percent part
/// is small outright.
proof fn lemma_percent_part_decompose(q: int, p: int)
    requires
        0 <= q,
        0 <= p <= 10000,
    ensures
        q * p / 10000 == (q / 10000) * p + (q % 10000) * p / 10000,
        0 <= (q / 10000) * p <= q,
        0 <= (q % 10000) * p <= 99990000,
        0 <= q * p / 10000 <= q,
{
    let a = q / 10000;
    let r = q % 10000;
    lemma_fundamental_div_mod(q, 10000);
    assert(q * p == (10000 * a + r) * p);
    lemma_mul_is_distributive_add_other_way(p, 10000 * a, r);
    lemma_mul_is_associative(10000, a, p);
    lemma_mul_is_commutative(10000, a * p);
    assert(q * p == r * p + (a * p) * 10000);
    lemma_hoist_over_denominator(r * p, a * p, 10000nat);
    assert(q * p / 10000 == a * p + r * p / 10000);

    lemma_mul_nonnegative(a, p);
    lemma_mul_nonnegative(r, p);
    lemma_mul_inequality(p, 10000, a);
    lemma_mul_is_commutative(p, a);
    lemma_mul_is_commutative(10000, a);
    assert(a * p <= a * 10000);
    assert(a * 10000 + r == q);
    lemma_mul_upper_bound(r, 9999, p, 10000);
    lemma_mul_inequality(p, 10000, r);
    lemma_mul_is_commutative(p, r);
    lemma_mul_is_commutative(10000, r);
    lemma_multiply_divide_le(r * p, 10000, r);
    lemma_div_pos_is_pos(r * p, 10000);
    assert(r * p / 10000 <= r);
}

/// The fee owed for sending `coin_quantity`, under `config_data`'s schedule.
/// A fee beyond the balance type's numeric range can never be covered by the
/// sent amount, so it is rejected as such outright.
pub fn get_owner_fee(config_data: &Config, coin_quantity: u128) -> (r: Result<u128, ContractError>)
    requires
        config_data.wf(),
    ensures
        spec_fee_amount(config_data.fee, coin_quantity as int) <= u128::MAX ==> (r matches Ok(fee)
            && fee == spec_fee_amount(config_data.fee, coin_quantity as int)),
        spec_fee_amount(config_data.fee, coin_quantity as int) > u128::MAX ==> (r matches Err(
            ContractError::CannotCoverFee { send_quantity },
        ) && send_quantity == coin_quantity),
{
    let percent_fee = config_data.fee.percent_fee;
    let flat_fee = config_data.fee.flat_fee;
    proof {
        lemma_percent_part_decompose(coin_quantity as int, percent_fee as int);
    }
    // The percentage is applied to the whole multiples of the divisor and to
    // the rest separately, which stays within range where the direct product
    // would not.
    let whole = coin_quantity / 10000;
    let rest = coin_quantity % 10000;
    let percent_part = whole * percent_fee + (rest * percent_fee) / 10000;
    match percent_part.checked_add(flat_fee) {
        Some(fee) => Ok(fee),
        None => Err(ContractError::CannotCoverFee { send_quantity: coin_quantity }),
    }
}

/// The amount attached under the recognized denomination: the first matching
/// coin's amount, zero when no coin matches. Coins of other denominations
/// are ignored entirely, neither summed nor rejected.
pub open spec fn spec_gross_amount(funds: Seq<Coin>) -> u128
    decreases funds.len(),
{
    if funds.len() == 0 {
        0
    } else if funds[0].denom@ == spec_coin_denom() {
        funds[0].amount
    } else {
        spec_gross_amount(funds.drop_first())
    }
}

/// Extract the recognized-denomination amount from the coins the caller
/// attached to this invocation.
pub fn get_coin_quantity_sent_in_message(info: &MessageInfo) -> (quantity: u128)
    ensures
        quantity == spec_gross_amount(info.funds@),
{
    let denom = coin_denom();
    proof {
        assert(info.funds@.skip(0) =~= info.funds@);
    }
    let mut i: usize = 0;
    while i < info.funds.len()
        invariant
            i <= info.funds@.len(),
            denom@ == spec_coin_denom(),
            spec_gross_amount(info.funds@) == spec_gross_amount(info.funds@.skip(i as int)),
        decreases info.funds@.len() - i,
    {
        proof {
            assert(info.funds@.skip(i as int)[0] == info.funds@[i as int]);
        }
        if info.funds[i].denom == denom {
            return info.funds[i].amount;
        }
        proof {
            assert(info.funds@.skip(i as int).drop_first() =~= info.funds@.skip(i as int + 1));
        }
        i = i + 1;
    }
    0
}

/// The even share each recipient receives from what remains of the gross
/// amount once the fee is deducted; on an odd remainder the last unit is
/// lost, not redistributed.
pub open spec fn spec_share_amount(fee: Fee, gross: u128) -> int {
    (gross - spec_fee_amount(fee, gross as int)) / 2
}

/// The ledger after a successful send: one share to each destination and the
/// fee to the owner, credited in that order. Sequential credits make the
/// statement exact even when destinations and owner coincide.
pub open spec fn send_ok_ledger(
    m: Map<Seq<char>, u128>,
    config: Config,
    gross: u128,
    d1: Seq<char>,
    d2: Seq<char>,
) -> Map<Seq<char>, u128> {
    let fee = spec_fee_amount(config.fee, gross as int);
    let share = spec_share_amount(config.fee, gross);
    credited(credited(credited(m, d1, share), d2, share), config.owner@, fee)
}

/// None of the three credits of a send may push a balance past the numeric
/// range of the balance type.
pub open spec fn send_credits_fit(
    m: Map<Seq<char>, u128>,
    config: Config,
    gross: u128,
    d1: Seq<char>,
    d2: Seq<char>,
) -> bool {
    let fee = spec_fee_amount(config.fee, gross as int);
    let share = spec_share_amount(config.fee, gross);
    let m1 = credited(m, d1, share);
    let m2 = credited(m1, d2, share);
    &&& balance_of(m, d1) + share <= u128::MAX
    &&& balance_of(m1, d2) + share <= u128::MAX
    &&& balance_of(m2, config.owner@) + fee <= u128::MAX
}

/// Machine-range precondition of a send: whenever the fee is coverable (so
/// the credits will run), they must fit. Capped by the host's coin supply in
/// practice; stated here because the balance type is finite.
pub open spec fn send_fits(
    m: Map<Seq<char>, u128>,
    config: Config,
    funds: Seq<Coin>,
    d1: Seq<char>,
    d2: Seq<char>,
) -> bool {
    let gross = spec_gross_amount(funds);
    spec_fee_amount(config.fee, gross as int) <= gross ==> send_credits_fit(
        m,
        config,
        gross,
        d1,
        d2,
    )
}

/// Everything a send-coins invocation guarantees, relating the ledger before
/// (`m0`) and after (`m1`) to the attached funds, the destinations and the
/// outcome: a fee larger than the gross amount fails with
/// [`ContractError::CannotCoverFee`] and mutates nothing; otherwise the three
/// credits happen and the response carries no external instruction.
pub open spec fn send_coins_post(
    config: Config,
    m0: Map<Seq<char>, u128>,
    m1: Map<Seq<char>, u128>,
    funds: Seq<Coin>,
    d1: Seq<char>,
    d2: Seq<char>,
    r: Result<Response, ContractError>,
) -> bool {
    let gross = spec_gross_amount(funds);
    let fee = spec_fee_amount(config.fee, gross as int);
    &&& fee > gross ==> {
        &&& r matches Err(ContractError::CannotCoverFee { send_quantity }) && send_quantity
            == gross
        &&& m1 == m0
    }
    &&& fee <= gross ==> {
        &&& r matches Ok(resp) && resp.messages@.len() == 0 && resp.attributes@.len() == 0
        &&& m1 == send_ok_ledger(m0, config, gross, d1, d2)
    }
}

/// Deposit the attached coins: deduct the owner's fee and split the
/// remainder evenly between the two destinations. The destinations must
/// already be validated account identifiers; the funds stay in contract
/// custody, only the ledger changes.
pub fn execute_send_coins(
    config_data: &Config,
    ledger: &mut Ledger,
    info: MessageInfo,
    dest_addr1: String,
    dest_addr2: String,
) -> (r: Result<Response, ContractError>)
    requires
        config_data.wf(),
        send_fits(old(ledger)@, *config_data, info.funds@, dest_addr1@, dest_addr2@),
    ensures
        send_coins_post(
            *config_data,
            old(ledger)@,
            final(ledger)@,
            info.funds@,
            dest_addr1@,
            dest_addr2@,
            r,
        ),
{
    let total_coin_quantity = get_coin_quantity_sent_in_message(&info);

    // Deduct the flat and/or percent fee for the owner from the sent coins.
    let owner_fee = match get_owner_fee(config_data, total_coin_quantity) {
        Ok(fee) => fee,
        Err(e) => {
            return Err(e);
        },
    };
    if owner_fee > total_coin_quantity {
        return Err(ContractError::CannotCoverFee { send_quantity: total_coin_quantity });
    }
    // From the remaining coin balance, distribute the coins between the two
    // destination recipients. The division rounds down, so on an odd
    // remainder the odd coin out stays unaccounted for.
    let coin_quantity_minus_owner_fee = total_coin_quantity - owner_fee;
    let split_coin_quantity = coin_quantity_minus_owner_fee / 2;
    ledger.credit(&dest_addr1, split_coin_quantity);
    ledger.credit(&dest_addr2, split_coin_quantity);
    ledger.credit(&config_data.owner, owner_fee);
    Ok(Response::default())
}

/// Decide ahead of a send whether its three credits stay within the balance
/// type's numeric range, so a caller can test [`execute_send_coins`]'s
/// machine-range precondition instead of assuming it. A send whose fee is
/// not coverable performs no credit, so nothing can overflow there.
pub fn send_credits_would_fit(
    config_data: &Config,
    ledger: &Ledger,
    info: &MessageInfo,
    dest_addr1: &String,
    dest_addr2: &String,
) -> (r: bool)
    requires
        config_data.wf(),
    ensures
        r == send_fits(ledger@, *config_data, info.funds@, dest_addr1@, dest_addr2@),
{
    let gross = get_coin_quantity_sent_in_message(info);
    let fee = match get_owner_fee(config_data, gross) {
        Ok(fee) => fee,
        Err(_) => {
            // The fee exceeds the numeric range, so it exceeds the gross
            // amount: no credit will run.
            return true;
        },
    };
    if fee > gross {
        return true;
    }
    let share = (gross - fee) / 2;
    let first = match ledger.get(dest_addr1).checked_add(share) {
        Some(n) => n,
        None => {
            return false;
        },
    };
    let before_second = if dest_addr2.eq(dest_addr1) {
        first
    } else {
        ledger.get(dest_addr2)
    };
    let second = match before_second.checked_add(share) {
        Some(n) => n,
        None => {
            return false;
        },
    };
    let before_third = if config_data.owner.eq(dest_addr2) {
        second
    } else if config_data.owner.eq(dest_addr1) {
        first
    } else {
        ledger.get(&config_data.owner)
    };
    before_third.checked_add(fee).is_some()
}

/// A response whose sole effect is one release instruction: `quantity` coins
/// of the recognized denomination to account `to`, annotated as a withdrawal.
pub open spec fn release_response(resp: Response, to: Seq<char>, quantity: u128) -> bool {
    &&& resp.messages@.len() == 1
    &&& resp.messages@[0] matches BankMsg::Send { to_address, amount } && to_address@ == to
        && amount@.len() == 1 && amount@[0].denom@ == spec_coin_denom() && amount@[0].amount
        == quantity
    &&& resp.attributes@.len() == 2
    &&& resp.attributes@[0].key@ == "action"@ && resp.attributes@[0].value@ == "withdraw"@
    &&& resp.attributes@[1].key@ == "to"@ && resp.attributes@[1].value@ == to
}

/// Everything a withdraw-coins invocation guarantees: a zero quantity fails
/// with [`ContractError::EmptyWithdrawQuantity`] before any ledger access, a
/// quantity above the caller's balance fails with
/// [`ContractError::InsufficientFunds`], both leaving the ledger as it was;
/// otherwise the balance is decremented and the response releases exactly
/// the decremented quantity — the release instruction never exists without
/// the matching debit.
pub open spec fn withdraw_coins_post(
    m0: Map<Seq<char>, u128>,
    m1: Map<Seq<char>, u128>,
    sender: Seq<char>,
    quantity: u128,
    r: Result<Response, ContractError>,
) -> bool {
    let available = balance_of(m0, sender);
    &&& quantity == 0 ==> {
        &&& r matches Err(ContractError::EmptyWithdrawQuantity { withdraw_quantity })
            && withdraw_quantity == quantity
        &&& m1 == m0
    }
    &&& quantity > 0 && quantity > available ==> {
        &&& r matches Err(ContractError::InsufficientFunds { withdraw_quantity, balance })
            && withdraw_quantity == quantity && balance == available
        &&& m1 == m0
    }
    &&& quantity > 0 && quantity <= available ==> {
        &&& r matches Ok(resp) && release_response(resp, sender, quantity)
        &&& m1 == m0.insert(sender, (available - quantity) as u128)
    }
}

/// Withdraw `quantity` coins: decrement the caller's balance and instruct
/// the host to release that many coins to the caller. The debit happens
/// before the release instruction is produced, and a failure at either guard
/// produces no instruction at all.
pub fn execute_withdraw_coins(ledger: &mut Ledger, info: MessageInfo, quantity: u128) -> (r:
    Result<Response, ContractError>)
    ensures
        withdraw_coins_post(old(ledger)@, final(ledger)@, info.sender@, quantity, r),
{
    let address = info.sender;
    if quantity == 0 {
        return Err(ContractError::EmptyWithdrawQuantity { withdraw_quantity: quantity });
    }
    match ledger.debit(&address, quantity) {
        Ok(_) => (),
        Err(e) => {
            return Err(e);
        },
    };
    let mut amount: Vec<Coin> = Vec::new();
    amount.push(Coin { denom: coin_denom(), amount: quantity });
    let resp = Response::new().add_message(BankMsg::Send { to_address: address.clone(), amount })
        .add_attribute("action".to_owned(), "withdraw".to_owned()).add_attribute(
        "to".to_owned(),
        address,
    );
    Ok(resp)
}

/// Dispatch one state-mutating invocation to its engine.
pub fn execute(config_data: &Config, ledger: &mut Ledger, info: MessageInfo, msg: ExecuteMsg) -> (r:
    Result<Response, ContractError>)
    requires
        config_data.wf(),
        msg matches ExecuteMsg::SendCoins { dest_addr1, dest_addr2 } ==> send_fits(
            old(ledger)@,
            *config_data,
            info.funds@,
            dest_addr1@,
            dest_addr2@,
        ),
    ensures
        match msg {
            ExecuteMsg::SendCoins { dest_addr1, dest_addr2 } => send_coins_post(
                *config_data,
                old(ledger)@,
                final(ledger)@,
                info.funds@,
                dest_addr1@,
                dest_addr2@,
                r,
            ),
            ExecuteMsg::WithdrawCoins { quantity } => withdraw_coins_post(
                old(ledger)@,
                final(ledger)@,
                info.sender@,
                quantity,
                r,
            ),
        },
{
    match msg {
        ExecuteMsg::SendCoins { dest_addr1, dest_addr2 } => execute_send_coins(
            config_data,
            ledger,
            info,
            dest_addr1,
            dest_addr2,
        ),
        ExecuteMsg::WithdrawCoins { quantity } => execute_withdraw_coins(ledger, info, quantity),
    }
}

/// What bootstrap promises: an over-range percentage is rejected before
/// anything else can be built; otherwise the configuration takes the given
/// owner (the instantiating caller when none is given) and the given fee
/// components (zero for each omitted one).
pub open spec fn instantiate_post(
    sender: Seq<char>,
    msg: InstantiateMsg,
    r: Result<Config, ContractError>,
) -> bool {
    let flat = match msg.flat_fee {
        Some(f) => f,
        None => 0,
    };
    let percent = match msg.percent_fee {
        Some(p) => p,
        None => 0,
    };
    let owner = match msg.owner {
        Some(o) => o@,
        None => sender,
    };
    &&& percent > 9999 ==> (r matches Err(ContractError::PercentFeeTooLarge { percent_fee })
        && percent_fee == percent)
    &&& percent <= 9999 ==> (r matches Ok(config) && config.owner@ == owner
        && config.fee.flat_fee == flat && config.fee.percent_fee == percent)
}

/// Build the contract's configuration from the bootstrap message. An
/// explicit owner must already be a validated account identifier; with none
/// given the instantiating caller becomes the owner.
pub fn instantiate(info: MessageInfo, msg: InstantiateMsg) -> (r: Result<Config, ContractError>)
    ensures
        instantiate_post(info.sender@, msg, r),
        r matches Ok(config) ==> config.wf(),
{
    // Take the owner from the message when the creator names one, and let
    // the creator itself own the contract otherwise.
    let owner = match msg.owner {
        Some(explicit_owner) => explicit_owner,
        None => info.sender,
    };
    // Leave each fee component at zero when the creator does not set it.
    let flat_fee = match msg.flat_fee {
        Some(flat_fee) => flat_fee,
        None => 0,
    };
    let percent_fee = match msg.percent_fee {
        Some(percent_fee) => percent_fee,
        None => 0,
    };
    // The percent fee must be between 0 and 9999 inclusive, representing a
    // percentage ranging 0% - 99.99%.
    if percent_fee > 9999 {
        return Err(ContractError::PercentFeeTooLarge { percent_fee });
    }
    Ok(Config { owner, fee: Fee { flat_fee, percent_fee } })
}

/// The balance `valid_address` holds; zero for an account the ledger never
/// saw.
pub fn get_account_balance(ledger: &Ledger, valid_address: &String) -> (balance: u128)
    ensures
        balance == balance_of(ledger@, valid_address@),
{
    ledger.get(valid_address)
}

/// Answer the owner query.
pub fn query_get_owner(config_data: &Config) -> (resp: GetOwnerResponse)
    ensures
        resp.owner == config_data.owner,
{
    GetOwnerResponse { owner: config_data.owner.clone() }
}

/// Answer the configuration query.
pub fn query_config(config_data: &Config) -> (resp: Config)
    ensures
        resp == *config_data,
{
    Config {
        owner: config_data.owner.clone(),
        fee: Fee {
            flat_fee: config_data.fee.flat_fee,
            percent_fee: config_data.fee.percent_fee,
        },
    }
}

/// Answer the balance query for one account.
pub fn query_get_account_balance(ledger: &Ledger, address: String) -> (resp:
    GetWithdrawableCoinQuantityResponse)
    ensures
        resp.address == address,
        resp.balance == balance_of(ledger@, address@),
{
    let balance = get_account_balance(ledger, &address);
    GetWithdrawableCoinQuantityResponse { address, balance }
}

/// Dispatch one read-only query. Reads mutate nothing, so any two queries
/// against one state answer identically.
pub fn query(config_data: &Config, ledger: &Ledger, msg: QueryMsg) -> (r: QueryAnswer)
    ensures
        match msg {
            QueryMsg::GetOwner {  } => r matches QueryAnswer::Owner(resp) && resp.owner
                == config_data.owner,
            QueryMsg::Config {  } => r matches QueryAnswer::Config(resp) && resp == *config_data,
            QueryMsg::GetWithdrawableCoinQuantity { address } => r matches QueryAnswer::Balance(
                resp,
            ) && resp.address == address && resp.balance == balance_of(ledger@, address@),
        },
{
    match msg {
        QueryMsg::GetOwner {  } => QueryAnswer::Owner(query_get_owner(config_data)),
        QueryMsg::Config {  } => QueryAnswer::Config(query_config(config_data)),
        QueryMsg::GetWithdrawableCoinQuantity { address } => QueryAnswer::Balance(
            query_get_account_balance(ledger, address),
        ),
    }
}

/// The fee is monotonic non-decreasing in the gross amount: sending more
/// never lowers the fee. (That the fee is a deterministic function of the
/// schedule and the gross amount is inherent in [`spec_fee_amount`] being a
/// mathematical function.)
pub proof fn lemma_fee_monotonic(fee: Fee, g1: int, g2: int)
    requires
        fee.wf(),
        0 <= g1 <= g2,
    ensures
        spec_fee_amount(fee, g1) <= spec_fee_amount(fee, g2),
{
    lemma_mul_inequality(g1, g2, fee.percent_fee as int);
    lemma_div_is_ordered(g1 * fee.percent_fee, g2 * fee.percent_fee, 10000);
}

/// Conservation of a successful send to three distinct accounts: together
/// their balances grow by exactly twice the share plus the fee, and that
/// total falls short of the gross amount by at most the one odd unit that an
/// uneven split loses.
pub proof fn lemma_send_conservation(
    m: Map<Seq<char>, u128>,
    config: Config,
    gross: u128,
    d1: Seq<char>,
    d2: Seq<char>,
)
    requires
        config.wf(),
        spec_fee_amount(config.fee, gross as int) <= gross,
        send_credits_fit(m, config, gross, d1, d2),
        d1 != d2,
        d1 != config.owner@,
        d2 != config.owner@,
    ensures
        ({
            let fee = spec_fee_amount(config.fee, gross as int);
            let share = spec_share_amount(config.fee, gross);
            let m1 = send_ok_ledger(m, config, gross, d1, d2);
            &&& balance_of(m1, d1) + balance_of(m1, d2) + balance_of(m1, config.owner@)
                == balance_of(m, d1) + balance_of(m, d2) + balance_of(m, config.owner@) + 2 * share
                + fee
            &&& 0 <= gross - (2 * share + fee) <= 1
        }),
{
    let fee = spec_fee_amount(config.fee, gross as int);
    lemma_mul_nonnegative(gross as int, config.fee.percent_fee as int);
    lemma_div_pos_is_pos(gross * config.fee.percent_fee, 10000);
    lemma_div_pos_is_pos(gross - fee, 2);
    lemma_fundamental_div_mod(gross - fee, 2);
}

} // verus!
