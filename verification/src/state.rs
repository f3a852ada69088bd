use vstd::prelude::*;

use crate::error::ContractError;

verus! {

/// The fee schedule the contract was bootstrapped with.
#[derive(Debug)]
pub struct Fee {
    /// Fixed amount charged on every send, in the smallest denomination.
    pub flat_fee: u128,
    /// Percentage charged on every send, in basis points of 0.01%
    /// (9999 means 99.99%). Bootstrap rejects anything above 9999.
    pub percent_fee: u128,
}

impl Fee {
    /// The bootstrap invariant: the percentage stays below 100%.
    pub open spec fn wf(&self) -> bool {
        self.percent_fee <= 9999
    }
}

/// The contract's immutable configuration, written once at bootstrap.
#[derive(Debug)]
pub struct Config {
    /// Account that receives every collected fee.
    pub owner: String,
    pub fee: Fee,
}

impl Config {
    pub open spec fn wf(&self) -> bool {
        self.fee.wf()
    }
}

/// One ledger record: an account and the balance it holds.
#[derive(Debug)]
pub struct AccountBalance {
    pub address: String,
    pub balance: u128,
}

/// The balance a ledger state assigns to an account: accounts without a
/// record hold zero.
pub open spec fn balance_of(m: Map<Seq<char>, u128>, a: Seq<char>) -> u128 {
    if m.dom().contains(a) {
        m[a]
    } else {
        0
    }
}

/// The ledger state after crediting `amount` to account `a`, creating the
/// record if it was absent.
pub open spec fn credited(m: Map<Seq<char>, u128>, a: Seq<char>, amount: int) -> Map<
    Seq<char>,
    u128,
> {
    m.insert(a, (balance_of(m, a) + amount) as u128)
}

/// The ledger state after debiting `amount` from account `a`. An absent
/// record stands for a zero balance, so a debit that succeeds against it
/// (necessarily of zero) leaves the ledger as it was.
pub open spec fn debited(m: Map<Seq<char>, u128>, a: Seq<char>, amount: int) -> Map<
    Seq<char>,
    u128,
> {
    if m.dom().contains(a) {
        m.insert(a, (balance_of(m, a) - amount) as u128)
    } else {
        m
    }
}

/// The account-to-balance map that a sequence of records denotes; a later
/// record for the same address would shadow an earlier one, but well-formed
/// ledgers never hold two records for one address.
spec fn map_of(s: Seq<AccountBalance>) -> Map<Seq<char>, u128>
    decreases s.len(),
{
    if s.len() == 0 {
        Map::empty()
    } else {
        map_of(s.drop_last()).insert(s.last().address@, s.last().balance)
    }
}

/// No two records name the same address.
spec fn addrs_unique(s: Seq<AccountBalance>) -> bool {
    forall|i: int, j: int| 0 <= i < j < s.len() ==> s[i].address@ != s[j].address@
}

/// An address occurs in the denoted map exactly when some record names it.
proof fn lemma_map_of_contains(s: Seq<AccountBalance>, a: Seq<char>)
    ensures
        map_of(s).dom().contains(a) <==> (exists|i: int|
            0 <= i < s.len() && s[i].address@ == a),
    decreases s.len(),
{
    if s.len() > 0 {
        lemma_map_of_contains(s.drop_last(), a);
        if s.last().address@ == a {
            assert(s[s.len() - 1].address@ == a);
        } else if exists|i: int| 0 <= i < s.len() && s[i].address@ == a {
            let i = choose|i: int| 0 <= i < s.len() && s[i].address@ == a;
            assert(s.drop_last()[i].address@ == a);
        }
    }
}

/// In a well-formed ledger, the denoted map sends each record's address to
/// that record's balance.
proof fn lemma_map_of_index(s: Seq<AccountBalance>, i: int)
    requires
        addrs_unique(s),
        0 <= i < s.len(),
    ensures
        map_of(s).dom().contains(s[i].address@),
        map_of(s)[s[i].address@] == s[i].balance,
    decreases s.len(),
{
    if i < s.len() - 1 {
        assert(addrs_unique(s.drop_last()));
        lemma_map_of_index(s.drop_last(), i);
        assert(s[i].address@ != s.last().address@);
    }
}

/// Replacing one record with another for the same address updates the
/// denoted map at that address and nowhere else.
proof fn lemma_map_of_update(s: Seq<AccountBalance>, i: int, r: AccountBalance)
    requires
        addrs_unique(s),
        0 <= i < s.len(),
        r.address@ == s[i].address@,
    ensures
        map_of(s.update(i, r)) == map_of(s).insert(r.address@, r.balance),
    decreases s.len(),
{
    let t = s.update(i, r);
    if i == s.len() - 1 {
        assert(t.drop_last() =~= s.drop_last());
        assert(map_of(s).insert(r.address@, r.balance) =~= map_of(s.drop_last()).insert(
            r.address@,
            r.balance,
        ));
    } else {
        assert(addrs_unique(s.drop_last()));
        assert(t.drop_last() =~= s.drop_last().update(i, r));
        lemma_map_of_update(s.drop_last(), i, r);
        assert(t.last() == s.last());
        assert(r.address@ != s.last().address@);
        assert(map_of(s.drop_last()).insert(r.address@, r.balance).insert(
            s.last().address@,
            s.last().balance,
        ) =~= map_of(s).insert(r.address@, r.balance));
    }
}

/// Appending a record for a fresh address extends the denoted map with it.
proof fn lemma_map_of_push(s: Seq<AccountBalance>, r: AccountBalance)
    ensures
        map_of(s.push(r)) == map_of(s).insert(r.address@, r.balance),
{
    assert(s.push(r).drop_last() =~= s);
    assert(s.push(r).last() == r);
}

/// Reads are idempotent. What [`Ledger::get`] returns is pinned to
/// `balance_of` of the ledger's state, and `get` borrows the ledger
/// immutably, so repeated reads without an intervening mutation return
/// identical results.
pub proof fn lemma_reads_idempotent(
    m: Map<Seq<char>, u128>,
    a: Seq<char>,
    first: u128,
    second: u128,
)
    requires
        first == balance_of(m, a),
        second == balance_of(m, a),
    ensures
        first == second,
{
}

/// The ledger: one unsigned balance per account, in a single flat key space.
/// Its state is read through the view `self@`, a map from account identifier
/// to balance; accounts outside the map's domain hold zero (see
/// [`balance_of`]). Records are created lazily on first credit and never
/// removed.
pub struct Ledger {
    accounts: Vec<AccountBalance>,
}

impl View for Ledger {
    type V = Map<Seq<char>, u128>;

    closed spec fn view(&self) -> Map<Seq<char>, u128> {
        map_of(self.accounts@)
    }
}

impl Ledger {
    #[verifier::type_invariant]
    spec fn wf(self) -> bool {
        addrs_unique(self.accounts@)
    }

    /// An empty ledger: every account holds zero.
    pub fn new() -> (ledger: Ledger)
        ensures
            ledger@ == Map::<Seq<char>, u128>::empty(),
    {
        Ledger { accounts: Vec::new() }
    }

    /// The position of the record for `address`, if one exists.
    fn find(&self, address: &String) -> (r: Option<usize>)
        ensures
            match r {
                Some(i) => i < self.accounts@.len() && self.accounts@[i as int].address@
                    == address@,
                None => forall|j: int|
                    0 <= j < self.accounts@.len() ==> self.accounts@[j].address@ != address@,
            },
    {
        let mut i: usize = 0;
        while i < self.accounts.len()
            invariant
                i <= self.accounts@.len(),
                forall|j: int| 0 <= j < i ==> self.accounts@[j].address@ != address@,
            decreases self.accounts@.len() - i,
        {
            if self.accounts[i].address == *address {
                return Some(i);
            }
            i = i + 1;
        }
        None
    }

    /// The balance `address` currently holds; zero for an account that was
    /// never credited. A read mutates nothing, so repeated reads without an
    /// intervening mutation return identical results.
    pub fn get(&self, address: &String) -> (balance: u128)
        ensures
            balance == balance_of(self@, address@),
    {
        proof {
            use_type_invariant(&*self);
        }
        match self.find(address) {
            Some(i) => {
                proof {
                    lemma_map_of_index(self.accounts@, i as int);
                }
                self.accounts[i].balance
            },
            None => {
                proof {
                    lemma_map_of_contains(self.accounts@, address@);
                }
                0
            },
        }
    }

    /// Add `amount` to the balance of `address`, creating the record if it
    /// is absent, and return the new balance. The caller must rule out
    /// overflowing the balance's numeric range.
    pub fn credit(&mut self, address: &String, amount: u128) -> (new_balance: u128)
        requires
            balance_of(old(self)@, address@) + amount <= u128::MAX,
        ensures
            new_balance == balance_of(old(self)@, address@) + amount,
            final(self)@ == credited(old(self)@, address@, amount as int),
    {
        proof {
            use_type_invariant(&*self);
        }
        match self.find(address) {
            Some(i) => {
                proof {
                    lemma_map_of_index(self.accounts@, i as int);
                }
                let updated = AccountBalance {
                    address: self.accounts[i].address.clone(),
                    balance: self.accounts[i].balance + amount,
                };
                let new_balance = updated.balance;
                proof {
                    lemma_map_of_update(self.accounts@, i as int, updated);
                    assert(addrs_unique(self.accounts@.update(i as int, updated)));
                }
                let mut accounts: Vec<AccountBalance> = Vec::new();
                core::mem::swap(&mut accounts, &mut self.accounts);
                accounts[i] = updated;
                self.accounts = accounts;
                new_balance
            },
            None => {
                proof {
                    lemma_map_of_contains(self.accounts@, address@);
                }
                let record = AccountBalance { address: address.clone(), balance: amount };
                proof {
                    lemma_map_of_push(self.accounts@, record);
                    assert(addrs_unique(self.accounts@.push(record)));
                }
                let mut accounts: Vec<AccountBalance> = Vec::new();
                core::mem::swap(&mut accounts, &mut self.accounts);
                accounts.push(record);
                self.accounts = accounts;
                amount
            },
        }
    }

    /// Remove `amount` from the balance of `address` and return the new
    /// balance; fail with [`ContractError::InsufficientFunds`], mutating
    /// nothing, when the balance cannot cover it.
    pub fn debit(&mut self, address: &String, amount: u128) -> (r: Result<u128, ContractError>)
        ensures
            amount <= balance_of(old(self)@, address@) ==> {
                &&& r matches Ok(new_balance) && new_balance == balance_of(old(self)@, address@)
                    - amount
                &&& final(self)@ == debited(old(self)@, address@, amount as int)
            },
            amount > balance_of(old(self)@, address@) ==> {
                &&& r matches Err(ContractError::InsufficientFunds { withdraw_quantity, balance })
                    && withdraw_quantity == amount && balance == balance_of(old(self)@, address@)
                &&& final(self)@ == old(self)@
            },
    {
        proof {
            use_type_invariant(&*self);
        }
        match self.find(address) {
            Some(i) => {
                proof {
                    lemma_map_of_index(self.accounts@, i as int);
                }
                let current = self.accounts[i].balance;
                if current >= amount {
                    let updated = AccountBalance {
                        address: self.accounts[i].address.clone(),
                        balance: current - amount,
                    };
                    let new_balance = updated.balance;
                    proof {
                        lemma_map_of_update(self.accounts@, i as int, updated);
                        assert(addrs_unique(self.accounts@.update(i as int, updated)));
                    }
                    let mut accounts: Vec<AccountBalance> = Vec::new();
                    core::mem::swap(&mut accounts, &mut self.accounts);
                    accounts[i] = updated;
                    self.accounts = accounts;
                    Ok(new_balance)
                } else {
                    Err(ContractError::InsufficientFunds {
                        withdraw_quantity: amount,
                        balance: current,
                    })
                }
            },
            None => {
                proof {
                    lemma_map_of_contains(self.accounts@, address@);
                }
                if amount == 0 {
                    Ok(0)
                } else {
                    Err(ContractError::InsufficientFunds { withdraw_quantity: amount, balance: 0 })
                }
            },
        }
    }
}

} // verus!
