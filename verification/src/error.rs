use vstd::prelude::*;

verus! {

/// Every way an operation of the contract can fail. Each error aborts the
/// invocation; the host then discards all state changes the invocation made.
#[derive(Debug)]
pub enum ContractError {
    /// A storage or address-validation failure reported by the host. The
    /// verified operations never produce it themselves; it belongs to the
    /// error surface so that host-level failures can be carried alongside
    /// the contract's own errors.
    Std { msg: String },
    /// A withdrawal asked for more than the caller's ledger balance holds.
    InsufficientFunds { withdraw_quantity: u128, balance: u128 },
    /// A withdrawal asked for zero coins.
    EmptyWithdrawQuantity { withdraw_quantity: u128 },
    /// The attached coins do not cover the configured fee.
    CannotCoverFee { send_quantity: u128 },
    /// A fee schedule with a percentage of 100% or more was rejected at
    /// bootstrap.
    PercentFeeTooLarge { percent_fee: u128 },
}

} // verus!
