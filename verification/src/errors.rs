use vstd::prelude::*;

verus! {

/// Why a mutating operation was rejected.
///
/// Every failure aborts the whole operation before any brand record or
/// balance entry is written: there is no partial success. Read-only
/// operations never fail; unknown keys resolve to well-defined defaults.
#[derive(Clone, Copy, Debug, PartialEq, Eq, Structural)]
pub enum Error {
    /// The call is not attributable to the named user.
    Unauthorized,
    /// The target brand was never registered or is not active.
    InactiveBrand,
    /// The requested amount is zero or negative.
    InvalidAmount,
    /// Source and destination brand of an exchange are the same.
    SameBrandExchange,
    /// The source balance is smaller than the requested exchange amount.
    InsufficientBalance,
    /// Crediting the amount would overflow the balance's integer width.
    AmountOverflow,
}

} // verus!
