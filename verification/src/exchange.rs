use vstd::prelude::*;
use crate::brand::Brand;
use crate::brand::BrandView;
use crate::brand::sentinel_view;
use crate::errors::Error;
use crate::ledger::BalanceLedger;
use crate::ledger::UserBalance;
use crate::registry::BrandRegistry;
use crate::registry::lemma_dense_ids;

verus! {

/// The Exchange Engine: the public surface of the ledger. It coordinates the
/// Brand Registry and the Balance Ledger and enforces every business rule;
/// it owns no state beyond those two components.
///
/// Both mutating operations take the outcome of the external caller
/// authentication as a plain `authorized` flag: the hosting program performs
/// the actual check and hands its verdict in. Every mutating operation
/// validates first and writes only when every check has passed, so a
/// rejected call leaves the state untouched.
pub struct LoyaltyTokenExchange {
    registry: BrandRegistry,
    ledger: BalanceLedger,
}

impl LoyaltyTokenExchange {
    /// Engine invariant: both components are well formed and no stored
    /// balance is negative — a balance is the sum of all amounts issued to
    /// it minus all amounts exchanged away from it, and every debit is
    /// checked against the current value first.
    pub closed spec fn wf(self) -> bool {
        &&& self.registry.wf()
        &&& self.ledger.wf()
        &&& forall|key: UserBalance|
            self.ledger.balances().contains_key(key) ==> #[trigger] self.ledger.balances()[key]
                >= 0
    }

    /// The number of brands ever registered.
    pub closed spec fn spec_brand_count(self) -> u64 {
        self.registry.spec_count()
    }

    /// The record a brand lookup yields: the stored brand for an assigned
    /// id, the sentinel for any other id.
    pub closed spec fn spec_brand(self, brand_id: u64) -> BrandView {
        self.registry.spec_brand(brand_id)
    }

    /// Whether a brand id names an active brand. The sentinel for an unknown
    /// id is inactive, so an unknown id is never active.
    pub open spec fn spec_brand_active(self, brand_id: u64) -> bool {
        self.spec_brand(brand_id).is_active
    }

    /// Every written balance entry, as a map over balance keys.
    pub closed spec fn spec_balances(self) -> Map<UserBalance, i64> {
        self.ledger.balances()
    }

    /// The balance a user holds for a brand: the written value, or zero for
    /// a pair that was never written.
    pub open spec fn spec_balance(self, user: u64, brand_id: u64) -> i64 {
        let key = UserBalance::Balance(user, brand_id);
        if self.spec_balances().contains_key(key) {
            self.spec_balances()[key]
        } else {
            0
        }
    }

    /// The outcome of validating an issue request, checked in order: caller
    /// authorization, then brand activation (which also rejects unknown
    /// brands), then amount positivity, then room in the balance width.
    pub open spec fn spec_issue_error(
        self,
        authorized: bool,
        user: u64,
        brand_id: u64,
        amount: i64,
    ) -> Option<Error> {
        if !authorized {
            Some(Error::Unauthorized)
        } else if !self.spec_brand_active(brand_id) {
            Some(Error::InactiveBrand)
        } else if amount <= 0 {
            Some(Error::InvalidAmount)
        } else if self.spec_balance(user, brand_id) + amount > i64::MAX {
            Some(Error::AmountOverflow)
        } else {
            None
        }
    }

    /// The outcome of validating an exchange request, checked in order:
    /// caller authorization, amount positivity, distinct brands, both brands
    /// active, a source balance covering the amount, and room in the
    /// destination's balance width.
    pub open spec fn spec_exchange_error(
        self,
        authorized: bool,
        user: u64,
        from_brand: u64,
        to_brand: u64,
        amount: i64,
    ) -> Option<Error> {
        if !authorized {
            Some(Error::Unauthorized)
        } else if amount <= 0 {
            Some(Error::InvalidAmount)
        } else if from_brand == to_brand {
            Some(Error::SameBrandExchange)
        } else if !self.spec_brand_active(from_brand) || !self.spec_brand_active(to_brand) {
            Some(Error::InactiveBrand)
        } else if self.spec_balance(user, from_brand) < amount {
            Some(Error::InsufficientBalance)
        } else if self.spec_balance(user, to_brand) + amount > i64::MAX {
            Some(Error::AmountOverflow)
        } else {
            None
        }
    }

    /// A fresh engine: no brands, and every balance reads as zero.
    pub fn new() -> (engine: LoyaltyTokenExchange)
        ensures
            engine.wf(),
            engine.spec_brand_count() == 0,
            engine.spec_balances() == Map::<UserBalance, i64>::empty(),
    {
        LoyaltyTokenExchange { registry: BrandRegistry::new(), ledger: BalanceLedger::new() }
    }

    /// Registers a new brand: increments the counter and stores a new active
    /// brand under the incremented value as its id. Any name is accepted and
    /// stored verbatim; names need not be unique. Returns the new id; no
    /// balance and no earlier brand record changes.
    pub fn register_brand(&mut self, brand_name: String) -> (brand_id: u64)
        requires
            old(self).wf(),
            old(self).spec_brand_count() < u64::MAX,
        ensures
            final(self).wf(),
            brand_id == old(self).spec_brand_count() + 1,
            final(self).spec_brand_count() == brand_id,
            final(self).spec_brand(brand_id) == (BrandView {
                brand_id,
                brand_name: brand_name@,
                is_active: true,
            }),
            forall|b: u64|
                b != brand_id ==> final(self).spec_brand(b) == old(self).spec_brand(b),
            final(self).spec_balances() == old(self).spec_balances(),
    {
        self.registry.register(brand_name)
    }

    /// Issues `amount` points to `user` for `brand_id`. On success the one
    /// affected balance grows by exactly `amount` and every other balance
    /// and every brand record is untouched; on rejection nothing changes at
    /// all, and the error names the first failed check.
    pub fn issue_tokens(
        &mut self,
        authorized: bool,
        user: u64,
        brand_id: u64,
        amount: i64,
    ) -> (result: Result<(), Error>)
        requires
            old(self).wf(),
        ensures
            final(self).wf(),
            (match old(self).spec_issue_error(authorized, user, brand_id, amount) {
                Some(error) => result == Err::<(), Error>(error) && *final(self) == *old(self),
                None => {
                    &&& result == Ok::<(), Error>(())
                    &&& final(self).spec_balances() == old(self).spec_balances().insert(
                        UserBalance::Balance(user, brand_id),
                        (old(self).spec_balance(user, brand_id) + amount) as i64,
                    )
                    &&& final(self).spec_balance(user, brand_id) == old(self).spec_balance(
                        user,
                        brand_id,
                    ) + amount
                },
            }),
            forall|u: u64, b: u64|
                !(u == user && b == brand_id) ==> final(self).spec_balance(u, b) == old(
                    self,
                ).spec_balance(u, b),
            final(self).spec_brand_count() == old(self).spec_brand_count(),
            forall|b: u64| final(self).spec_brand(b) == old(self).spec_brand(b),
    {
        if !authorized {
            return Err(Error::Unauthorized);
        }
        let brand = self.registry.lookup(brand_id);
        if !brand.is_active {
            return Err(Error::InactiveBrand);
        }
        if amount <= 0 {
            return Err(Error::InvalidAmount);
        }
        let current = self.ledger.get_balance(user, brand_id);
        if current > i64::MAX - amount {
            return Err(Error::AmountOverflow);
        }
        self.ledger.set_balance(user, brand_id, current + amount);
        Ok(())
    }

    /// Exchanges `amount` points of `user` from one brand to another at a
    /// 1:1 rate. On success the source balance shrinks and the destination
    /// balance grows by exactly `amount` — their total is conserved — and
    /// every other balance and every brand record is untouched; on rejection
    /// nothing changes at all, and the error names the first failed check.
    pub fn exchange_tokens(
        &mut self,
        authorized: bool,
        user: u64,
        from_brand: u64,
        to_brand: u64,
        amount: i64,
    ) -> (result: Result<(), Error>)
        requires
            old(self).wf(),
        ensures
            final(self).wf(),
            (match old(self).spec_exchange_error(authorized, user, from_brand, to_brand, amount) {
                Some(error) => result == Err::<(), Error>(error) && *final(self) == *old(self),
                None => {
                    &&& result == Ok::<(), Error>(())
                    &&& spec_exchange_applied(
                        *old(self),
                        *final(self),
                        user,
                        from_brand,
                        to_brand,
                        amount,
                    )
                    &&& final(self).spec_balance(user, from_brand) == old(self).spec_balance(
                        user,
                        from_brand,
                    ) - amount
                    &&& final(self).spec_balance(user, to_brand) == old(self).spec_balance(
                        user,
                        to_brand,
                    ) + amount
                },
            }),
            forall|u: u64, b: u64|
                !(u == user && (b == from_brand || b == to_brand)) ==> final(self).spec_balance(
                    u,
                    b,
                ) == old(self).spec_balance(u, b),
            final(self).spec_brand_count() == old(self).spec_brand_count(),
            forall|b: u64| final(self).spec_brand(b) == old(self).spec_brand(b),
    {
        if !authorized {
            return Err(Error::Unauthorized);
        }
        if amount <= 0 {
            return Err(Error::InvalidAmount);
        }
        if from_brand == to_brand {
            return Err(Error::SameBrandExchange);
        }
        let from_record = self.registry.lookup(from_brand);
        let to_record = self.registry.lookup(to_brand);
        if !from_record.is_active || !to_record.is_active {
            return Err(Error::InactiveBrand);
        }
        let from_balance = self.ledger.get_balance(user, from_brand);
        if from_balance < amount {
            return Err(Error::InsufficientBalance);
        }
        let to_balance = self.ledger.get_balance(user, to_brand);
        if to_balance > i64::MAX - amount {
            return Err(Error::AmountOverflow);
        }
        self.ledger.set_balance(user, from_brand, from_balance - amount);
        self.ledger.set_balance(user, to_brand, to_balance + amount);
        Ok(())
    }

    /// Reads the balance `user` holds for `brand_id`: the written value, or
    /// zero for a pair that was never written. Never fails.
    pub fn view_user_balance(&self, user: u64, brand_id: u64) -> (balance: i64)
        requires
            self.wf(),
        ensures
            balance == self.spec_balance(user, brand_id),
    {
        self.ledger.get_balance(user, brand_id)
    }

    /// Pure lookup of a brand record. For an id that was never assigned it
    /// returns the sentinel — brand id zero, the name "Not_Found", inactive —
    /// rather than failing.
    pub fn view_brand(&self, brand_id: u64) -> (brand: Brand)
        requires
            self.wf(),
        ensures
            brand@ == self.spec_brand(brand_id),
            !(1 <= brand_id <= self.spec_brand_count()) ==> brand@ == sentinel_view(),
    {
        proof {
            lemma_dense_ids(self.registry);
        }
        self.registry.lookup(brand_id)
    }

    /// The number of brands ever registered: zero on a fresh engine.
    pub fn get_brand_count(&self) -> (count: u64)
        requires
            self.wf(),
        ensures
            count == self.spec_brand_count(),
    {
        self.registry.total()
    }
}

/// What a successful exchange does to a state: the request was valid — a
/// positive amount, two distinct brands, a covering source balance, room in
/// the destination — and the balance map changed by exactly the debit and
/// the matching credit, atomically.
pub open spec fn spec_exchange_applied(
    pre: LoyaltyTokenExchange,
    post: LoyaltyTokenExchange,
    user: u64,
    from_brand: u64,
    to_brand: u64,
    amount: i64,
) -> bool {
    &&& from_brand != to_brand
    &&& 0 < amount <= pre.spec_balance(user, from_brand)
    &&& pre.spec_balance(user, to_brand) + amount <= i64::MAX
    &&& post.spec_balances() == pre.spec_balances().insert(
        UserBalance::Balance(user, from_brand),
        (pre.spec_balance(user, from_brand) - amount) as i64,
    ).insert(
        UserBalance::Balance(user, to_brand),
        (pre.spec_balance(user, to_brand) + amount) as i64,
    )
}

/// Sequential ids: in any well-formed engine the assigned brand ids are
/// exactly 1 up to the brand count, each stored under itself, and every
/// other id yields the sentinel. Together with `register_brand`'s guarantee
/// that each call returns the previous count plus one, N registrations on a
/// fresh engine return exactly the ids 1 through N in call order.
pub proof fn lemma_brand_ids_sequential(engine: LoyaltyTokenExchange)
    requires
        engine.wf(),
    ensures
        forall|i: u64|
            1 <= i <= engine.spec_brand_count() ==> (#[trigger] engine.spec_brand(i)).brand_id
                == i,
        forall|i: u64|
            !(1 <= i <= engine.spec_brand_count()) ==> (#[trigger] engine.spec_brand(i))
                == sentinel_view(),
{
    lemma_dense_ids(engine.registry);
}

/// Default balance: a (user, brand) pair that was never written reads as
/// zero — absence is a valid, zero-value state, not an error.
pub proof fn lemma_default_balance(engine: LoyaltyTokenExchange, user: u64, brand_id: u64)
    requires
        !engine.spec_balances().contains_key(UserBalance::Balance(user, brand_id)),
    ensures
        engine.spec_balance(user, brand_id) == 0,
{
}

/// Conservation: a successful exchange debits its amount from the source and
/// credits the same amount to the destination, so the user's combined
/// holdings across the two brands are unchanged — the exchange is zero-sum.
pub proof fn lemma_exchange_conserves_total(
    pre: LoyaltyTokenExchange,
    post: LoyaltyTokenExchange,
    user: u64,
    from_brand: u64,
    to_brand: u64,
    amount: i64,
)
    requires
        spec_exchange_applied(pre, post, user, from_brand, to_brand, amount),
    ensures
        post.spec_balance(user, from_brand) == pre.spec_balance(user, from_brand) - amount,
        post.spec_balance(user, to_brand) == pre.spec_balance(user, to_brand) + amount,
        post.spec_balance(user, from_brand) + post.spec_balance(user, to_brand) == pre
            .spec_balance(user, from_brand) + pre.spec_balance(user, to_brand),
{
}

/// Every balance a well-formed engine holds is non-negative: a balance is
/// the sum of the amounts issued to it minus the amounts exchanged away from
/// it, and every debit is checked against the current value first.
pub proof fn lemma_balances_nonnegative(engine: LoyaltyTokenExchange)
    requires
        engine.wf(),
    ensures
        forall|user: u64, brand_id: u64| #[trigger] engine.spec_balance(user, brand_id) >= 0,
{
}

} // verus!
