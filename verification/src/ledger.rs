use vstd::prelude::*;

verus! {

/// Key space for balance entries: one key per (user, brand id) pair,
/// disjoint by construction from the brand key space.
#[derive(Clone, Copy, PartialEq, Eq, Structural)]
pub enum UserBalance {
    Balance(u64, u64),
}

/// The finite map described by an association list: each entry binds its key
/// to its value, later entries overriding earlier ones.
pub open spec fn as_map(entries: Seq<(UserBalance, i64)>) -> Map<UserBalance, i64>
    decreases entries.len(),
{
    if entries.len() == 0 {
        Map::empty()
    } else {
        as_map(entries.drop_last()).insert(entries.last().0, entries.last().1)
    }
}

/// When no entry after `i` binds the key of entry `i`, the map holds entry
/// `i`'s binding for that key.
proof fn lemma_as_map_found(entries: Seq<(UserBalance, i64)>, i: int)
    requires
        0 <= i < entries.len(),
        forall|j: int| i < j < entries.len() ==> (#[trigger] entries[j]).0 != entries[i].0,
    ensures
        as_map(entries).contains_key(entries[i].0),
        as_map(entries)[entries[i].0] == entries[i].1,
    decreases entries.len(),
{
    if i < entries.len() - 1 {
        lemma_as_map_found(entries.drop_last(), i);
    }
}

/// A key bound by no entry at all is absent from the map.
proof fn lemma_as_map_absent(entries: Seq<(UserBalance, i64)>, key: UserBalance)
    requires
        forall|j: int| 0 <= j < entries.len() ==> (#[trigger] entries[j]).0 != key,
    ensures
        !as_map(entries).contains_key(key),
    decreases entries.len(),
{
    if entries.len() > 0 {
        lemma_as_map_absent(entries.drop_last(), key);
    }
}

/// Overwriting the single entry that binds a key updates exactly that key's
/// binding in the map.
proof fn lemma_as_map_update(entries: Seq<(UserBalance, i64)>, i: int, value: i64)
    requires
        0 <= i < entries.len(),
        forall|j: int| 0 <= j < entries.len() && j != i ==> (#[trigger] entries[j]).0
            != entries[i].0,
    ensures
        as_map(entries.update(i, (entries[i].0, value))) == as_map(entries).insert(
            entries[i].0,
            value,
        ),
    decreases entries.len(),
{
    let key = entries[i].0;
    let updated = entries.update(i, (key, value));
    if i == entries.len() - 1 {
        assert(updated.drop_last() =~= entries.drop_last());
        assert(as_map(entries.drop_last()).insert(key, entries[i].1).insert(key, value)
            =~= as_map(entries.drop_last()).insert(key, value));
    } else {
        assert(updated.drop_last() =~= entries.drop_last().update(i, (key, value)));
        lemma_as_map_update(entries.drop_last(), i, value);
        assert(as_map(entries.drop_last()).insert(key, value).insert(
            entries.last().0,
            entries.last().1,
        ) =~= as_map(entries.drop_last()).insert(entries.last().0, entries.last().1).insert(
            key,
            value,
        ));
    }
}

/// The Balance Ledger: a total store from (user, brand) keys to signed
/// balances. It performs no validation of its own — absence is a valid,
/// zero-value state, and a write is an unconditional overwrite; every
/// business rule lives one layer up, in the exchange engine.
pub struct BalanceLedger {
    entries: Vec<(UserBalance, i64)>,
}

impl BalanceLedger {
    /// Ledger invariant: no key is stored twice, so the stored list and the
    /// map it describes carry the same information.
    pub closed spec fn wf(self) -> bool {
        forall|i: int, j: int|
            0 <= i < j < self.entries@.len() ==> (#[trigger] self.entries@[i]).0 != (
            #[trigger] self.entries@[j]).0
    }

    /// The stored balances as a map over balance keys.
    pub closed spec fn balances(self) -> Map<UserBalance, i64> {
        as_map(self.entries@)
    }

    /// What a read returns: the stored value, or zero when the key was never
    /// written.
    pub open spec fn spec_read(self, key: UserBalance) -> i64 {
        if self.balances().contains_key(key) {
            self.balances()[key]
        } else {
            0
        }
    }

    /// An empty ledger: every balance reads as zero.
    pub fn new() -> (ledger: BalanceLedger)
        ensures
            ledger.wf(),
            ledger.balances() == Map::<UserBalance, i64>::empty(),
    {
        BalanceLedger { entries: Vec::new() }
    }

    /// The position of the entry binding `key`, if one is stored.
    fn position_of(&self, key: UserBalance) -> (position: Option<usize>)
        ensures
            match position {
                Some(i) => i < self.entries@.len() && self.entries@[i as int].0 == key,
                None => forall|j: int|
                    0 <= j < self.entries@.len() ==> (#[trigger] self.entries@[j]).0 != key,
            },
    {
        let mut i: usize = 0;
        let n = self.entries.len();
        while i < n
            invariant
                i <= n,
                n == self.entries@.len(),
                forall|j: int| 0 <= j < i ==> (#[trigger] self.entries@[j]).0 != key,
            decreases n - i,
        {
            if self.entries[i].0 == key {
                return Some(i);
            }
            i = i + 1;
        }
        None
    }

    /// Reads the balance stored under (user, brand), or zero if the pair was
    /// never written. Never fails.
    pub fn get_balance(&self, user: u64, brand_id: u64) -> (value: i64)
        requires
            self.wf(),
        ensures
            value == self.spec_read(UserBalance::Balance(user, brand_id)),
    {
        let key = UserBalance::Balance(user, brand_id);
        match self.position_of(key) {
            Some(i) => {
                proof {
                    lemma_as_map_found(self.entries@, i as int);
                }
                self.entries[i].1
            },
            None => {
                proof {
                    lemma_as_map_absent(self.entries@, key);
                }
                0
            },
        }
    }

    /// Writes `value` under (user, brand), creating the entry on first
    /// write. An unconditional overwrite: no validation happens here.
    pub fn set_balance(&mut self, user: u64, brand_id: u64, value: i64)
        requires
            old(self).wf(),
        ensures
            final(self).wf(),
            final(self).balances() == old(self).balances().insert(
                UserBalance::Balance(user, brand_id),
                value,
            ),
    {
        let key = UserBalance::Balance(user, brand_id);
        match self.position_of(key) {
            Some(i) => {
                proof {
                    lemma_as_map_update(self.entries@, i as int, value);
                }
                self.entries[i] = (key, value);
            },
            None => {
                self.entries.push((key, value));
                proof {
                    assert(self.entries@.drop_last() =~= old(self).entries@);
                }
            },
        }
    }
}

} // verus!
