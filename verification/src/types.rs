//! Value types of the account model: currency, monetary amounts and
//! per-currency balances.
//!
//! Amounts are fixed-point integers in the currency's minor unit, so
//! the arithmetic is exact. A balance list is keyed by currency: one
//! entry per currency, and every entry's total is exactly its locked
//! part plus its free part.

use vstd::prelude::*;

verus! {

/// A currency, identified by a numeric code.
#[derive(Clone, Copy, Debug, PartialEq, Eq, Structural, Hash)]
pub struct Currency {
    /// Numeric code identifying the currency.
    pub code: u32,
}

/// A monetary amount: a fixed-point raw value in the currency's minor
/// unit.
#[derive(Clone, Copy, Debug, PartialEq, Eq, Structural, Hash)]
pub struct Money {
    /// Amount in minor units; may be negative.
    pub raw: i64,
    /// Currency of the amount.
    pub currency: Currency,
}

/// The balance of one currency in an account.
#[derive(Clone, Copy, Debug, PartialEq, Eq, Structural, Hash)]
pub struct AccountBalance {
    /// Currency the balance is denominated in.
    pub currency: Currency,
    /// Total amount, in minor units.
    pub total: i64,
    /// Amount locked by open orders, in minor units.
    pub locked: i64,
    /// Amount free for new orders, in minor units.
    pub free: i64,
}

impl AccountBalance {
    /// Internal consistency: the total is exactly locked plus free.
    pub open spec fn consistent(self) -> bool {
        self.total == self.locked + self.free
    }
}

/// Every entry of the list is internally consistent.
pub open spec fn balances_consistent(s: Seq<AccountBalance>) -> bool {
    forall|i: int| 0 <= i < s.len() ==> (#[trigger] s[i]).consistent()
}

/// No two entries of the list share a currency: the list is a map keyed
/// by currency.
pub open spec fn distinct_currencies(s: Seq<AccountBalance>) -> bool {
    forall|i: int, j: int|
        0 <= i < j < s.len() ==> (#[trigger] s[i]).currency != (#[trigger] s[j]).currency
}

/// A well-formed balance list: keyed by currency, every entry
/// consistent.
pub open spec fn balances_wf(s: Seq<AccountBalance>) -> bool {
    balances_consistent(s) && distinct_currencies(s)
}

/// Some entry of the list carries this currency.
pub open spec fn has_currency(s: Seq<AccountBalance>, c: Currency) -> bool {
    exists|i: int| 0 <= i < s.len() && (#[trigger] s[i]).currency == c
}

/// The index of the entry carrying this currency; meaningful only when
/// `has_currency` holds, and unique when the currencies are distinct.
pub open spec fn index_of_currency(s: Seq<AccountBalance>, c: Currency) -> int {
    choose|i: int| 0 <= i < s.len() && (#[trigger] s[i]).currency == c
}

/// The list after recording a balance: the entry of the same currency
/// is replaced, or the balance is appended when its currency is new.
pub open spec fn upsert(s: Seq<AccountBalance>, b: AccountBalance) -> Seq<AccountBalance> {
    if has_currency(s, b.currency) {
        s.update(index_of_currency(s, b.currency), b)
    } else {
        s.push(b)
    }
}

/// The list after recording every balance of `new` in order.
pub open spec fn merge_balances(cur: Seq<AccountBalance>, new: Seq<AccountBalance>) -> Seq<
    AccountBalance,
>
    decreases new.len(),
{
    if new.len() == 0 {
        cur
    } else {
        merge_balances(upsert(cur, new[0]), new.drop_first())
    }
}

/// Recording a consistent balance keeps the list well formed.
pub proof fn lemma_upsert_preserves_wf(s: Seq<AccountBalance>, b: AccountBalance)
    requires
        balances_wf(s),
        b.consistent(),
    ensures
        balances_wf(upsert(s, b)),
        upsert(s, b).len() >= s.len(),
{
    if has_currency(s, b.currency) {
        let i = index_of_currency(s, b.currency);
        assert(0 <= i < s.len() && s[i].currency == b.currency);
        let r = s.update(i, b);
        assert forall|k: int, l: int|
            0 <= k < l < r.len() implies (#[trigger] r[k]).currency != (#[trigger] r[l]).currency by {
            assert(r[k].currency == s[k].currency);
            assert(r[l].currency == s[l].currency);
        }
    }
}

/// Recording a list of consistent balances keeps the list well formed,
/// and never shrinks it.
pub proof fn lemma_merge_preserves_wf(cur: Seq<AccountBalance>, new: Seq<AccountBalance>)
    requires
        balances_wf(cur),
        balances_consistent(new),
    ensures
        balances_wf(merge_balances(cur, new)),
    decreases new.len(),
{
    if new.len() > 0 {
        assert(new[0].consistent());
        lemma_upsert_preserves_wf(cur, new[0]);
        assert(balances_consistent(new.drop_first())) by {
            assert forall|i: int|
                0 <= i < new.drop_first().len() implies (#[trigger] new.drop_first()[i]).consistent() by {
                assert(new.drop_first()[i] == new[i + 1]);
            }
        }
        lemma_merge_preserves_wf(upsert(cur, new[0]), new.drop_first());
    }
}

/// Record one balance in a keyed list, replacing the entry of the same
/// currency or appending a new entry.
pub fn upsert_balance(list: &mut Vec<AccountBalance>, b: AccountBalance)
    requires
        distinct_currencies(old(list)@),
    ensures
        final(list)@ == upsert(old(list)@, b),
{
    let ghost s = list@;
    let mut i: usize = 0;
    while i < list.len()
        invariant
            s == old(list)@,
            list@ == s,
            i <= s.len(),
            forall|k: int| 0 <= k < i ==> (#[trigger] s[k]).currency != b.currency,
            distinct_currencies(s),
        decreases list.len() - i,
    {
        if list[i].currency == b.currency {
            assert(s[i as int].currency == b.currency);
            list.set(i, b);
            proof {
                assert(has_currency(s, b.currency));
                let j = index_of_currency(s, b.currency);
                assert(0 <= j < s.len() && s[j].currency == b.currency);
                assert(j == i);
            }
            return ;
        }
        i = i + 1;
    }
    proof {
        assert(!has_currency(s, b.currency));
    }
    list.push(b);
}

/// Recording one more balance after a batch equals extending the batch
/// by that balance.
pub proof fn lemma_merge_snoc(cur: Seq<AccountBalance>, new: Seq<AccountBalance>, b: AccountBalance)
    ensures
        merge_balances(cur, new.push(b)) == upsert(merge_balances(cur, new), b),
    decreases new.len(),
{
    if new.len() == 0 {
        assert(new.push(b)[0] == b);
        assert(new.push(b).drop_first() =~= Seq::<AccountBalance>::empty());
        assert(merge_balances(upsert(cur, b), new.push(b).drop_first()) == upsert(cur, b));
    } else {
        assert(new.push(b)[0] == new[0]);
        assert(new.push(b).drop_first() =~= new.drop_first().push(b));
        lemma_merge_snoc(upsert(cur, new[0]), new.drop_first(), b);
    }
}

} // verus!
