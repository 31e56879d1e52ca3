//! Account aggregation: an account is the fold of its state events.
//!
//! An account is created from its first state event and updated by
//! applying each later event in order; every event carries a batch of
//! per-currency balances that replace the stored entries of the same
//! currency. Margin and cash accounts share this event-sourced core and
//! differ in how fills produce profit-and-loss entries.

use vstd::prelude::*;
use crate::types::{
    balances_consistent, balances_wf, lemma_merge_snoc, lemma_upsert_preserves_wf, merge_balances,
    upsert_balance, AccountBalance, Currency, Money,
};

verus! {

/// Kind of an account.
#[derive(Clone, Copy, Debug, PartialEq, Eq, Structural, Hash)]
pub enum AccountType {
    /// Account trading on margin.
    Margin,
    /// Account settling in cash.
    Cash,
}

/// Identifier of an account.
#[derive(Clone, Copy, Debug, PartialEq, Eq, Structural, Hash)]
pub struct AccountId {
    /// Numeric identifier.
    pub value: u64,
}

/// A state event of an account: a snapshot of per-currency balances
/// reported by the venue.
pub struct AccountState {
    /// Account the event belongs to.
    pub account_id: AccountId,
    /// Kind of the account the event describes.
    pub account_type: AccountType,
    /// Balances reported by this event.
    pub balances: Vec<AccountBalance>,
    /// Settlement currency of the account, when it has a single one.
    pub base_currency: Option<Currency>,
}

impl AccountState {
    /// Well-formedness: the reported balances form a keyed, consistent
    /// list.
    pub open spec fn wf(self) -> bool {
        balances_wf(self.balances@)
    }
}

/// The fields of two state events are equal (the balance lists as
/// sequences).
pub open spec fn state_eq(a: AccountState, b: AccountState) -> bool {
    &&& a.account_id == b.account_id
    &&& a.account_type == b.account_type
    &&& a.balances@ == b.balances@
    &&& a.base_currency == b.base_currency
}

/// Field-by-field copy of a state event.
pub fn clone_state(e: &AccountState) -> (r: AccountState)
    ensures
        state_eq(r, *e),
{
    let mut balances: Vec<AccountBalance> = Vec::new();
    let mut i: usize = 0;
    while i < e.balances.len()
        invariant
            i <= e.balances.len(),
            balances@ == e.balances@.subrange(0, i as int),
        decreases e.balances.len() - i,
    {
        balances.push(e.balances[i]);
        i = i + 1;
    }
    assert(balances@ == e.balances@);
    AccountState {
        account_id: e.account_id,
        account_type: e.account_type,
        balances,
        base_currency: e.base_currency,
    }
}

/// The balances after applying every event of the sequence to `acc`.
pub open spec fn merge_all(acc: Seq<AccountBalance>, events: Seq<AccountState>) -> Seq<
    AccountBalance,
>
    decreases events.len(),
{
    if events.len() == 0 {
        acc
    } else {
        merge_all(merge_balances(acc, events[0].balances@), events.drop_first())
    }
}

/// Applying one more event after a batch equals extending the batch by
/// that event.
pub proof fn lemma_merge_all_snoc(
    acc: Seq<AccountBalance>,
    events: Seq<AccountState>,
    e: AccountState,
)
    ensures
        merge_all(acc, events.push(e)) == merge_balances(merge_all(acc, events), e.balances@),
    decreases events.len(),
{
    if events.len() == 0 {
        assert(events.push(e)[0] == e);
        assert(events.push(e).drop_first() =~= Seq::<AccountState>::empty());
        assert(merge_all(acc, events) == acc);
        assert(merge_all(merge_balances(acc, e.balances@), Seq::<AccountState>::empty())
            == merge_balances(acc, e.balances@));
    } else {
        assert(events.push(e)[0] == events[0]);
        assert(events.push(e).drop_first() =~= events.drop_first().push(e));
        lemma_merge_all_snoc(merge_balances(acc, events[0].balances@), events.drop_first(), e);
        assert(merge_all(acc, events.push(e)) == merge_all(
            merge_balances(acc, events[0].balances@),
            events.drop_first().push(e),
        ));
        assert(merge_all(acc, events) == merge_all(
            merge_balances(acc, events[0].balances@),
            events.drop_first(),
        ));
    }
}

/// The event-sourced core shared by margin and cash accounts: identity,
/// the event history, and the balances it folds to.
pub struct AccountCore {
    /// Identifier taken from the first event.
    pub id: AccountId,
    /// Settlement currency taken from the first event.
    pub base_currency: Option<Currency>,
    /// Every applied event, oldest first.
    pub events: Vec<AccountState>,
    /// Current balances: the fold of the applied events.
    pub balances: Vec<AccountBalance>,
}

impl AccountCore {
    /// Well-formedness: the stored balances form a keyed, consistent
    /// list.
    pub open spec fn wf(self) -> bool {
        balances_wf(self.balances@)
    }

    /// A core created from its first state event.
    pub fn new(event: AccountState) -> (r: Self)
        requires
            event.wf(),
        ensures
            r.wf(),
            r.id == event.account_id,
            r.base_currency == event.base_currency,
            r.events@.len() == 1,
            r.events@[0] == event,
            r.balances@ == event.balances@,
    {
        let balances = clone_balances(&event.balances);
        let id = event.account_id;
        let base_currency = event.base_currency;
        let mut events: Vec<AccountState> = Vec::new();
        events.push(event);
        AccountCore { id, base_currency, events, balances }
    }

    /// Apply one state event: append it to the history and record each
    /// of its balances, replacing the stored entry of the same currency.
    pub fn apply(&mut self, event: AccountState)
        requires
            old(self).wf(),
            balances_consistent(event.balances@),
        ensures
            final(self).wf(),
            final(self).id == old(self).id,
            final(self).base_currency == old(self).base_currency,
            final(self).events@ == old(self).events@.push(event),
            final(self).balances@ == merge_balances(old(self).balances@, event.balances@),
    {
        let ghost pre = self.balances@;
        let ghost incoming = event.balances@;
        let mut i: usize = 0;
        while i < event.balances.len()
            invariant
                i <= incoming.len(),
                incoming == event.balances@,
                balances_consistent(incoming),
                balances_wf(self.balances@),
                self.balances@ == merge_balances(pre, incoming.subrange(0, i as int)),
                self.id == old(self).id,
                self.base_currency == old(self).base_currency,
                self.events@ == old(self).events@,
            decreases event.balances.len() - i,
        {
            let b = event.balances[i];
            proof {
                lemma_merge_snoc(pre, incoming.subrange(0, i as int), b);
                assert(incoming.subrange(0, (i + 1) as int) =~= incoming.subrange(
                    0,
                    i as int,
                ).push(b));
                lemma_upsert_preserves_wf(self.balances@, b);
            }
            upsert_balance(&mut self.balances, b);
            i = i + 1;
        }
        assert(incoming.subrange(0, incoming.len() as int) =~= incoming);
        self.events.push(event);
    }

    /// The most recent state event, if any event was ever applied.
    pub fn last_event(&self) -> (r: Option<AccountState>)
        ensures
            r.is_some() <==> self.events@.len() > 0,
            r.is_some() ==> state_eq(r.unwrap(), self.events@.last()),
    {
        if self.events.len() == 0 {
            None
        } else {
            Some(clone_state(&self.events[self.events.len() - 1]))
        }
    }

    /// The full event history, oldest first.
    pub fn events(&self) -> (r: Vec<AccountState>)
        ensures
            r@.len() == self.events@.len(),
            forall|i: int| 0 <= i < r@.len() ==> state_eq(#[trigger] r@[i], self.events@[i]),
    {
        let mut out: Vec<AccountState> = Vec::new();
        let mut i: usize = 0;
        while i < self.events.len()
            invariant
                i <= self.events@.len(),
                out@.len() == i,
                forall|k: int| 0 <= k < i ==> state_eq(#[trigger] out@[k], self.events@[k]),
            decreases self.events.len() - i,
        {
            out.push(clone_state(&self.events[i]));
            i = i + 1;
        }
        out
    }

    /// The current balances, one entry per currency.
    pub fn balances(&self) -> (r: Vec<AccountBalance>)
        ensures
            r@ == self.balances@,
    {
        clone_balances(&self.balances)
    }

    /// The locked part of every balance, as money in its currency.
    pub fn balances_locked(&self) -> (r: Vec<Money>)
        ensures
            r@.len() == self.balances@.len(),
            forall|i: int|
                0 <= i < r@.len() ==> #[trigger] r@[i] == (Money {
                    raw: self.balances@[i].locked,
                    currency: self.balances@[i].currency,
                }),
    {
        let mut out: Vec<Money> = Vec::new();
        let mut i: usize = 0;
        while i < self.balances.len()
            invariant
                i <= self.balances@.len(),
                out@.len() == i,
                forall|k: int|
                    0 <= k < i ==> #[trigger] out@[k] == (Money {
                        raw: self.balances@[k].locked,
                        currency: self.balances@[k].currency,
                    }),
            decreases self.balances.len() - i,
        {
            let b = self.balances[i];
            out.push(Money { raw: b.locked, currency: b.currency });
            i = i + 1;
        }
        out
    }
}

/// Side of an order.
#[derive(Clone, Copy, Debug, PartialEq, Eq, Structural, Hash)]
pub enum OrderSide {
    /// Buying.
    Buy,
    /// Selling.
    Sell,
}

/// A fill of an order: the traded quantity and price, in minor units.
#[derive(Clone, Copy, Debug, PartialEq, Eq, Structural, Hash)]
pub struct OrderFilled {
    /// Side of the filled order.
    pub side: OrderSide,
    /// Quantity just filled, in the instrument's minor unit.
    pub last_qty: u64,
    /// Price of the fill, in the quote currency's minor unit.
    pub last_px: u64,
}

/// The instrument a fill was traded on, reduced to what profit-and-loss
/// accounting reads.
#[derive(Clone, Copy, Debug, PartialEq, Eq, Structural, Hash)]
pub struct InstrumentAny {
    /// Currency the instrument is quoted in.
    pub quote_currency: Currency,
}

/// Side of an open position.
#[derive(Clone, Copy, Debug, PartialEq, Eq, Structural, Hash)]
pub enum PositionSide {
    /// Net long.
    Long,
    /// Net short.
    Short,
    /// No exposure.
    Flat,
}

/// An open position in an instrument.
#[derive(Clone, Copy, Debug, PartialEq, Eq, Structural, Hash)]
pub struct Position {
    /// Side of the position.
    pub side: PositionSide,
    /// Open quantity, in the instrument's minor unit.
    pub quantity: u64,
}

/// The signed cash flow of a fill in the quote currency: money leaves
/// the account on a buy and enters it on a sell.
pub open spec fn fill_cashflow(fill: OrderFilled) -> int {
    if fill.side == OrderSide::Buy {
        -(fill.last_qty * fill.last_px)
    } else {
        fill.last_qty * fill.last_px
    }
}

/// An account settling in cash.
pub struct CashAccount {
    /// The event-sourced account state.
    pub core: AccountCore,
}

impl CashAccount {
    /// A cash account created from its first state event.
    pub fn new(event: AccountState) -> (r: Self)
        requires
            event.wf(),
        ensures
            r.core.wf(),
            r.core.id == event.account_id,
            r.core.base_currency == event.base_currency,
            r.core.events@.len() == 1,
            r.core.events@[0] == event,
            r.core.balances@ == event.balances@,
    {
        CashAccount { core: AccountCore::new(event) }
    }
}

impl Default for CashAccount {
    /// An empty cash account: no identity, no events, no balances.
    fn default() -> (r: Self)
        ensures
            r.core.wf(),
            r.core.id.value == 0,
            r.core.base_currency.is_none(),
            r.core.events@.len() == 0,
            r.core.balances@.len() == 0,
    {
        CashAccount {
            core: AccountCore {
                id: AccountId { value: 0 },
                base_currency: None,
                events: Vec::new(),
                balances: Vec::new(),
            },
        }
    }
}

/// An account trading on margin.
pub struct MarginAccount {
    /// The event-sourced account state.
    pub core: AccountCore,
}

impl MarginAccount {
    /// A margin account created from its first state event.
    pub fn new(event: AccountState) -> (r: Self)
        requires
            event.wf(),
        ensures
            r.core.wf(),
            r.core.id == event.account_id,
            r.core.base_currency == event.base_currency,
            r.core.events@.len() == 1,
            r.core.events@[0] == event,
            r.core.balances@ == event.balances@,
    {
        MarginAccount { core: AccountCore::new(event) }
    }
}

/// Declares anyhow's error type, so that fallible account operations
/// report their failure the way the surrounding platform expects.
#[verifier::external_type_specification]
#[verifier::external_body]
pub struct ExAnyhowError(anyhow::Error);

/// Relies on anyhow::Error::msg: builds an error value carrying the
/// given message.
#[verifier::external_body]
fn error_msg(message: &str) -> anyhow::Error {
    anyhow::Error::msg(message.to_string())
}

/// Either kind of account, under one type.
pub enum AccountAny {
    /// An account trading on margin.
    Margin(MarginAccount),
    /// An account settling in cash.
    Cash(CashAccount),
}

impl AccountAny {
    /// The event-sourced core, whichever kind the account is.
    pub open spec fn core_spec(self) -> AccountCore {
        match self {
            AccountAny::Margin(m) => m.core,
            AccountAny::Cash(c) => c.core,
        }
    }

    /// The kind of the account.
    pub open spec fn account_type_spec(self) -> AccountType {
        match self {
            AccountAny::Margin(_) => AccountType::Margin,
            AccountAny::Cash(_) => AccountType::Cash,
        }
    }

    /// Well-formedness of the underlying core.
    pub open spec fn wf(self) -> bool {
        self.core_spec().wf()
    }

    /// The account's identifier.
    pub fn id(&self) -> (r: AccountId)
        ensures
            r == self.core_spec().id,
    {
        match self {
            AccountAny::Margin(m) => m.core.id,
            AccountAny::Cash(c) => c.core.id,
        }
    }

    /// The most recent state event, if any event was ever applied.
    pub fn last_event(&self) -> (r: Option<AccountState>)
        ensures
            r.is_some() <==> self.core_spec().events@.len() > 0,
            r.is_some() ==> state_eq(r.unwrap(), self.core_spec().events@.last()),
    {
        match self {
            AccountAny::Margin(m) => m.core.last_event(),
            AccountAny::Cash(c) => c.core.last_event(),
        }
    }

    /// The full event history, oldest first.
    pub fn events(&self) -> (r: Vec<AccountState>)
        ensures
            r@.len() == self.core_spec().events@.len(),
            forall|i: int|
                0 <= i < r@.len() ==> state_eq(#[trigger] r@[i], self.core_spec().events@[i]),
    {
        match self {
            AccountAny::Margin(m) => m.core.events(),
            AccountAny::Cash(c) => c.core.events(),
        }
    }

    /// Apply one state event to the account.
    pub fn apply(&mut self, event: AccountState)
        requires
            old(self).wf(),
            balances_consistent(event.balances@),
        ensures
            final(self).wf(),
            final(self).account_type_spec() == old(self).account_type_spec(),
            final(self).core_spec().id == old(self).core_spec().id,
            final(self).core_spec().base_currency == old(self).core_spec().base_currency,
            final(self).core_spec().events@ == old(self).core_spec().events@.push(event),
            final(self).core_spec().balances@ == merge_balances(
                old(self).core_spec().balances@,
                event.balances@,
            ),
    {
        match self {
            AccountAny::Margin(m) => m.core.apply(event),
            AccountAny::Cash(c) => c.core.apply(event),
        }
    }

    /// The current balances, one entry per currency.
    pub fn balances(&self) -> (r: Vec<AccountBalance>)
        ensures
            r@ == self.core_spec().balances@,
    {
        match self {
            AccountAny::Margin(m) => m.core.balances(),
            AccountAny::Cash(c) => c.core.balances(),
        }
    }

    /// The locked part of every balance, as money in its currency.
    pub fn balances_locked(&self) -> (r: Vec<Money>)
        ensures
            r@.len() == self.core_spec().balances@.len(),
            forall|i: int|
                0 <= i < r@.len() ==> #[trigger] r@[i] == (Money {
                    raw: self.core_spec().balances@[i].locked,
                    currency: self.core_spec().balances@[i].currency,
                }),
    {
        match self {
            AccountAny::Margin(m) => m.core.balances_locked(),
            AccountAny::Cash(c) => c.core.balances_locked(),
        }
    }

    /// The settlement currency, when the account has a single one.
    pub fn base_currency(&self) -> (r: Option<Currency>)
        ensures
            r == self.core_spec().base_currency,
    {
        match self {
            AccountAny::Margin(m) => m.core.base_currency,
            AccountAny::Cash(c) => c.core.base_currency,
        }
    }

    /// The account built from its first state event: a margin event
    /// makes a margin account, a cash event a cash account.
    pub fn from(event: AccountState) -> (r: Self)
        requires
            event.wf(),
        ensures
            r.wf(),
            r.account_type_spec() == event.account_type,
            r.core_spec().id == event.account_id,
            r.core_spec().base_currency == event.base_currency,
            r.core_spec().events@.len() == 1,
            r.core_spec().events@[0] == event,
            r.core_spec().balances@ == event.balances@,
    {
        let kind = event.account_type;
        match kind {
            AccountType::Margin => AccountAny::Margin(MarginAccount::new(event)),
            AccountType::Cash => AccountAny::Cash(CashAccount::new(event)),
        }
    }

    /// Rebuild an account from its full event history: created from the
    /// first event, then every later event applied in order. An empty
    /// history is an error; any non-empty history succeeds.
    pub fn from_events(events: Vec<AccountState>) -> (r: Result<AccountAny, anyhow::Error>)
        requires
            forall|i: int| 0 <= i < events@.len() ==> (#[trigger] events@[i]).wf(),
        ensures
            r.is_ok() <==> events@.len() > 0,
            match r {
                Ok(acc) => {
                    &&& acc.wf()
                    &&& acc.account_type_spec() == events@[0].account_type
                    &&& acc.core_spec().id == events@[0].account_id
                    &&& acc.core_spec().base_currency == events@[0].base_currency
                    &&& acc.core_spec().events@.len() == events@.len()
                    &&& forall|i: int|
                        0 <= i < events@.len() ==> state_eq(
                            #[trigger] acc.core_spec().events@[i],
                            events@[i],
                        )
                    &&& acc.core_spec().balances@ == merge_all(
                        events@[0].balances@,
                        events@.drop_first(),
                    )
                },
                Err(_) => events@.len() == 0,
            },
    {
        if events.len() == 0 {
            return Err(error_msg("No order events provided to create `AccountAny`"));
        }
        let first = clone_state(&events[0]);
        let mut account = AccountAny::from(first);
        assert(account.core_spec().balances@ == merge_all(
            events@[0].balances@,
            events@.subrange(1, 1),
        )) by {
            assert(events@.subrange(1, 1) =~= Seq::<AccountState>::empty());
        }
        let mut i: usize = 1;
        while i < events.len()
            invariant
                1 <= i <= events@.len(),
                forall|k: int| 0 <= k < events@.len() ==> (#[trigger] events@[k]).wf(),
                account.wf(),
                account.account_type_spec() == events@[0].account_type,
                account.core_spec().id == events@[0].account_id,
                account.core_spec().base_currency == events@[0].base_currency,
                account.core_spec().events@.len() == i,
                forall|k: int|
                    0 <= k < i ==> state_eq(#[trigger] account.core_spec().events@[k], events@[k]),
                account.core_spec().balances@ == merge_all(
                    events@[0].balances@,
                    events@.subrange(1, i as int),
                ),
            decreases events.len() - i,
        {
            let ghost pre = account.core_spec().events@;
            let next = clone_state(&events[i]);
            proof {
                lemma_merge_all_snoc(
                    events@[0].balances@,
                    events@.subrange(1, i as int),
                    events@[i as int],
                );
                assert(events@.subrange(1, (i + 1) as int) =~= events@.subrange(
                    1,
                    i as int,
                ).push(events@[i as int]));
            }
            account.apply(next);
            proof {
                assert(account.core_spec().events@ == pre.push(next));
                assert(forall|k: int|
                    0 <= k < i ==> state_eq(#[trigger] account.core_spec().events@[k], events@[k]));
                assert(state_eq(account.core_spec().events@[i as int], events@[i as int]));
            }
            i = i + 1;
        }
        assert(events@.subrange(1, events@.len() as int) =~= events@.drop_first());
        Ok(account)
    }

    /// The profit-and-loss entries a fill produces. A cash account
    /// realises the fill's cash flow in the instrument's quote
    /// currency; a margin account realises nothing at fill time, its
    /// exposure being settled through position accounting.
    pub fn calculate_pnls(
        &self,
        instrument: InstrumentAny,
        fill: OrderFilled,
        _position: Option<Position>,
    ) -> (r: Result<Vec<Money>, anyhow::Error>)
        requires
            fill.last_qty * fill.last_px <= i64::MAX,
        ensures
            r.is_ok(),
            match r {
                Ok(pnls) => match *self {
                    AccountAny::Margin(_) => pnls@.len() == 0,
                    AccountAny::Cash(_) => pnls@.len() == 1 && pnls@[0] == (Money {
                        raw: fill_cashflow(fill) as i64,
                        currency: instrument.quote_currency,
                    }),
                },
                Err(_) => false,
            },
    {
        match self {
            AccountAny::Margin(_) => Ok(Vec::new()),
            AccountAny::Cash(_) => {
                let notional: u64 = fill.last_qty * fill.last_px;
                let raw: i64 = match fill.side {
                    OrderSide::Buy => -(notional as i64),
                    OrderSide::Sell => notional as i64,
                };
                let mut pnls: Vec<Money> = Vec::new();
                pnls.push(Money { raw, currency: instrument.quote_currency });
                Ok(pnls)
            }
        }
    }
}

impl Default for AccountAny {
    /// An empty cash account.
    fn default() -> (r: Self)
        ensures
            r.wf(),
            r.account_type_spec() == AccountType::Cash,
            r.core_spec().id.value == 0,
            r.core_spec().base_currency.is_none(),
            r.core_spec().events@.len() == 0,
            r.core_spec().balances@.len() == 0,
    {
        AccountAny::Cash(CashAccount::default())
    }
}

impl PartialEq for AccountAny {
    /// Two accounts are the same account when their identifiers agree.
    fn eq(&self, other: &Self) -> (r: bool) {
        self.id() == other.id()
    }
}

impl vstd::std_specs::cmp::PartialEqSpecImpl for AccountAny {
    open spec fn obeys_eq_spec() -> bool {
        true
    }

    open spec fn eq_spec(&self, other: &Self) -> bool {
        self.core_spec().id == other.core_spec().id
    }
}

/// Copy of a balance list.
fn clone_balances(src: &Vec<AccountBalance>) -> (r: Vec<AccountBalance>)
    ensures
        r@ == src@,
{
    let mut out: Vec<AccountBalance> = Vec::new();
    let mut i: usize = 0;
    while i < src.len()
        invariant
            i <= src.len(),
            out@ == src@.subrange(0, i as int),
        decreases src.len() - i,
    {
        out.push(src[i]);
        i = i + 1;
    }
    assert(out@ == src@);
    out
}

} // verus!
