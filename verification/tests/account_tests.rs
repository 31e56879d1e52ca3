use nautilus_network::account::{
    AccountAny, AccountId, AccountState, AccountType, InstrumentAny, OrderFilled, OrderSide,
};
use nautilus_network::types::{AccountBalance, Currency, Money};

fn usd() -> Currency {
    Currency { code: 840 }
}

fn eur() -> Currency {
    Currency { code: 978 }
}

fn balance(currency: Currency, locked: i64, free: i64) -> AccountBalance {
    AccountBalance { currency, total: locked + free, locked, free }
}

fn state(id: u64, kind: AccountType, balances: Vec<AccountBalance>) -> AccountState {
    AccountState {
        account_id: AccountId { value: id },
        account_type: kind,
        balances,
        base_currency: Some(usd()),
    }
}

#[test]
fn from_events_rejects_an_empty_history() {
    assert!(AccountAny::from_events(Vec::new()).is_err());
}

#[test]
fn from_events_folds_the_history() {
    let first = state(7, AccountType::Cash, vec![balance(usd(), 100, 900)]);
    let second = state(7, AccountType::Cash, vec![balance(usd(), 0, 1_500), balance(eur(), 20, 80)]);
    let account = AccountAny::from_events(vec![first, second]).unwrap();
    assert_eq!(account.id(), AccountId { value: 7 });
    assert_eq!(account.base_currency(), Some(usd()));
    assert_eq!(account.events().len(), 2);
    let balances = account.balances();
    assert_eq!(balances.len(), 2);
    // the later event replaced the dollar entry and added the euro one
    assert_eq!(balances[0], balance(usd(), 0, 1_500));
    assert_eq!(balances[1], balance(eur(), 20, 80));
}

#[test]
fn apply_replaces_balances_by_currency() {
    let mut account = AccountAny::from(state(1, AccountType::Margin, vec![balance(usd(), 50, 50)]));
    account.apply(state(1, AccountType::Margin, vec![balance(usd(), 10, 190)]));
    let balances = account.balances();
    assert_eq!(balances.len(), 1);
    assert_eq!(balances[0], balance(usd(), 10, 190));
    assert_eq!(account.events().len(), 2);
}

#[test]
fn last_event_is_the_newest() {
    let mut account = AccountAny::from(state(3, AccountType::Cash, vec![balance(usd(), 0, 10)]));
    assert_eq!(account.last_event().unwrap().balances[0], balance(usd(), 0, 10));
    account.apply(state(3, AccountType::Cash, vec![balance(usd(), 5, 10)]));
    assert_eq!(account.last_event().unwrap().balances[0], balance(usd(), 5, 10));
}

#[test]
fn balances_locked_projects_the_locked_parts() {
    let account = AccountAny::from(state(
        4,
        AccountType::Cash,
        vec![balance(usd(), 25, 75), balance(eur(), 0, 60)],
    ));
    let locked = account.balances_locked();
    assert_eq!(locked, vec![Money { raw: 25, currency: usd() }, Money { raw: 0, currency: eur() }]);
}

#[test]
fn cash_fill_realises_the_cash_flow() {
    let account = AccountAny::from(state(5, AccountType::Cash, Vec::new()));
    let instrument = InstrumentAny { quote_currency: usd() };
    let buy = OrderFilled { side: OrderSide::Buy, last_qty: 10, last_px: 250 };
    let pnls = account.calculate_pnls(instrument, buy, None).unwrap();
    assert_eq!(pnls, vec![Money { raw: -2_500, currency: usd() }]);
    let sell = OrderFilled { side: OrderSide::Sell, last_qty: 4, last_px: 300 };
    let pnls = account.calculate_pnls(instrument, sell, None).unwrap();
    assert_eq!(pnls, vec![Money { raw: 1_200, currency: usd() }]);
}

#[test]
fn margin_fill_realises_nothing() {
    let account = AccountAny::from(state(6, AccountType::Margin, Vec::new()));
    let instrument = InstrumentAny { quote_currency: usd() };
    let fill = OrderFilled { side: OrderSide::Buy, last_qty: 10, last_px: 250 };
    assert_eq!(account.calculate_pnls(instrument, fill, None).unwrap(), Vec::new());
}

#[test]
fn accounts_compare_by_identifier() {
    let a = AccountAny::from(state(9, AccountType::Cash, Vec::new()));
    let b = AccountAny::from(state(9, AccountType::Margin, vec![balance(eur(), 1, 2)]));
    let c = AccountAny::from(state(10, AccountType::Cash, Vec::new()));
    assert!(a == b);
    assert!(a != c);
}

#[test]
fn default_account_is_an_empty_cash_account() {
    let account = AccountAny::default();
    assert_eq!(account.id(), AccountId { value: 0 });
    assert!(account.last_event().is_none());
    assert!(account.events().is_empty());
    assert!(account.balances().is_empty());
    assert!(account.base_currency().is_none());
}

#[test]
fn from_keeps_the_account_kind() {
    let cash = AccountAny::from(state(11, AccountType::Cash, Vec::new()));
    assert!(matches!(cash, AccountAny::Cash(_)));
    let margin = AccountAny::from(state(12, AccountType::Margin, Vec::new()));
    assert!(matches!(margin, AccountAny::Margin(_)));
}
