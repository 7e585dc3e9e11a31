use spotify_tui::credential::{token_expiry, Credential, TokenInfo, AUTH_SAFETY_MARGIN_SECS};
use spotify_tui::nav::{ActiveBlock, NavStack, Route, RouteId};

fn root() -> Route {
    Route { id: RouteId::Home, active_block: ActiveBlock::Empty }
}

fn search_route() -> Route {
    Route { id: RouteId::Search, active_block: ActiveBlock::Input }
}

fn table_route() -> Route {
    Route { id: RouteId::TrackTable, active_block: ActiveBlock::TrackTable }
}

#[test]
fn pop_on_singleton_reports_underflow() {
    let mut stack = NavStack::new(root());
    assert_eq!(stack.pop(), None);
    assert_eq!(stack.depth(), 1);
    assert_eq!(*stack.top(), root());
}

#[test]
fn pop_removes_exactly_one_entry() {
    let mut stack = NavStack::new(root());
    stack.push(table_route());
    assert_eq!(stack.pop(), Some(table_route()));
    assert_eq!(stack.depth(), 1);
    assert_eq!(*stack.top(), root());
}

#[test]
fn back_pops_exactly_one_for_ordinary_route() {
    let mut stack = NavStack::new(root());
    stack.push(search_route());
    stack.push(table_route());
    let popped = stack.pop_for_back();
    assert_eq!(popped, Some(table_route()));
    assert_eq!(stack.depth(), 2);
    assert_eq!(*stack.top(), search_route());
}

#[test]
fn back_skips_the_search_entry() {
    let mut stack = NavStack::new(root());
    stack.push(table_route());
    stack.push(search_route());
    let popped = stack.pop_for_back();
    assert_eq!(popped, Some(table_route()));
    assert_eq!(stack.depth(), 1);
    assert_eq!(*stack.top(), root());
}

#[test]
fn back_from_search_above_root_signals_exit() {
    let mut stack = NavStack::new(root());
    stack.push(search_route());
    let popped = stack.pop_for_back();
    assert_eq!(popped, None);
    assert_eq!(stack.depth(), 1);
    assert_eq!(*stack.top(), root());
}

#[test]
fn back_on_root_signals_exit_and_keeps_root() {
    let mut stack = NavStack::new(root());
    assert_eq!(stack.pop_for_back(), None);
    assert_eq!(stack.depth(), 1);
    assert_eq!(*stack.top(), root());
}

#[test]
fn stack_never_empties_under_any_mix_of_operations() {
    let mut stack = NavStack::new(root());
    for _ in 0..3 {
        stack.push(search_route());
        stack.push(table_route());
    }
    for _ in 0..20 {
        stack.pop_for_back();
        assert!(stack.depth() >= 1);
    }
    assert_eq!(*stack.top(), root());
}

#[test]
fn validity_holds_up_to_expiry_and_fails_strictly_after() {
    let credential = Credential { token: String::from("token-alpha"), expiry: 500 };
    assert!(credential.is_valid(0));
    assert!(credential.is_valid(499));
    assert!(credential.is_valid(500));
    assert!(!credential.is_valid(501));
    assert!(!credential.is_valid(u64::MAX));
}

#[test]
fn refresh_expiry_is_lifetime_minus_safety_margin() {
    assert_eq!(AUTH_SAFETY_MARGIN_SECS, 10);
    assert_eq!(token_expiry(100, 60), 150);
    assert_eq!(token_expiry(0, 10), 0);
    assert_eq!(token_expiry(0, 4), 0);
}

#[test]
fn refresh_with_real_lifetime_lands_strictly_in_the_future() {
    let now = 1_000_000;
    let expiry = token_expiry(now, 3600);
    assert_eq!(expiry, now + 3600 - 10);
    assert!(expiry > now);
}

#[test]
fn credential_from_token_info_carries_token_and_margin() {
    let info = TokenInfo { access_token: String::from("token-alpha"), expires_in: 3600 };
    let c = Credential::from_token_info(info, 50);
    assert_eq!(c.token, "token-alpha");
    assert_eq!(c.expiry, 50 + 3600 - 10);
}
