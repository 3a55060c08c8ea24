use index_token::error::{check_nonnegative_amount, TokenError};
use index_token::token::{require_auth, IndexToken};

const ADMIN: u64 = 1;

fn ready() -> IndexToken {
    let mut t = IndexToken::new();
    t.initialize(ADMIN, 7, "Idx".to_string(), "IDX".to_string()).unwrap();
    t
}

#[test]
fn test_initialize() {
    let mut contract = IndexToken::new();
    let admin = 0xAB;
    let decimal = 18;
    let name = "MyToken".to_string();
    let symbol = "MTK".to_string();

    contract.initialize(admin, decimal, name.clone(), symbol.clone()).unwrap();

    assert_eq!(contract.name(), Ok(name));
    assert_eq!(contract.symbol(), Ok(symbol));
    assert_eq!(contract.decimals(), Ok(decimal));
}

#[test]
fn test_deposit_and_balance() {
    let mut contract = ready();
    let addr = 0xAB;
    let amount = 1000;

    contract.mint(&[ADMIN], addr, amount).unwrap();
    let balance = contract.balance(addr);

    assert_eq!(balance, amount);
}

#[test]
fn test_transfer() {
    let mut contract = ready();
    let from = 0xAB;
    let to = 0xCD;
    let amount = 500;

    contract.mint(&[ADMIN], from, amount).unwrap();
    contract.transfer(&[from], from, to, amount).unwrap();

    assert_eq!(contract.balance(from), 0);
    assert_eq!(contract.balance(to), amount);
}

#[test]
fn initialize_sets_metadata() {
    let t = ready();
    assert_eq!(t.name(), Ok("Idx".to_string()));
    assert_eq!(t.symbol(), Ok("IDX".to_string()));
    assert_eq!(t.decimals(), Ok(7));
    assert_eq!(t.admin(), Ok(ADMIN));
}

#[test]
fn initialize_twice_fails_and_keeps_state() {
    let mut t = ready();
    assert_eq!(
        t.initialize(9, 3, "Other".to_string(), "OTH".to_string()),
        Err(TokenError::AlreadyInitialized)
    );
    assert_eq!(t.name(), Ok("Idx".to_string()));
    assert_eq!(t.symbol(), Ok("IDX".to_string()));
    assert_eq!(t.decimals(), Ok(7));
    assert_eq!(t.admin(), Ok(ADMIN));
}

#[test]
fn initialize_rejects_too_many_decimals() {
    let mut t = IndexToken::new();
    assert_eq!(
        t.initialize(ADMIN, 19, "A".to_string(), "B".to_string()),
        Err(TokenError::InvalidDecimal)
    );
    assert_eq!(t.admin(), Err(TokenError::Uninitialized));
    assert_eq!(t.initialize(ADMIN, 18, "A".to_string(), "B".to_string()), Ok(()));
}

#[test]
fn uninitialized_reads_fail() {
    let t = IndexToken::new();
    assert_eq!(t.name(), Err(TokenError::Uninitialized));
    assert_eq!(t.symbol(), Err(TokenError::Uninitialized));
    assert_eq!(t.decimals(), Err(TokenError::Uninitialized));
    assert_eq!(t.admin(), Err(TokenError::Uninitialized));
}

#[test]
fn add_and_remove_assets() {
    let mut t = ready();
    let x = 50;
    t.add_token(&[ADMIN, x], x, 100).unwrap();
    t.add_token(&[ADMIN, x], x, 50).unwrap();
    assert_eq!(t.get_token_balance(x), 150);
    assert_eq!(t.remove_token(&[ADMIN, x], x, 200), Err(TokenError::InsufficientBalance));
    assert_eq!(t.get_token_balance(x), 150);
    t.remove_token(&[ADMIN, x], x, 150).unwrap();
    assert_eq!(t.get_token_balance(x), 0);
}

#[test]
fn asset_pool_needs_both_signatures() {
    let mut t = ready();
    let x = 50;
    assert_eq!(t.add_token(&[ADMIN], x, 10), Err(TokenError::NotAuthorized));
    assert_eq!(t.add_token(&[x], x, 10), Err(TokenError::NotAuthorized));
    assert_eq!(t.add_token(&[ADMIN, x], x, -1), Err(TokenError::NegativeAmount));
    assert_eq!(t.get_token_balance(x), 0);
    assert_eq!(IndexToken::new().add_token(&[ADMIN, x], x, 1), Err(TokenError::Uninitialized));
}

#[test]
fn asset_pool_overflow() {
    let mut t = ready();
    let x = 50;
    t.add_token(&[ADMIN, x], x, i128::MAX).unwrap();
    assert_eq!(t.add_token(&[ADMIN, x], x, 1), Err(TokenError::Overflow));
    assert_eq!(t.get_token_balance(x), i128::MAX);
}

#[test]
fn approve_then_transfer_from() {
    let mut t = ready();
    let (o, s, dest) = (10, 20, 30);
    t.mint(&[ADMIN], o, 100).unwrap();
    t.approve(&[o], o, s, 40, 1000).unwrap();
    assert_eq!(t.allowance(o, s, 5), 40);
    t.transfer_from(&[s], 5, s, o, dest, 25).unwrap();
    assert_eq!(t.allowance(o, s, 5), 15);
    assert_eq!(t.balance(dest), 25);
    assert_eq!(t.balance(o), 75);
}

#[test]
fn transfer_from_beyond_allowance_changes_nothing() {
    let mut t = ready();
    let (o, s, dest) = (10, 20, 30);
    t.mint(&[ADMIN], o, 100).unwrap();
    t.approve(&[o], o, s, 40, 1000).unwrap();
    assert_eq!(t.transfer_from(&[s], 5, s, o, dest, 41), Err(TokenError::InsufficientAllowance));
    assert_eq!(t.allowance(o, s, 5), 40);
    assert_eq!(t.balance(o), 100);
    assert_eq!(t.balance(dest), 0);
}

#[test]
fn transfer_from_with_short_balance_keeps_allowance() {
    let mut t = ready();
    let (o, s, dest) = (10, 20, 30);
    t.mint(&[ADMIN], o, 10).unwrap();
    t.approve(&[o], o, s, 40, 1000).unwrap();
    assert_eq!(t.transfer_from(&[s], 5, s, o, dest, 20), Err(TokenError::InsufficientBalance));
    assert_eq!(t.allowance(o, s, 5), 40);
    assert_eq!(t.balance(o), 10);
}

#[test]
fn expired_allowance_reads_zero() {
    let mut t = ready();
    let (o, s) = (10, 20);
    t.mint(&[ADMIN], o, 100).unwrap();
    t.approve(&[o], o, s, 40, 100).unwrap();
    assert_eq!(t.allowance(o, s, 99), 40);
    assert_eq!(t.allowance(o, s, 100), 0);
    assert_eq!(t.allowance(o, s, 101), 0);
    assert_eq!(t.transfer_from(&[s], 100, s, o, 30, 1), Err(TokenError::InsufficientAllowance));
    assert_eq!(t.allowance(o, 99, 0), 0);
}

#[test]
fn negative_transfer_is_rejected() {
    let mut t = ready();
    let (a, b) = (10, 20);
    t.mint(&[ADMIN], a, 100).unwrap();
    assert_eq!(t.transfer(&[a], a, b, -5), Err(TokenError::NegativeAmount));
    assert_eq!(t.balance(a), 100);
    assert_eq!(t.balance(b), 0);
}

#[test]
fn negative_amounts_are_rejected_everywhere() {
    let mut t = ready();
    let (a, b) = (10, 20);
    assert_eq!(t.approve(&[a], a, b, -1, 10), Err(TokenError::NegativeAmount));
    assert_eq!(t.burn(&[a], a, -1), Err(TokenError::NegativeAmount));
    assert_eq!(t.burn_from(&[b], 0, b, a, -1), Err(TokenError::NegativeAmount));
    assert_eq!(t.transfer_from(&[b], 0, b, a, b, -1), Err(TokenError::NegativeAmount));
    assert_eq!(t.mint(&[ADMIN], a, -1), Err(TokenError::NegativeAmount));
    assert_eq!(t.remove_token(&[ADMIN, a], a, -1), Err(TokenError::NegativeAmount));
}

#[test]
fn transfer_needs_sender_signature() {
    let mut t = ready();
    let (a, b) = (10, 20);
    t.mint(&[ADMIN], a, 100).unwrap();
    assert_eq!(t.transfer(&[b], a, b, 5), Err(TokenError::NotAuthorized));
    assert_eq!(t.balance(a), 100);
}

#[test]
fn transfer_insufficient_balance() {
    let mut t = ready();
    let (a, b) = (10, 20);
    t.mint(&[ADMIN], a, 4).unwrap();
    assert_eq!(t.transfer(&[a], a, b, 5), Err(TokenError::InsufficientBalance));
    assert_eq!(t.balance(a), 4);
}

#[test]
fn transfer_overflow_changes_nothing() {
    let mut t = ready();
    let (a, b) = (10, 20);
    t.mint(&[ADMIN], a, 5).unwrap();
    t.mint(&[ADMIN], b, i128::MAX).unwrap();
    assert_eq!(t.transfer(&[a], a, b, 1), Err(TokenError::Overflow));
    assert_eq!(t.balance(a), 5);
    assert_eq!(t.balance(b), i128::MAX);
    assert_eq!(t.mint(&[ADMIN], b, 1), Err(TokenError::Overflow));
}

#[test]
fn transfer_to_self_keeps_balance() {
    let mut t = ready();
    t.mint(&[ADMIN], 10, 7).unwrap();
    t.transfer(&[10], 10, 10, 7).unwrap();
    assert_eq!(t.balance(10), 7);
}

#[test]
fn transfer_round_trip_restores_balances() {
    let mut t = ready();
    let (a, b) = (10, 20);
    t.mint(&[ADMIN], a, 100).unwrap();
    t.mint(&[ADMIN], b, 3).unwrap();
    t.transfer(&[a], a, b, 60).unwrap();
    assert_eq!((t.balance(a), t.balance(b)), (40, 63));
    t.transfer(&[b], b, a, 60).unwrap();
    assert_eq!((t.balance(a), t.balance(b)), (100, 3));
}

#[test]
fn transfers_conserve_and_mint_burn_change_total() {
    let mut t = ready();
    let accounts = [10u64, 20, 30];
    let total = |t: &IndexToken| accounts.iter().map(|a| t.balance(*a)).sum::<i128>();
    t.mint(&[ADMIN], 10, 100).unwrap();
    assert_eq!(total(&t), 100);
    t.transfer(&[10], 10, 20, 30).unwrap();
    t.approve(&[20], 20, 30, 10, 50).unwrap();
    t.transfer_from(&[30], 1, 30, 20, 30, 10).unwrap();
    assert_eq!(total(&t), 100);
    t.burn(&[10], 10, 20).unwrap();
    assert_eq!(total(&t), 80);
    t.approve(&[30], 30, 10, 5, 50).unwrap();
    t.burn_from(&[10], 1, 10, 30, 5).unwrap();
    assert_eq!(total(&t), 75);
    assert_eq!(t.allowance(30, 10, 1), 0);
    assert_eq!((t.balance(10), t.balance(20), t.balance(30)), (50, 20, 5));
}

#[test]
fn deauthorized_account_cannot_move_funds() {
    let mut t = ready();
    let (a, b) = (10, 20);
    t.mint(&[ADMIN], a, 100).unwrap();
    assert_eq!(t.set_authorized(&[a], a, false), Err(TokenError::NotAuthorized));
    t.set_authorized(&[ADMIN], a, false).unwrap();
    assert!(!t.authorized(a));
    assert!(t.authorized(b));
    assert_eq!(t.transfer(&[a], a, b, 1), Err(TokenError::NotAuthorized));
    assert_eq!(t.transfer(&[b], b, a, 0), Err(TokenError::NotAuthorized));
    assert_eq!(t.burn(&[a], a, 1), Err(TokenError::NotAuthorized));
    t.set_authorized(&[ADMIN], a, true).unwrap();
    t.transfer(&[a], a, b, 1).unwrap();
    assert_eq!(t.balance(b), 1);
}

#[test]
fn admin_rotation() {
    let mut t = ready();
    assert_eq!(t.set_admin(&[2], 2), Err(TokenError::NotAuthorized));
    t.set_admin(&[ADMIN], 2).unwrap();
    assert_eq!(t.admin(), Ok(2));
    assert_eq!(t.mint(&[ADMIN], 10, 1), Err(TokenError::NotAuthorized));
    t.mint(&[2], 10, 1).unwrap();
    assert_eq!(IndexToken::new().set_admin(&[ADMIN], 2), Err(TokenError::Uninitialized));
}

#[test]
fn nav_is_admin_only() {
    let mut t = ready();
    assert_eq!(t.get_nav(), 0);
    assert_eq!(t.update_nav(&[5], 42), Err(TokenError::NotAuthorized));
    t.update_nav(&[ADMIN], 42).unwrap();
    assert_eq!(t.get_nav(), 42);
}

#[test]
fn burn_reduces_balance() {
    let mut t = ready();
    t.mint(&[ADMIN], 10, 9).unwrap();
    t.burn(&[10], 10, 4).unwrap();
    assert_eq!(t.balance(10), 5);
    assert_eq!(t.burn(&[10], 10, 6), Err(TokenError::InsufficientBalance));
    assert_eq!(t.balance(10), 5);
}

#[test]
fn zero_amount_spend_of_missing_allowance() {
    let mut t = ready();
    t.transfer_from(&[20], 0, 20, 10, 30, 0).unwrap();
    assert_eq!(t.allowance(10, 20, 0), 0);
}

#[test]
fn helpers() {
    assert_eq!(check_nonnegative_amount(0), Ok(()));
    assert_eq!(check_nonnegative_amount(-1), Err(TokenError::NegativeAmount));
    assert!(require_auth(&[3, 4], 4));
    assert!(!require_auth(&[3, 4], 5));
    assert!(!require_auth(&[], 5));
}
