use anchor_lang::prelude::Pubkey;
use escrow_sol::keys::{authorized_launcher, holds_key};
use std::str::FromStr;

#[test]
fn launcher_is_the_documented_key() {
    let expected = Pubkey::from_str("9FEDyP1t345xFKVrJPN2TgQvQEJGz8KXE2xPV6TVXYY6").unwrap();
    assert_eq!(authorized_launcher(), expected);
}

#[test]
fn holds_key_compares_the_key_inside() {
    let a = Pubkey::new_from_array([1u8; 32]);
    let b = Pubkey::new_from_array([2u8; 32]);
    assert!(holds_key(&Some(a), &a));
    assert!(!holds_key(&Some(a), &b));
    assert!(!holds_key(&None, &a));
}
