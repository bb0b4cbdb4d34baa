//! Identities. Every principal, and every address at which a record is kept,
//! is a `Pubkey`. The rules of the escrow only ever ask whether two of them are
//! the same key.

use anchor_lang::prelude::Pubkey;
use vstd::prelude::*;

verus! {

/// `Pubkey` is taken as it is. Nothing is known of a key but whether it is
/// another.
#[verifier::external_type_specification]
#[verifier::external_body]
pub struct ExPubkey(Pubkey);

/// The key that `Pubkey::new_from_array` makes of 32 bytes.
pub uninterp spec fn key_of(bytes: Seq<u8>) -> Pubkey;

/// Whether two keys are the same key.
///
/// Calls `Pubkey`'s `==`, which compares the 32 bytes of the two keys. The
/// contract claims that this is equality of the two values: a `Pubkey` holds
/// nothing but those bytes.
#[verifier::external_body]
pub(crate) fn same_key(a: &Pubkey, b: &Pubkey) -> (same: bool)
    ensures
        same == (*a == *b),
{
    a == b
}

/// The key with the given bytes.
///
/// Calls `Pubkey::new_from_array`, which stores the bytes as they are. The
/// contract only gives the result its name: the same bytes make the same key.
#[verifier::external_body]
pub(crate) fn key_from_array(bytes: [u8; 32]) -> (key: Pubkey)
    ensures
        key == key_of(bytes@),
{
    Pubkey::new_from_array(bytes)
}

/// Whether an optional key is present and is the given key.
pub fn holds_key(slot: &Option<Pubkey>, key: &Pubkey) -> (held: bool)
    ensures
        held == (*slot == Some(*key)),
{
    match slot {
        Some(inner) => same_key(inner, key),
        None => false,
    }
}

/// The bytes of the one key that may create the configuration. In base 58
/// they read `9FEDyP1t345xFKVrJPN2TgQvQEJGz8KXE2xPV6TVXYY6`.
pub open spec fn launcher_bytes() -> Seq<u8> {
    seq![
        122u8, 130u8, 148u8, 42u8, 130u8, 101u8, 245u8, 9u8,
        18u8, 251u8, 17u8, 48u8, 189u8, 112u8, 117u8, 188u8,
        42u8, 148u8, 7u8, 186u8, 95u8, 10u8, 206u8, 15u8,
        63u8, 95u8, 225u8, 3u8, 230u8, 199u8, 204u8, 87u8,
    ]
}

/// The one key that may create the configuration.
pub open spec fn launcher() -> Pubkey {
    key_of(launcher_bytes())
}

/// Makes the launcher's key.
pub fn authorized_launcher() -> (key: Pubkey)
    ensures
        key == launcher(),
{
    let bytes: [u8; 32] = [
        122, 130, 148, 42, 130, 101, 245, 9,
        18, 251, 17, 48, 189, 112, 117, 188,
        42, 148, 7, 186, 95, 10, 206, 15,
        63, 95, 225, 3, 230, 199, 204, 87,
    ];
    assert(bytes@ =~= launcher_bytes());
    key_from_array(bytes)
}

} // verus!
