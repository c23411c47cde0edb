//! The trading wallet: its public key and the short form shown in reports.

use vstd::prelude::*;
use vstd::utf8::{encode_utf8, is_ascii_chars};

use crate::text::{abbreviate, can_abbreviate, lemma_ascii_can_abbreviate, spec_abbreviate};

verus! {

/// The base58 text of a 32-byte public key, as `Pubkey`'s `Display` writes it.
pub uninterp spec fn pubkey_base58(bytes: Seq<u8>) -> Seq<char>;

/// The base58 text of a public key.
///
/// Calls `solana_sdk::pubkey::Pubkey::new_from_array` and its `to_string`.
/// The text is the key's base58 encoding, named by [`pubkey_base58`]; the
/// crate writes it from the 58-character base58 alphabet into a buffer of
/// 44 bytes, so it is ASCII and at most 44 characters long.
#[verifier::external_body]
fn pubkey_to_string(pubkey: &[u8; 32]) -> (r: String)
    ensures
        r@ == pubkey_base58(pubkey@),
        is_ascii_chars(r@),
        r@.len() <= 44,
{
    solana_sdk::pubkey::Pubkey::new_from_array(*pubkey).to_string()
}

/// A wallet whose key pair was read from disk.
#[derive(Debug, Clone)]
pub struct LoadedWallet {
    pub keypair_path: String,
    /// The 32 bytes of the public key.
    pub pubkey: [u8; 32],
    pub pubkey_short: String,
}

/// `format!("{}...{}", &value[..4], &value[len - 4..])` for texts longer than
/// 10 bytes; shorter texts are kept whole.
pub fn shorten_pubkey_text(value: &str) -> (r: String)
    requires
        can_abbreviate(encode_utf8(value@), 10, 4, 4),
    ensures
        r@ == spec_abbreviate(value@, 10, 4, 4),
{
    abbreviate(value, 10, 4, 4)
}

/// The short form of a public key: its base58 text cut as
/// [`shorten_pubkey_text`] does.
pub fn shorten_pubkey(pubkey: &[u8; 32]) -> (r: String)
    ensures
        r@ == spec_abbreviate(pubkey_base58(pubkey@), 10, 4, 4),
{
    let value = pubkey_to_string(pubkey);
    proof {
        lemma_ascii_can_abbreviate(value@, 10, 4, 4);
    }
    shorten_pubkey_text(value.as_str())
}

impl LoadedWallet {
    /// The wallet for the key pair read from `keypair_path`, whose public key
    /// is `pubkey`.
    pub fn from_pubkey(keypair_path: String, pubkey: [u8; 32]) -> (r: LoadedWallet)
        ensures
            r.keypair_path@ == keypair_path@,
            r.pubkey@ == pubkey@,
            r.pubkey_short@ == spec_abbreviate(pubkey_base58(pubkey@), 10, 4, 4),
    {
        let pubkey_short = shorten_pubkey(&pubkey);
        LoadedWallet { keypair_path, pubkey, pubkey_short }
    }
}

} // verus!
