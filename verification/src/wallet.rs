//! What a caller may hand in as a wallet's data.

use vstd::prelude::*;
use vstd::string::*;

verus! {

/// The data of a wallet: its address, and its private key where the
/// signer service made the wallet.
#[derive(Clone, Debug)]
pub struct WalletData {
    pub address: String,
    pub private_key: Option<String>,
}

/// Whether a character may stand inside an address: a Latin letter or a
/// digit other than zero.
pub open spec fn is_address_char(c: char) -> bool {
    ||| 'A' <= c <= 'Z'
    ||| 'a' <= c <= 'z'
    ||| '1' <= c <= '9'
}

/// Whether a text is an address: the letter `T`, then 33 address
/// characters, and nothing else.
pub open spec fn is_wallet_address(text: Seq<char>) -> bool {
    &&& text.len() == 34
    &&& text[0] == 'T'
    &&& forall|i: int| 1 <= i < 34 ==> is_address_char(#[trigger] text[i])
}

/// The verdict on a wallet's data: a private key is refused, then an
/// address of the wrong form; anything else passes.
pub open spec fn validation_of(data: WalletData) -> Result<(), Seq<char>> {
    if data.private_key is Some {
        Err("private_key not allowed"@)
    } else if !is_wallet_address(data.address@) {
        Err("invalid address"@)
    } else {
        Ok(())
    }
}

/// The text of a verdict's error, if it is one.
pub open spec fn verdict_view(r: Result<(), String>) -> Result<(), Seq<char>> {
    match r {
        Ok(()) => Ok(()),
        Err(text) => Err(text@),
    }
}

/// Tells whether a text is an address.
pub fn check_address(address: &str) -> (r: bool)
    ensures
        r == is_wallet_address(address@),
{
    if address.unicode_len() != 34 {
        return false;
    }
    if address.get_char(0) != 'T' {
        return false;
    }
    let mut i: usize = 1;
    while i < 34
        invariant
            1 <= i <= 34,
            address@.len() == 34,
            forall|j: int| 1 <= j < i ==> is_address_char(#[trigger] address@[j]),
        decreases 34 - i,
    {
        let c = address.get_char(i);
        let fits = ('A' <= c && c <= 'Z') || ('a' <= c && c <= 'z') || ('1' <= c && c <= '9');
        if !fits {
            assert(!is_address_char(address@[i as int]));
            return false;
        }
        i += 1;
    }
    true
}

impl WalletData {
    /// Checks data that a caller handed in.
    pub fn validate(self) -> (r: Result<(), String>)
        ensures
            verdict_view(r) == validation_of(self),
    {
        if self.private_key.is_some() {
            return Err(String::from_str("private_key not allowed"));
        }
        if !check_address(self.address.as_str()) {
            return Err(String::from_str("invalid address"));
        }
        Ok(())
    }
}

} // verus!
