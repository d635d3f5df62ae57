//! User settings carried between sessions.
//!
//! Reading and writing the settings file is the shell's business; what
//! stands here is the data and the one decision made over it at startup.

use vstd::prelude::*;

verus! {

/// A stored wallet: a display name and its public key.
#[derive(Debug)]
pub struct Wallet {
    pub name: String,
    pub public_key: String,
}

/// The persisted user settings.
#[derive(Debug)]
pub struct Settings {
    pub wallets: Vec<Wallet>,
    pub recent_token_id: Option<String>,
}

impl Settings {
    /// The wallet key a session starts with: the first stored wallet's
    /// public key, if any wallet is stored.
    pub fn first_public_key(&self) -> (r: Option<String>)
        ensures
            self.wallets@.len() > 0 ==> (r matches Some(k) && k@ == self.wallets@[0].public_key@),
            self.wallets@.len() == 0 ==> r is None,
    {
        if self.wallets.len() > 0 {
            Some(self.wallets[0].public_key.clone())
        } else {
            None
        }
    }
}

} // verus!
