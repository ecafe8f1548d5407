//! The outbound-mail client. In this scope it is a collaborator constructed
//! synchronously from settings — it performs no network I/O at construction —
//! so the type holds exactly what the settings hand it.

use crate::secret::SecretValue;
use vstd::prelude::*;

verus! {

/// The outbound-mail client handle placed into the shared runtime context.
pub struct EmailClient {
    base_url: String,
    sender: String,
    authorization_token: SecretValue,
}

impl EmailClient {
    pub closed spec fn base_url_spec(&self) -> Seq<char> {
        self.base_url@
    }

    pub closed spec fn sender_spec(&self) -> Seq<char> {
        self.sender@
    }

    pub closed spec fn authorization_token_spec(&self) -> Seq<char> {
        self.authorization_token@
    }

    pub fn new(base_url: String, sender: String, authorization_token: SecretValue) -> (c: Self)
        ensures
            c.base_url_spec() == base_url@,
            c.sender_spec() == sender@,
            c.authorization_token_spec() == authorization_token@,
    {
        EmailClient { base_url, sender, authorization_token }
    }

    pub fn base_url(&self) -> (r: &str)
        ensures
            r@ == self.base_url_spec(),
    {
        self.base_url.as_str()
    }

    pub fn sender(&self) -> (r: &str)
        ensures
            r@ == self.sender_spec(),
    {
        self.sender.as_str()
    }

    /// The token is a secret: reading it takes the explicit reveal.
    pub fn authorization_token(&self) -> (r: &SecretValue)
        ensures
            r@ == self.authorization_token_spec(),
    {
        &self.authorization_token
    }
}

impl Clone for EmailClient {
    fn clone(&self) -> (r: Self)
        ensures
            r.base_url_spec() == self.base_url_spec(),
            r.sender_spec() == self.sender_spec(),
            r.authorization_token_spec() == self.authorization_token_spec(),
    {
        EmailClient {
            base_url: self.base_url.clone(),
            sender: self.sender.clone(),
            authorization_token: self.authorization_token.clone(),
        }
    }
}

} // verus!
