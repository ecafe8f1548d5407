//! Key material and connection secrets. The value is held privately: reading
//! it back takes the explicit `expose_secret` call, and `redacted` is the only
//! rendering the type offers, so a secret cannot leak into a log by accident.

use vstd::prelude::*;
use vstd::string::StringExecFns;

verus! {

/// What `redacted` renders in place of the secret.
pub open spec fn redacted_text() -> Seq<char> {
    "[REDACTED]"@
}

/// A wrapped secret string: immutable after construction, revealed only on an
/// explicit call.
pub struct SecretValue {
    value: String,
}

impl View for SecretValue {
    type V = Seq<char>;

    closed spec fn view(&self) -> Seq<char> {
        self.value@
    }
}

impl SecretValue {
    pub fn new(value: String) -> (s: Self)
        ensures
            s@ == value@,
    {
        SecretValue { value }
    }

    /// The explicit reveal operation: the one way to read the secret back.
    pub fn expose_secret(&self) -> (r: &str)
        ensures
            r@ == self@,
    {
        self.value.as_str()
    }

    /// The redacted rendering; it never depends on the secret itself.
    pub fn redacted(&self) -> (r: String)
        ensures
            r@ == redacted_text(),
    {
        String::from_str("[REDACTED]")
    }
}

impl Clone for SecretValue {
    fn clone(&self) -> (r: Self)
        ensures
            r@ == self@,
    {
        SecretValue { value: self.value.clone() }
    }
}

} // verus!
