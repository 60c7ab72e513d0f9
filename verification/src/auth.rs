//! What a bearer token says of its holder.

use vstd::prelude::*;
use vstd::string::*;

verus! {

/// The claims that a token carries: whose it is, and until when it holds.
#[derive(Debug, PartialEq, Eq)]
pub struct Claims {
    pub user_id: i32,
    pub signature: String,
    pub exp: i64,
}

/// For how many seconds a token holds: one hour.
pub const TOKEN_LIFETIME: i64 = 3600;

impl Clone for Claims {
    fn clone(&self) -> (copy: Self)
        ensures
            copy == *self,
    {
        Claims { user_id: self.user_id, signature: self.signature.clone(), exp: self.exp }
    }
}

impl Claims {
    /// The claims of a token issued to a user at `now`, in seconds since
    /// 1970-01-01 00:00:00: it expires one hour later.
    pub fn issue(user_id: i32, now: i64) -> (claims: Claims)
        requires
            now + TOKEN_LIFETIME <= i64::MAX,
        ensures
            claims.user_id == user_id,
            claims.signature@ == "signature"@,
            claims.exp == now + 3600,
    {
        Claims { user_id, signature: String::from_str("signature"), exp: now + TOKEN_LIFETIME }
    }
}

} // verus!
