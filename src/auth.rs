//! The cached authentication token of a tracker account.
//!
//! The token is kept under `rusty:tractive:{email}:authentication` as a hash of
//! `user_id` and `access_token`, written together with its absolute expiry in one
//! transaction: the record has both fields or none.

use vstd::prelude::*;

use crate::fields::{field, field_value, find_field};

verus! {

/// An access token of the tracker cloud; `expires_at` is in seconds since the epoch.
pub struct Token {
    pub user_id: String,
    pub access_token: String,
    pub expires_at: i64,
}

/// The hash fields of a cached token: `user_id`, then `access_token`.
pub fn token_fields(token: &Token) -> (r: Vec<(String, String)>)
    ensures
        r@.len() == 2,
        r@[0].0@ == "user_id"@,
        r@[0].1 == token.user_id,
        r@[1].0@ == "access_token"@,
        r@[1].1 == token.access_token,
{
    let mut r = Vec::new();
    r.push(field("user_id", token.user_id.clone()));
    r.push(field("access_token", token.access_token.clone()));
    r
}

/// The cached credentials in a hash, if it has both fields.
pub open spec fn cached_spec(fields: Seq<(String, String)>) -> Option<(String, String)> {
    match (field_value(fields, "user_id"@), field_value(fields, "access_token"@)) {
        (Some(user_id), Some(access_token)) => Some((user_id, access_token)),
        _ => None,
    }
}

/// The user id and access token of a cached record; `None` means authenticate anew.
pub fn cached_credentials(fields: &Vec<(String, String)>) -> (r: Option<(String, String)>)
    ensures
        r == cached_spec(fields@),
{
    match (find_field(fields, "user_id"), find_field(fields, "access_token")) {
        (Some(user_id), Some(access_token)) => Some((user_id.clone(), access_token.clone())),
        _ => None,
    }
}

/// The authentication record of one account, held in memory as the store holds it.
pub struct AuthCache {
    pub token: Option<Token>,
}

impl AuthCache {
    pub fn new() -> (r: Self)
        ensures
            r.token.is_none(),
    {
        AuthCache { token: None }
    }

    /// Writes both fields and the expiry at once.
    pub fn store(&mut self, token: Token)
        ensures
            final(self).token == Some(token),
    {
        self.token = Some(token);
    }

    /// The record's fields as read at `now` (seconds): none from the expiry on.
    pub fn fields_at(&self, now: i64) -> (r: Vec<(String, String)>)
        ensures
            match self.token {
                Some(t) if now < t.expires_at => cached_spec(r@) == Some((t.user_id, t.access_token)),
                _ => r@.len() == 0,
            },
    {
        match &self.token {
            Some(t) if now < t.expires_at => {
                let r = token_fields(t);
                proof { lemma_token_fields_cached(r@); }
                r
            },
            _ => Vec::new(),
        }
    }
}

proof fn lemma_token_fields_cached(fields: Seq<(String, String)>)
    requires
        fields.len() == 2,
        fields[0].0@ == "user_id"@,
        fields[1].0@ == "access_token"@,
    ensures
        cached_spec(fields) == Some((fields[0].1, fields[1].1)),
{
    reveal_strlit("user_id");
    reveal_strlit("access_token");
    assert("user_id"@.len() != "access_token"@.len());
    assert(fields.drop_first()[0] == fields[1]);
    assert(field_value(fields.drop_first(), "access_token"@) == Some(fields[1].1));
}

/// The record read at any time has both fields or neither, and neither from the
/// expiry on.
pub proof fn lemma_auth_record_coherent(cache: AuthCache, now: i64, fields: Seq<(String, String)>)
    requires
        match cache.token {
            Some(t) if now < t.expires_at => cached_spec(fields) == Some((t.user_id, t.access_token)),
            _ => fields.len() == 0,
        },
    ensures
        field_value(fields, "user_id"@) is Some <==> field_value(fields, "access_token"@) is Some,
        (cache.token matches Some(t) && now >= t.expires_at) ==> field_value(fields, "user_id"@) is None
            && field_value(fields, "access_token"@) is None,
{
}

} // verus!
