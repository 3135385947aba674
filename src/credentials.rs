//! Authentication data attached to every request.
use vstd::prelude::*;

use crate::query::{pairs_view, push_pair};

verus! {

/// How requests are authenticated.
#[derive(Clone, Debug)]
pub enum Credentials {
    /// Userless access, identified by the application's id and secret.
    Client { client_id: String, client_secret: String },
    /// Access on behalf of a member, through an OAuth token.
    User { oauth_token: String },
}

impl PartialEq for Credentials {
    fn eq(&self, other: &Credentials) -> (r: bool) {
        match (self, other) {
            (Credentials::Client { client_id: a, client_secret: b }, Credentials::Client { client_id: c, client_secret: d }) => {
                a.eq(c) && b.eq(d)
            },
            (Credentials::User { oauth_token: a }, Credentials::User { oauth_token: b }) => a.eq(b),
            _ => false,
        }
    }
}

impl vstd::std_specs::cmp::PartialEqSpecImpl for Credentials {
    open spec fn obeys_eq_spec() -> bool {
        true
    }

    open spec fn eq_spec(&self, other: &Credentials) -> bool {
        self.same_as(*other)
    }
}

impl Credentials {
    /// Equality of the credentials' texts.
    pub open spec fn same_as(self, other: Credentials) -> bool {
        match (self, other) {
            (Credentials::Client { client_id: a, client_secret: b }, Credentials::Client { client_id: c, client_secret: d }) => {
                a@ == c@ && b@ == d@
            },
            (Credentials::User { oauth_token: a }, Credentials::User { oauth_token: b }) => a@ == b@,
            _ => false,
        }
    }

    /// Application credentials made of a client id and a client secret.
    pub fn client(id: &str, secret: &str) -> (r: Credentials)
        ensures
            r is Client,
            r->client_id@ == id@,
            r->client_secret@ == secret@,
    {
        Credentials::Client { client_id: String::from_str(id), client_secret: String::from_str(secret) }
    }

    /// Member credentials made of an OAuth token.
    pub fn user(token: &str) -> (r: Credentials)
        ensures
            r is User,
            r->oauth_token@ == token@,
    {
        Credentials::User { oauth_token: String::from_str(token) }
    }

    /// The query pairs that authenticate a request: the API version first,
    /// then either the client id and secret or the OAuth token.
    pub open spec fn auth_pairs_spec(self, version: Seq<char>) -> Seq<(Seq<char>, Seq<char>)> {
        seq![("v"@, version)] + match self {
            Credentials::Client { client_id, client_secret } => seq![
                ("client_id"@, client_id@),
                ("client_secret"@, client_secret@),
            ],
            Credentials::User { oauth_token } => seq![("oauth_token"@, oauth_token@)],
        }
    }

    /// Builds the query pairs that authenticate a request.
    pub fn auth_pairs(&self, version: &str) -> (r: Vec<(String, String)>)
        ensures
            pairs_view(r@) == self.auth_pairs_spec(version@),
    {
        let mut out: Vec<(String, String)> = Vec::new();
        push_pair(&mut out, "v", String::from_str(version));
        match self {
            Credentials::Client { client_id, client_secret } => {
                push_pair(&mut out, "client_id", client_id.clone());
                push_pair(&mut out, "client_secret", client_secret.clone());
            },
            Credentials::User { oauth_token } => {
                push_pair(&mut out, "oauth_token", oauth_token.clone());
            },
        }
        assert(pairs_view(out@) =~= self.auth_pairs_spec(version@));
        out
    }
}

} // verus!
