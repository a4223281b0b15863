use vstd::prelude::*;
use vstd::string::StringExecFns;

use crate::json::{integer_text, decimal_text, pairs_view};

verus! {

/// The service's settings.
#[derive(Clone, Debug)]
pub struct Config {
    pub api: API,
    pub service: Service,
}

/// The upstream OAuth2 client registration.
#[derive(Clone, Debug)]
pub struct API {
    pub client_id: u64,
    pub client_secret: String,
    pub redirect_url: String,
    pub scope: Vec<String>,
}

/// Where and how the service listens.
#[derive(Clone, Debug)]
pub struct Service {
    pub bind_host: String,
    pub bind_port: u16,
    pub cookie_key: Option<String>,
    pub valkey: Valkey,
}

/// The persistent key-value backend.
#[derive(Clone, Debug)]
pub struct Valkey {
    pub address: String,
}

/// `parts` joined with single spaces between them.
pub open spec fn space_joined(parts: Seq<Seq<char>>) -> Seq<char>
    decreases parts.len(),
{
    if parts.len() == 0 {
        Seq::empty()
    } else if parts.len() == 1 {
        parts[0]
    } else {
        space_joined(parts.drop_last()) + seq![' '] + parts.last()
    }
}

impl API {
    /// The form fields of a refresh-token grant for `refresh_token`.
    pub open spec fn refresh_form_spec(&self, refresh_token: Seq<char>) -> Seq<(Seq<char>, Seq<char>)> {
        seq![
            ("client_id"@, decimal_text(self.client_id as int)),
            ("client_secret"@, self.client_secret@),
            ("grant_type"@, "refresh_token"@),
            ("refresh_token"@, refresh_token),
        ]
    }

    /// The form fields of an authorization-code grant for `code` and `state`.
    pub open spec fn authentication_form_spec(&self, code: Seq<char>, state: Seq<char>) -> Seq<
        (Seq<char>, Seq<char>),
    > {
        seq![
            ("client_id"@, decimal_text(self.client_id as int)),
            ("client_secret"@, self.client_secret@),
            ("code"@, code),
            ("grant_type"@, "authorization_code"@),
            ("redirect_uri"@, self.redirect_url@),
            ("state"@, state),
        ]
    }

    /// The query parameters that send a user to the authorization page.
    pub open spec fn authorization_params_spec(&self, state: Seq<char>) -> Seq<(Seq<char>, Seq<char>)> {
        seq![
            ("client_id"@, decimal_text(self.client_id as int)),
            ("redirect_uri"@, self.redirect_url@),
            ("response_type"@, "code"@),
            ("scope"@, space_joined(self.scope@.map_values(|s: String| s@))),
            ("state"@, state),
        ]
    }

    /// The form fields posted to the token endpoint to exchange `refresh_token`
    /// for a new token.
    pub fn refresh_form(&self, refresh_token: &str) -> (r: Vec<(String, String)>)
        ensures
            pairs_view(r@) == self.refresh_form_spec(refresh_token@),
    {
        let r = vec![
            ("client_id".to_owned(), integer_text(self.client_id as i128)),
            ("client_secret".to_owned(), self.client_secret.clone()),
            ("grant_type".to_owned(), "refresh_token".to_owned()),
            ("refresh_token".to_owned(), refresh_token.to_owned()),
        ];
        assert(pairs_view(r@) =~= self.refresh_form_spec(refresh_token@));
        r
    }

    /// The form fields posted to the token endpoint to exchange an
    /// authorization `code` for a first token.
    pub fn authentication_form(&self, code: &str, state: &str) -> (r: Vec<(String, String)>)
        ensures
            pairs_view(r@) == self.authentication_form_spec(code@, state@),
    {
        let r = vec![
            ("client_id".to_owned(), integer_text(self.client_id as i128)),
            ("client_secret".to_owned(), self.client_secret.clone()),
            ("code".to_owned(), code.to_owned()),
            ("grant_type".to_owned(), "authorization_code".to_owned()),
            ("redirect_uri".to_owned(), self.redirect_url.clone()),
            ("state".to_owned(), state.to_owned()),
        ];
        assert(pairs_view(r@) =~= self.authentication_form_spec(code@, state@));
        r
    }

    /// The requested scopes, separated by spaces.
    pub fn scope_text(&self) -> (r: String)
        ensures
            r@ == space_joined(self.scope@.map_values(|s: String| s@)),
    {
        let ghost parts = self.scope@.map_values(|s: String| s@);
        let mut out = String::new();
        let mut i: usize = 0;
        while i < self.scope.len()
            invariant
                i <= self.scope@.len(),
                parts == self.scope@.map_values(|s: String| s@),
                out@ == space_joined(parts.take(i as int)),
            decreases self.scope@.len() - i,
        {
            proof {
                reveal_strlit(" ");
            }
            let ghost head = out@;
            if i > 0 {
                out.append(" ");
            }
            out.append(self.scope[i].as_str());
            proof {
                let t = parts.take(i as int + 1);
                assert(t.drop_last() =~= parts.take(i as int));
                if i == 0 {
                    assert(out@ =~= space_joined(t));
                } else {
                    assert(out@ =~= head + seq![' '] + parts[i as int]);
                }
            }
            i = i + 1;
        }
        assert(parts.take(i as int) =~= parts);
        out
    }

    /// The query parameters of the authorization page for the handshake `state`.
    pub fn authorization_params(&self, state: &str) -> (r: Vec<(String, String)>)
        ensures
            pairs_view(r@) == self.authorization_params_spec(state@),
    {
        let r = vec![
            ("client_id".to_owned(), integer_text(self.client_id as i128)),
            ("redirect_uri".to_owned(), self.redirect_url.clone()),
            ("response_type".to_owned(), "code".to_owned()),
            ("scope".to_owned(), self.scope_text()),
            ("state".to_owned(), state.to_owned()),
        ];
        assert(pairs_view(r@) =~= self.authorization_params_spec(state@));
        r
    }
}

} // verus!
