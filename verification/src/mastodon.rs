//! The bot's Mastodon account: the HTTP client, the authorization state, and
//! the addresses and form fields of the two requests the bot sends (token
//! exchange and posting a status). Sending them happens outside the library.

use vstd::prelude::*;
use crate::config::Credentials;

verus! {

/// reqwest's asynchronous HTTP client, carried along for the requests that
/// are sent outside the library.
#[verifier::external_type_specification]
#[verifier::external_body]
pub struct ExClient(reqwest::Client);

/// Makes a new HTTP client.
///
/// Calls `reqwest::Client::new`. Nothing is claimed of the client. reqwest
/// documents that the call panics when no TLS backend can be initialised or
/// the resolver cannot load the system configuration; that depends on the
/// machine, not on any argument, and is left unsaid.
#[verifier::external_body]
fn new_client() -> reqwest::Client {
    reqwest::Client::new()
}

/// The redirect URI of an out-of-band OAuth flow.
pub open spec fn oob_redirect() -> Seq<char> {
    "urn:ietf:wg:oauth:2.0:oob"@
}

/// A form as a list of field names and values.
pub open spec fn form_view(form: Seq<(String, String)>) -> Seq<(Seq<char>, Seq<char>)> {
    form.map_values(|p: (String, String)| (p.0@, p.1@))
}

/// A Mastodon account the bot posts with.
pub struct Mastodon {
    pub client: reqwest::Client,
    /// The bearer token, once there is one.
    pub authn_token: Option<String>,
    /// The authorization code to exchange for a token.
    pub auth_code: String,
    pub authed: bool,
}

impl Mastodon {
    /// The account is marked as authorized exactly when it holds a token.
    pub open spec fn login_consistent(&self) -> bool {
        self.authed == (self.authn_token is Some)
    }

    /// An account that still has to exchange `auth_code` for a token.
    pub fn new(auth_code: String) -> (res: Mastodon)
        ensures
            res.authn_token is None,
            res.auth_code == auth_code,
            !res.authed,
            res.login_consistent(),
    {
        Mastodon { client: new_client(), authn_token: None, auth_code, authed: false }
    }

    /// An account that already holds the bearer token `token`.
    pub fn new_with_auth(token: String) -> (res: Mastodon)
        ensures
            res.authn_token == Some(token),
            res.auth_code@ == Seq::<char>::empty(),
            res.authed,
            res.login_consistent(),
    {
        Mastodon { client: new_client(), authn_token: Some(token), auth_code: String::new(), authed: true }
    }

    /// Records the token that the token exchange returned.
    pub fn complete_login(&mut self, access_token: String)
        ensures
            final(self).authn_token == Some(access_token),
            final(self).authed,
            final(self).auth_code == old(self).auth_code,
            final(self).client == old(self).client,
            final(self).login_consistent(),
    {
        self.authn_token = Some(access_token);
        self.authed = true;
    }

    /// The fields of the token exchange, in the order the bot writes them.
    pub fn login_form(&self, creds: &Credentials) -> (res: Vec<(String, String)>)
        ensures
            form_view(res@) == seq![
                ("client_id"@, creds.client_id@),
                ("client_secret"@, creds.client_secret@),
                ("redirect_uri"@, oob_redirect()),
                ("grant_type"@, "authorization_code"@),
                ("code"@, self.auth_code@),
                ("scope"@, "read write follow push"@),
            ],
    {
        let mut form: Vec<(String, String)> = Vec::new();
        form.push((String::from_str("client_id"), creds.client_id.clone()));
        form.push((String::from_str("client_secret"), creds.client_secret.clone()));
        form.push((String::from_str("redirect_uri"), String::from_str("urn:ietf:wg:oauth:2.0:oob")));
        form.push((String::from_str("grant_type"), String::from_str("authorization_code")));
        form.push((String::from_str("code"), self.auth_code.clone()));
        form.push((String::from_str("scope"), String::from_str("read write follow push")));
        assert(form_view(form@) =~= seq![
            ("client_id"@, creds.client_id@),
            ("client_secret"@, creds.client_secret@),
            ("redirect_uri"@, oob_redirect()),
            ("grant_type"@, "authorization_code"@),
            ("code"@, self.auth_code@),
            ("scope"@, "read write follow push"@),
        ]);
        form
    }

    /// The value of the `Authorization` header that posting sends.
    pub fn authorization_header(&self) -> (res: String)
        requires
            self.authn_token is Some,
        ensures
            res@ == "Bearer "@ + self.authn_token->0@,
    {
        let token = self.authn_token.as_ref().unwrap();
        let mut out = String::from_str("Bearer ");
        out.append(token.as_str());
        out
    }
}

/// Where the token exchange is sent.
pub fn login_url(creds: &Credentials) -> (res: String)
    ensures
        res@ == creds.instance_uri@ + "/oauth/token"@,
{
    let mut out = creds.instance_uri.clone();
    out.append("/oauth/token");
    out
}

/// Where a status is posted.
pub fn statuses_url(creds: &Credentials) -> (res: String)
    ensures
        res@ == creds.instance_uri@ + "/api/v1/statuses"@,
{
    let mut out = creds.instance_uri.clone();
    out.append("/api/v1/statuses");
    out
}

/// The fields of a post: its text, published publicly.
pub fn post_form(post_text: &str) -> (res: Vec<(String, String)>)
    ensures
        form_view(res@) == seq![("status"@, post_text@), ("visibility"@, "public"@)],
{
    let mut form: Vec<(String, String)> = Vec::new();
    form.push((String::from_str("status"), String::from_str(post_text)));
    form.push((String::from_str("visibility"), String::from_str("public")));
    assert(form_view(form@) =~= seq![("status"@, post_text@), ("visibility"@, "public"@)]);
    form
}

} // verus!
