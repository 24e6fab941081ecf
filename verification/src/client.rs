//! API clients with a chosen credential.

use vstd::prelude::*;

use crate::http_client::{AuthState, AuthStateView, HttpClient, HttpClientView};
use crate::text::trimmed;

verus! {

/// A client of the Playit API.
pub struct PlayitApi {
    pub client: HttpClient,
}

impl View for PlayitApi {
    type V = HttpClientView;

    open spec fn view(&self) -> HttpClientView {
        self.client@
    }
}

/// Makes a [`PlayitApi`] with an explicit credential.
pub struct PlayitApiBuilder {
    pub api_base: String,
    pub auth: AuthState,
}

/// The model of a [`PlayitApiBuilder`].
#[verifier::ext_equal]
pub struct PlayitApiBuilderView {
    pub api_base: Seq<char>,
    pub auth: AuthStateView,
}

impl View for PlayitApiBuilder {
    type V = PlayitApiBuilderView;

    open spec fn view(&self) -> PlayitApiBuilderView {
        PlayitApiBuilderView { api_base: self.api_base@, auth: self.auth@ }
    }
}

impl PlayitApiBuilder {
    /// A client without a credential, to begin with.
    pub fn new(api_base: String) -> (r: Self)
        ensures
            r@ == (PlayitApiBuilderView {
                api_base: api_base@,
                auth: AuthStateView::Anonymous,
            }),
    {
        PlayitApiBuilder { api_base, auth: AuthState::Anonymous }
    }

    /// Use this credential.
    pub fn auth(self, auth: AuthState) -> (r: Self)
        ensures
            r@ == (PlayitApiBuilderView { auth: auth@, ..self@ }),
    {
        PlayitApiBuilder { api_base: self.api_base, auth }
    }

    /// Use an agent secret.
    pub fn agent_key(self, secret: String) -> (r: Self)
        ensures
            r@ == (PlayitApiBuilderView {
                auth: AuthStateView::AgentKey(trimmed(secret@)),
                ..self@
            }),
    {
        PlayitApiBuilder { api_base: self.api_base, auth: AuthState::agent_key(secret) }
    }

    /// Use the key of an account session.
    pub fn bearer(self, token: String) -> (r: Self)
        ensures
            r@ == (PlayitApiBuilderView { auth: AuthStateView::Bearer(token@), ..self@ }),
    {
        PlayitApiBuilder { api_base: self.api_base, auth: AuthState::bearer(token) }
    }

    /// The client.
    pub fn build(self) -> (r: PlayitApi)
        ensures
            r@ == (HttpClientView { api_base: self@.api_base, auth_header: self@.auth.header() }),
    {
        PlayitApi { client: HttpClient::new_with_auth(self.api_base, self.auth) }
    }
}

impl PlayitApi {
    /// A client with an agent secret, or without a credential.
    pub fn create(api_base: String, secret: Option<String>) -> (r: Self)
        ensures
            r@ == (HttpClientView {
                api_base: api_base@,
                auth_header: match secret {
                    Some(secret) => AuthStateView::AgentKey(trimmed(secret@)).header(),
                    None => None,
                },
            }),
    {
        match secret {
            Some(secret) => PlayitApiBuilder::new(api_base).agent_key(secret).build(),
            None => PlayitApiBuilder::new(api_base).build(),
        }
    }

    /// A client with the key of an account session.
    pub fn from_bearer(api_base: String, token: String) -> (r: Self)
        ensures
            r@ == (HttpClientView {
                api_base: api_base@,
                auth_header: AuthStateView::Bearer(token@).header(),
            }),
    {
        PlayitApiBuilder::new(api_base).bearer(token).build()
    }

    /// The HTTP client.
    pub fn get_client(&self) -> (r: &HttpClient)
        ensures
            r@ == self@,
    {
        &self.client
    }
}

} // verus!
