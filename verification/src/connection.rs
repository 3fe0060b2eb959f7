//! Where a capability is served from: the address of a backend and the key
//! that opens it.

use vstd::prelude::*;

verus! {

/// The address of the hosted service.
pub const HOSTED_API_BASE: &'static str = "https://ai.gitee.com/v1";

/// The address of a backend and, where it asks for one, the key that opens it.
#[derive(Debug, Clone, PartialEq, Eq)]
pub struct Connection {
    pub api_base: String,
    pub api_key: Option<String>,
}

/// What a [`Connection`] holds.
pub struct ConnectionView {
    pub api_base: Seq<char>,
    pub api_key: Option<Seq<char>>,
}

/// The characters of an optional string.
pub open spec fn optional_text(text: Option<String>) -> Option<Seq<char>> {
    match text {
        Some(t) => Some(t@),
        None => None,
    }
}

impl View for Connection {
    type V = ConnectionView;

    open spec fn view(&self) -> ConnectionView {
        ConnectionView { api_base: self.api_base@, api_key: optional_text(self.api_key) }
    }
}

impl ConnectionView {
    /// The connection to a server on this machine: it asks for no key.
    pub open spec fn keyless(api_base: Seq<char>) -> ConnectionView {
        ConnectionView { api_base, api_key: None }
    }

    /// The connection to the hosted service with the given key.
    pub open spec fn hosted(api_key: Seq<char>) -> ConnectionView {
        ConnectionView { api_base: HOSTED_API_BASE@, api_key: Some(api_key) }
    }
}

impl Connection {
    /// The connection to a server on this machine: it asks for no key.
    pub fn keyless(api_base: String) -> (connection: Connection)
        ensures
            connection@ == ConnectionView::keyless(api_base@),
    {
        Connection { api_base, api_key: None }
    }

    /// The connection to the hosted service with the given key, which must
    /// not be empty.
    pub fn hosted(api_key: String) -> (connection: Connection)
        requires
            api_key@.len() > 0,
        ensures
            connection@ == ConnectionView::hosted(api_key@),
    {
        Connection { api_base: HOSTED_API_BASE.to_owned(), api_key: Some(api_key) }
    }

    /// A copy of the connection.
    pub fn duplicate(&self) -> (copy: Connection)
        ensures
            copy@ == self@,
    {
        let api_key = match &self.api_key {
            Some(key) => Some(key.clone()),
            None => None,
        };
        Connection { api_base: self.api_base.clone(), api_key }
    }
}

/// The backend that serves language-model completions.
#[derive(Debug, Clone, PartialEq, Eq)]
pub enum ConnectionLLM {
    /// The inference server on this machine.
    HyprLocal(Connection),
    /// The endpoint that the user supplied.
    Custom(Connection),
    /// The hosted service, opened by a subscription or trial token.
    GiteeAi(Connection),
}

/// What a [`ConnectionLLM`] holds.
pub enum ConnectionLLMView {
    HyprLocal(ConnectionView),
    Custom(ConnectionView),
    GiteeAi(ConnectionView),
}

impl View for ConnectionLLM {
    type V = ConnectionLLMView;

    open spec fn view(&self) -> ConnectionLLMView {
        match self {
            ConnectionLLM::HyprLocal(connection) => ConnectionLLMView::HyprLocal(connection@),
            ConnectionLLM::Custom(connection) => ConnectionLLMView::Custom(connection@),
            ConnectionLLM::GiteeAi(connection) => ConnectionLLMView::GiteeAi(connection@),
        }
    }
}

impl ConnectionLLMView {
    /// The address and key, whichever backend it is.
    pub open spec fn connection(self) -> ConnectionView {
        match self {
            ConnectionLLMView::HyprLocal(connection) => connection,
            ConnectionLLMView::Custom(connection) => connection,
            ConnectionLLMView::GiteeAi(connection) => connection,
        }
    }

    /// The local server takes no key; the hosted service is at its fixed
    /// address and always has a key that is not empty.
    pub open spec fn well_formed(self) -> bool {
        match self {
            ConnectionLLMView::HyprLocal(connection) => connection.api_key is None,
            ConnectionLLMView::Custom(_) => true,
            ConnectionLLMView::GiteeAi(connection) => connection.api_base == HOSTED_API_BASE@
                && connection.api_key is Some && connection.api_key->0.len() > 0,
        }
    }
}

impl ConnectionLLM {
    /// The address and key, whichever backend it is.
    pub fn as_ref(&self) -> (connection: &Connection)
        ensures
            connection@ == self@.connection(),
    {
        match self {
            ConnectionLLM::HyprLocal(connection) => connection,
            ConnectionLLM::Custom(connection) => connection,
            ConnectionLLM::GiteeAi(connection) => connection,
        }
    }
}

/// The backend that serves speech-to-text transcription.
#[derive(Debug, Clone, PartialEq, Eq)]
pub enum ConnectionSTT {
    /// The inference server on this machine.
    HyprLocal(Connection),
    /// An endpoint that the user supplied.
    Custom(Connection),
    /// The hosted service.
    GiteeAi(Connection),
}

/// What a [`ConnectionSTT`] holds.
pub enum ConnectionSTTView {
    HyprLocal(ConnectionView),
    Custom(ConnectionView),
    GiteeAi(ConnectionView),
}

impl View for ConnectionSTT {
    type V = ConnectionSTTView;

    open spec fn view(&self) -> ConnectionSTTView {
        match self {
            ConnectionSTT::HyprLocal(connection) => ConnectionSTTView::HyprLocal(connection@),
            ConnectionSTT::Custom(connection) => ConnectionSTTView::Custom(connection@),
            ConnectionSTT::GiteeAi(connection) => ConnectionSTTView::GiteeAi(connection@),
        }
    }
}

impl ConnectionSTTView {
    /// The address and key, whichever backend it is.
    pub open spec fn connection(self) -> ConnectionView {
        match self {
            ConnectionSTTView::HyprLocal(connection) => connection,
            ConnectionSTTView::Custom(connection) => connection,
            ConnectionSTTView::GiteeAi(connection) => connection,
        }
    }
}

impl ConnectionSTT {
    /// The address and key, whichever backend it is.
    pub fn as_ref(&self) -> (connection: &Connection)
        ensures
            connection@ == self@.connection(),
    {
        match self {
            ConnectionSTT::HyprLocal(connection) => connection,
            ConnectionSTT::Custom(connection) => connection,
            ConnectionSTT::GiteeAi(connection) => connection,
        }
    }
}

} // verus!
