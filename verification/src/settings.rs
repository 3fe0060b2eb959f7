//! The user's settings for a language-model endpoint of their own, as they
//! are persisted: each value is there or not.

use crate::connection::Connection;
use crate::connection::ConnectionView;
use crate::connection::optional_text;
use vstd::prelude::*;

verus! {

/// The persisted settings of the custom endpoint.
#[derive(Debug, Clone, PartialEq, Eq)]
pub struct CustomLlmSettings {
    /// Whether the custom endpoint is switched on; unset counts as off.
    pub enabled: Option<bool>,
    /// The model to ask the endpoint for.
    pub model: Option<String>,
    /// The address of the endpoint.
    pub api_base: Option<String>,
    /// The key of the endpoint; `Some(None)` records that it has none.
    pub api_key: Option<Option<String>>,
}

/// What a [`CustomLlmSettings`] holds.
pub struct CustomLlmSettingsView {
    pub enabled: Option<bool>,
    pub model: Option<Seq<char>>,
    pub api_base: Option<Seq<char>>,
    pub api_key: Option<Option<Seq<char>>>,
}

impl View for CustomLlmSettings {
    type V = CustomLlmSettingsView;

    open spec fn view(&self) -> CustomLlmSettingsView {
        CustomLlmSettingsView {
            enabled: self.enabled,
            model: optional_text(self.model),
            api_base: optional_text(self.api_base),
            api_key: match self.api_key {
                Some(key) => Some(optional_text(key)),
                None => None,
            },
        }
    }
}

impl CustomLlmSettingsView {
    /// Settings in which nothing is stored.
    pub open spec fn unset() -> CustomLlmSettingsView {
        CustomLlmSettingsView { enabled: None, model: None, api_base: None, api_key: None }
    }

    /// Whether the custom endpoint is switched on.
    pub open spec fn is_enabled(self) -> bool {
        self.enabled == Some(true)
    }

    /// The stored endpoint: there when both its address and its key are
    /// recorded.
    pub open spec fn connection(self) -> Option<ConnectionView> {
        match (self.api_base, self.api_key) {
            (Some(api_base), Some(api_key)) => Some(ConnectionView { api_base, api_key }),
            _ => None,
        }
    }

    /// The settings after `connection` was stored.
    pub open spec fn with_connection(self, connection: ConnectionView) -> CustomLlmSettingsView {
        CustomLlmSettingsView {
            api_base: Some(connection.api_base),
            api_key: Some(connection.api_key),
            ..self
        }
    }
}

impl CustomLlmSettings {
    /// Settings in which nothing is stored.
    pub fn new() -> (settings: CustomLlmSettings)
        ensures
            settings@ == CustomLlmSettingsView::unset(),
    {
        CustomLlmSettings { enabled: None, model: None, api_base: None, api_key: None }
    }

    /// The model to ask the custom endpoint for, where one is stored.
    pub fn get_custom_llm_model(&self) -> (model: Option<String>)
        ensures
            optional_text(model) == self@.model,
    {
        match &self.model {
            Some(model) => Some(model.clone()),
            None => None,
        }
    }

    /// Stores the model to ask the custom endpoint for.
    pub fn set_custom_llm_model(&mut self, model: String)
        ensures
            final(self)@ == (CustomLlmSettingsView { model: Some(model@), ..old(self)@ }),
    {
        self.model = Some(model);
    }

    /// Switches the custom endpoint on or off.
    pub fn set_custom_llm_enabled(&mut self, enabled: bool)
        ensures
            final(self)@ == (CustomLlmSettingsView { enabled: Some(enabled), ..old(self)@ }),
    {
        self.enabled = Some(enabled);
    }

    /// Whether the custom endpoint is switched on; off where nothing is
    /// stored.
    pub fn get_custom_llm_enabled(&self) -> (enabled: bool)
        ensures
            enabled == self@.is_enabled(),
    {
        match self.enabled {
            Some(enabled) => enabled,
            None => false,
        }
    }

    /// Stores the address and the key of the custom endpoint.
    pub fn set_custom_llm_connection(&mut self, connection: Connection)
        ensures
            final(self)@ == old(self)@.with_connection(connection@),
    {
        let Connection { api_base, api_key } = connection;
        self.api_base = Some(api_base);
        self.api_key = Some(api_key);
    }

    /// The stored endpoint: there when both its address and its key are
    /// recorded.
    pub fn get_custom_llm_connection(&self) -> (connection: Option<Connection>)
        ensures
            match connection {
                Some(connection) => self@.connection() == Some(connection@),
                None => self@.connection() is None,
            },
    {
        match (&self.api_base, &self.api_key) {
            (Some(api_base), Some(api_key)) => {
                let api_key = match api_key {
                    Some(key) => Some(key.clone()),
                    None => None,
                };
                Some(Connection { api_base: api_base.clone(), api_key })
            },
            _ => None,
        }
    }
}

/// A stored endpoint is read back as it was stored, and storing it touches
/// neither the switch nor the model.
pub proof fn stored_connection_is_read_back(
    settings: CustomLlmSettingsView,
    connection: ConnectionView,
)
    ensures
        settings.with_connection(connection).connection() == Some(connection),
        settings.with_connection(connection).enabled == settings.enabled,
        settings.with_connection(connection).model == settings.model,
{
}

} // verus!
