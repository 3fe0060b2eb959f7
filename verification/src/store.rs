//! The keys under which the connector persists the user's settings.

use vstd::prelude::*;

verus! {

/// A key of the persisted store.
#[derive(Debug, Clone, Copy, PartialEq, Eq, Hash, Structural)]
pub enum StoreKey {
    /// Whether the custom endpoint is switched on.
    CustomEnabled,
    /// The address of the custom endpoint.
    CustomApiBase,
    /// The key of the custom endpoint.
    CustomApiKey,
    /// The model to ask the custom endpoint for.
    CustomModel,
    /// The time at which the free trial began, in seconds since the epoch.
    FreeTrialStartTime,
}

impl StoreKey {
    /// The text under which the key is stored.
    pub open spec fn name(self) -> Seq<char> {
        match self {
            StoreKey::CustomEnabled => "CustomEnabled"@,
            StoreKey::CustomApiBase => "CustomApiBase"@,
            StoreKey::CustomApiKey => "CustomApiKey"@,
            StoreKey::CustomModel => "CustomModel"@,
            StoreKey::FreeTrialStartTime => "FreeTrialStartTime"@,
        }
    }

    /// The text under which the key is stored.
    pub fn as_str(&self) -> (text: &'static str)
        ensures
            text@ == self.name(),
    {
        match self {
            StoreKey::CustomEnabled => "CustomEnabled",
            StoreKey::CustomApiBase => "CustomApiBase",
            StoreKey::CustomApiKey => "CustomApiKey",
            StoreKey::CustomModel => "CustomModel",
            StoreKey::FreeTrialStartTime => "FreeTrialStartTime",
        }
    }

    /// The text under which the key is stored, as an owned string.
    pub fn to_string(&self) -> (text: String)
        ensures
            text@ == self.name(),
    {
        self.as_str().to_owned()
    }

    /// Different keys are stored under different texts.
    pub proof fn names_differ(one: StoreKey, other: StoreKey)
        ensures
            one.name() == other.name() <==> one == other,
    {
        reveal_strlit("CustomEnabled");
        reveal_strlit("CustomApiBase");
        reveal_strlit("CustomApiKey");
        reveal_strlit("CustomModel");
        reveal_strlit("FreeTrialStartTime");
        assert("CustomEnabled"@.len() == 13 && "CustomEnabled"@[6] == 'E');
        assert("CustomApiBase"@.len() == 13 && "CustomApiBase"@[6] == 'A');
        assert("CustomApiKey"@.len() == 12);
        assert("CustomModel"@.len() == 11);
        assert("FreeTrialStartTime"@.len() == 18);
    }
}

} // verus!
