//! The keys under which the account service's plugin persists its values.

use vstd::prelude::*;

verus! {

/// The scope of the persisted store that holds these keys.
pub const SCOPE: &'static str = "gitee-ai";

/// A key of the persisted store.
#[derive(Debug, Clone, Copy, PartialEq, Eq, Hash, Structural)]
pub enum StoreKey {
    /// The access token of the logged-in user.
    GiteeAiUserToken,
    /// The time at which the free trial began, in seconds since the epoch.
    FreeTrialStartTime,
}

impl StoreKey {
    /// The scope of the persisted store that holds these keys.
    pub fn scope() -> (scope: &'static str)
        ensures
            scope@ == SCOPE@,
    {
        SCOPE
    }

    /// The text under which the key is stored.
    pub open spec fn name(self) -> Seq<char> {
        match self {
            StoreKey::GiteeAiUserToken => "gitee_ai_user_token"@,
            StoreKey::FreeTrialStartTime => "free_trial_start_time"@,
        }
    }

    /// The text under which the key is stored.
    pub fn as_str(&self) -> (text: &'static str)
        ensures
            text@ == self.name(),
    {
        match self {
            StoreKey::GiteeAiUserToken => "gitee_ai_user_token",
            StoreKey::FreeTrialStartTime => "free_trial_start_time",
        }
    }

    /// The text under which the key is stored, as an owned string.
    pub fn to_string(&self) -> (text: String)
        ensures
            text@ == self.name(),
    {
        self.as_str().to_owned()
    }

    /// Different keys are stored under different texts.
    pub proof fn names_differ(one: StoreKey, other: StoreKey)
        ensures
            one.name() == other.name() <==> one == other,
    {
        reveal_strlit("gitee_ai_user_token");
        reveal_strlit("free_trial_start_time");
        assert("gitee_ai_user_token"@.len() == 19);
        assert("free_trial_start_time"@.len() == 21);
    }
}

} // verus!
