//! Account, subscription and payment records of the hosted service.

use crate::text::append_signed_decimal;
use crate::text::signed_decimal;
use crate::text::str_eq;
use vstd::prelude::*;
use vstd::string::StringExecFns;

verus! {

/// Whether the account has bought access, and whether that access is still
/// good.
#[derive(Debug, Clone, Copy, PartialEq, Eq, Structural)]
pub enum GiteeAiUserPurchaseStatus {
    Active,
    Expired,
    Exhausted,
    NotPurchased,
}

impl GiteeAiUserPurchaseStatus {
    /// The name of the status on the wire.
    pub open spec fn name(self) -> Seq<char> {
        match self {
            GiteeAiUserPurchaseStatus::Active => "ACTIVE"@,
            GiteeAiUserPurchaseStatus::Expired => "EXPIRED"@,
            GiteeAiUserPurchaseStatus::Exhausted => "EXHAUSTED"@,
            GiteeAiUserPurchaseStatus::NotPurchased => "NOT_PURCHASED"@,
        }
    }

    /// The status that a wire name stands for; an unknown name counts as
    /// `Exhausted`.
    pub open spec fn named(text: Seq<char>) -> GiteeAiUserPurchaseStatus {
        if text == "ACTIVE"@ {
            GiteeAiUserPurchaseStatus::Active
        } else if text == "EXPIRED"@ {
            GiteeAiUserPurchaseStatus::Expired
        } else if text == "NOT_PURCHASED"@ {
            GiteeAiUserPurchaseStatus::NotPurchased
        } else {
            GiteeAiUserPurchaseStatus::Exhausted
        }
    }

    pub fn as_str(&self) -> (text: &'static str)
        ensures
            text@ == self.name(),
    {
        match self {
            GiteeAiUserPurchaseStatus::Active => "ACTIVE",
            GiteeAiUserPurchaseStatus::Expired => "EXPIRED",
            GiteeAiUserPurchaseStatus::Exhausted => "EXHAUSTED",
            GiteeAiUserPurchaseStatus::NotPurchased => "NOT_PURCHASED",
        }
    }

    pub fn from_str(s: &str) -> (status: GiteeAiUserPurchaseStatus)
        ensures
            status == GiteeAiUserPurchaseStatus::named(s@),
    {
        if str_eq(s, "ACTIVE") {
            GiteeAiUserPurchaseStatus::Active
        } else if str_eq(s, "EXPIRED") {
            GiteeAiUserPurchaseStatus::Expired
        } else if str_eq(s, "NOT_PURCHASED") {
            GiteeAiUserPurchaseStatus::NotPurchased
        } else {
            GiteeAiUserPurchaseStatus::Exhausted
        }
    }

    /// Reading back the wire name of a status gives that status.
    pub proof fn name_round_trip(status: GiteeAiUserPurchaseStatus)
        ensures
            GiteeAiUserPurchaseStatus::named(status.name()) == status,
    {
        reveal_strlit("ACTIVE");
        reveal_strlit("EXPIRED");
        reveal_strlit("EXHAUSTED");
        reveal_strlit("NOT_PURCHASED");
        assert("ACTIVE"@.len() == 6);
        assert("EXPIRED"@.len() == 7);
        assert("EXHAUSTED"@.len() == 9);
        assert("NOT_PURCHASED"@.len() == 13);
    }
}

/// Whether the account may use the service at all.
#[derive(Debug, Clone, Copy, PartialEq, Eq, Structural)]
pub enum GiteeAiUserStatus {
    Normal,
    Disabled,
}

impl GiteeAiUserStatus {
    /// The name of the status on the wire.
    pub open spec fn name(self) -> Seq<char> {
        match self {
            GiteeAiUserStatus::Normal => "NORMAL"@,
            GiteeAiUserStatus::Disabled => "DISABLED"@,
        }
    }

    /// The status that a wire name stands for; an unknown name counts as
    /// `Normal`.
    pub open spec fn named(text: Seq<char>) -> GiteeAiUserStatus {
        if text == "DISABLED"@ {
            GiteeAiUserStatus::Disabled
        } else {
            GiteeAiUserStatus::Normal
        }
    }

    pub fn as_str(&self) -> (text: &'static str)
        ensures
            text@ == self.name(),
    {
        match self {
            GiteeAiUserStatus::Normal => "NORMAL",
            GiteeAiUserStatus::Disabled => "DISABLED",
        }
    }

    pub fn from_str(s: &str) -> (status: GiteeAiUserStatus)
        ensures
            status == GiteeAiUserStatus::named(s@),
    {
        if str_eq(s, "DISABLED") {
            GiteeAiUserStatus::Disabled
        } else {
            GiteeAiUserStatus::Normal
        }
    }

    /// Reading back the wire name of a status gives that status.
    pub proof fn name_round_trip(status: GiteeAiUserStatus)
        ensures
            GiteeAiUserStatus::named(status.name()) == status,
    {
        reveal_strlit("NORMAL");
        reveal_strlit("DISABLED");
        assert("NORMAL"@.len() == 6);
        assert("DISABLED"@.len() == 8);
    }
}

/// Where an application stands in the service's review and release process.
#[derive(Debug, Clone, Copy, PartialEq, Eq, Structural)]
pub enum GiteeAiAppStatus {
    Draft,
    UnderReview,
    PendingRelease,
    Published,
    Removed,
    Deleted,
}

impl GiteeAiAppStatus {
    /// The name of the status on the wire.
    pub open spec fn name(self) -> Seq<char> {
        match self {
            GiteeAiAppStatus::Draft => "DRAFT"@,
            GiteeAiAppStatus::UnderReview => "UNDER_REVIEW"@,
            GiteeAiAppStatus::PendingRelease => "PENDING_RELEASE"@,
            GiteeAiAppStatus::Published => "PUBLISHED"@,
            GiteeAiAppStatus::Removed => "REMOVED"@,
            GiteeAiAppStatus::Deleted => "DELETED"@,
        }
    }

    /// The status that a wire name stands for; an unknown name counts as
    /// `Draft`.
    pub open spec fn named(text: Seq<char>) -> GiteeAiAppStatus {
        if text == "UNDER_REVIEW"@ {
            GiteeAiAppStatus::UnderReview
        } else if text == "PENDING_RELEASE"@ {
            GiteeAiAppStatus::PendingRelease
        } else if text == "PUBLISHED"@ {
            GiteeAiAppStatus::Published
        } else if text == "REMOVED"@ {
            GiteeAiAppStatus::Removed
        } else if text == "DELETED"@ {
            GiteeAiAppStatus::Deleted
        } else {
            GiteeAiAppStatus::Draft
        }
    }

    pub fn as_str(&self) -> (text: &'static str)
        ensures
            text@ == self.name(),
    {
        match self {
            GiteeAiAppStatus::Draft => "DRAFT",
            GiteeAiAppStatus::UnderReview => "UNDER_REVIEW",
            GiteeAiAppStatus::PendingRelease => "PENDING_RELEASE",
            GiteeAiAppStatus::Published => "PUBLISHED",
            GiteeAiAppStatus::Removed => "REMOVED",
            GiteeAiAppStatus::Deleted => "DELETED",
        }
    }

    pub fn from_str(s: &str) -> (status: GiteeAiAppStatus)
        ensures
            status == GiteeAiAppStatus::named(s@),
    {
        if str_eq(s, "UNDER_REVIEW") {
            GiteeAiAppStatus::UnderReview
        } else if str_eq(s, "PENDING_RELEASE") {
            GiteeAiAppStatus::PendingRelease
        } else if str_eq(s, "PUBLISHED") {
            GiteeAiAppStatus::Published
        } else if str_eq(s, "REMOVED") {
            GiteeAiAppStatus::Removed
        } else if str_eq(s, "DELETED") {
            GiteeAiAppStatus::Deleted
        } else {
            GiteeAiAppStatus::Draft
        }
    }

    /// Reading back the wire name of a status gives that status.
    pub proof fn name_round_trip(status: GiteeAiAppStatus)
        ensures
            GiteeAiAppStatus::named(status.name()) == status,
    {
        reveal_strlit("DRAFT");
        reveal_strlit("UNDER_REVIEW");
        reveal_strlit("PENDING_RELEASE");
        reveal_strlit("PUBLISHED");
        reveal_strlit("REMOVED");
        reveal_strlit("DELETED");
        assert("DRAFT"@.len() == 5);
        assert("UNDER_REVIEW"@.len() == 12);
        assert("PENDING_RELEASE"@.len() == 15);
        assert("PUBLISHED"@.len() == 9);
        assert("REMOVED"@[0] == 'R' && "REMOVED"@.len() == 7);
        assert("DELETED"@[0] == 'D' && "DELETED"@.len() == 7);
    }
}

/// The unit in which a payment plan's validity is counted.
#[derive(Debug, Clone, Copy, PartialEq, Eq, Structural)]
pub enum GiteeAiPaymentPeriod {
    Year,
    Month,
    Day,
    NoPeriod,
}

impl GiteeAiPaymentPeriod {
    /// The name of the period on the wire.
    pub open spec fn name(self) -> Seq<char> {
        match self {
            GiteeAiPaymentPeriod::Year => "YEAR"@,
            GiteeAiPaymentPeriod::Month => "MONTH"@,
            GiteeAiPaymentPeriod::Day => "DAY"@,
            GiteeAiPaymentPeriod::NoPeriod => "NONE"@,
        }
    }

    /// The period that a wire name stands for; an unknown name counts as
    /// `NoPeriod`.
    pub open spec fn named(text: Seq<char>) -> GiteeAiPaymentPeriod {
        if text == "YEAR"@ {
            GiteeAiPaymentPeriod::Year
        } else if text == "MONTH"@ {
            GiteeAiPaymentPeriod::Month
        } else if text == "DAY"@ {
            GiteeAiPaymentPeriod::Day
        } else {
            GiteeAiPaymentPeriod::NoPeriod
        }
    }

    pub fn as_str(&self) -> (text: &'static str)
        ensures
            text@ == self.name(),
    {
        match self {
            GiteeAiPaymentPeriod::Year => "YEAR",
            GiteeAiPaymentPeriod::Month => "MONTH",
            GiteeAiPaymentPeriod::Day => "DAY",
            GiteeAiPaymentPeriod::NoPeriod => "NONE",
        }
    }

    pub fn from_str(s: &str) -> (period: GiteeAiPaymentPeriod)
        ensures
            period == GiteeAiPaymentPeriod::named(s@),
    {
        if str_eq(s, "YEAR") {
            GiteeAiPaymentPeriod::Year
        } else if str_eq(s, "MONTH") {
            GiteeAiPaymentPeriod::Month
        } else if str_eq(s, "DAY") {
            GiteeAiPaymentPeriod::Day
        } else {
            GiteeAiPaymentPeriod::NoPeriod
        }
    }

    /// Reading back the wire name of a period gives that period.
    pub proof fn name_round_trip(period: GiteeAiPaymentPeriod)
        ensures
            GiteeAiPaymentPeriod::named(period.name()) == period,
    {
        reveal_strlit("YEAR");
        reveal_strlit("MONTH");
        reveal_strlit("DAY");
        reveal_strlit("NONE");
        assert("YEAR"@[0] == 'Y' && "YEAR"@.len() == 4);
        assert("MONTH"@.len() == 5);
        assert("DAY"@.len() == 3);
        assert("NONE"@[0] == 'N' && "NONE"@.len() == 4);
    }
}

/// One subscription of an account to a payment plan.
#[derive(Debug, Clone, PartialEq, Eq)]
pub struct GiteeAiSubscription {
    pub pay_plan_ident: String,
    pub expired_at: i64,
    pub status: String,
}

/// What a [`GiteeAiSubscription`] holds.
pub struct GiteeAiSubscriptionView {
    pub pay_plan_ident: Seq<char>,
    pub expired_at: i64,
    pub status: Seq<char>,
}

impl View for GiteeAiSubscription {
    type V = GiteeAiSubscriptionView;

    open spec fn view(&self) -> GiteeAiSubscriptionView {
        GiteeAiSubscriptionView {
            pay_plan_ident: self.pay_plan_ident@,
            expired_at: self.expired_at,
            status: self.status@,
        }
    }
}

/// What each subscription of a sequence holds.
pub open spec fn subscription_views(subscriptions: Seq<GiteeAiSubscription>) -> Seq<
    GiteeAiSubscriptionView,
> {
    subscriptions.map_values(|subscription: GiteeAiSubscription| subscription@)
}

/// An account of the hosted service.
#[derive(Debug, Clone, PartialEq, Eq)]
pub struct GiteeAiUser {
    pub mobile: String,
    pub email: String,
    pub status: GiteeAiUserStatus,
    pub purchase_status: GiteeAiUserPurchaseStatus,
    pub pay_plan_ident: String,
    pub created_at: i64,
    pub usage_expired_at: i64,
    pub subscriptions: Vec<GiteeAiSubscription>,
}

/// What a [`GiteeAiUser`] holds.
pub struct GiteeAiUserView {
    pub mobile: Seq<char>,
    pub email: Seq<char>,
    pub status: GiteeAiUserStatus,
    pub purchase_status: GiteeAiUserPurchaseStatus,
    pub pay_plan_ident: Seq<char>,
    pub created_at: i64,
    pub usage_expired_at: i64,
    pub subscriptions: Seq<GiteeAiSubscriptionView>,
}

impl View for GiteeAiUser {
    type V = GiteeAiUserView;

    open spec fn view(&self) -> GiteeAiUserView {
        GiteeAiUserView {
            mobile: self.mobile@,
            email: self.email@,
            status: self.status,
            purchase_status: self.purchase_status,
            pay_plan_ident: self.pay_plan_ident@,
            created_at: self.created_at,
            usage_expired_at: self.usage_expired_at,
            subscriptions: subscription_views(self.subscriptions@),
        }
    }
}

impl GiteeAiUserView {
    /// Whether the account is in good standing and holds a live purchase.
    pub open spec fn is_paying(self) -> bool {
        self.status == GiteeAiUserStatus::Normal && self.purchase_status
            == GiteeAiUserPurchaseStatus::Active
    }
}

impl GiteeAiUser {
    /// Whether the account is in good standing and holds a live purchase.
    pub fn is_paying(&self) -> (paying: bool)
        ensures
            paying == self@.is_paying(),
    {
        let normal = match self.status {
            GiteeAiUserStatus::Normal => true,
            GiteeAiUserStatus::Disabled => false,
        };
        let active = match self.purchase_status {
            GiteeAiUserPurchaseStatus::Active => true,
            _ => false,
        };
        normal && active
    }
}

/// An error as the service reports it in the body of a failed response.
#[derive(Debug, Clone, PartialEq, Eq)]
pub struct GiteeAiError {
    pub code: i32,
    pub message: String,
}

/// What a [`GiteeAiError`] holds.
pub struct GiteeAiErrorView {
    pub code: i32,
    pub message: Seq<char>,
}

impl View for GiteeAiError {
    type V = GiteeAiErrorView;

    open spec fn view(&self) -> GiteeAiErrorView {
        GiteeAiErrorView { code: self.code, message: self.message@ }
    }
}

impl GiteeAiErrorView {
    /// The one-line description of the error.
    pub open spec fn description(self) -> Seq<char> {
        "Gitee AI API Error "@ + signed_decimal(self.code as int) + ": "@ + self.message
    }
}

impl GiteeAiError {
    /// The one-line description of the error: its code, then its message.
    pub fn to_string(&self) -> (text: String)
        ensures
            text@ == self@.description(),
    {
        let mut text = String::from_str("Gitee AI API Error ");
        append_signed_decimal(&mut text, self.code as i64);
        text.append(": ");
        text.append(self.message.as_str());
        assert(text@ =~= self@.description());
        text
    }
}

/// What the service answers when a payment is opened.
#[derive(Debug, Clone, PartialEq, Eq)]
pub struct GiteeAiPayDetail {
    pub ident: String,
    pub status: String,
    pub redirect_type: String,
    pub url: String,
}

/// What a [`GiteeAiPayDetail`] holds.
pub struct GiteeAiPayDetailView {
    pub ident: Seq<char>,
    pub status: Seq<char>,
    pub redirect_type: Seq<char>,
    pub url: Seq<char>,
}

impl View for GiteeAiPayDetail {
    type V = GiteeAiPayDetailView;

    open spec fn view(&self) -> GiteeAiPayDetailView {
        GiteeAiPayDetailView {
            ident: self.ident@,
            status: self.status@,
            redirect_type: self.redirect_type@,
            url: self.url@,
        }
    }
}

/// The access token of a logged-in account and when it was taken into use.
#[derive(Debug, Clone, PartialEq, Eq)]
pub struct GiteeAiTokenInfo {
    pub token: String,
    pub user_email: String,
    pub created_at: i64,
    pub updated_at: i64,
}

/// What a [`GiteeAiTokenInfo`] holds.
pub struct GiteeAiTokenInfoView {
    pub token: Seq<char>,
    pub user_email: Seq<char>,
    pub created_at: i64,
    pub updated_at: i64,
}

impl View for GiteeAiTokenInfo {
    type V = GiteeAiTokenInfoView;

    open spec fn view(&self) -> GiteeAiTokenInfoView {
        GiteeAiTokenInfoView {
            token: self.token@,
            user_email: self.user_email@,
            created_at: self.created_at,
            updated_at: self.updated_at,
        }
    }
}

/// Whether an account is logged in, and if so which account with which token.
#[derive(Debug, Clone, PartialEq, Eq)]
pub struct GiteeAiLoginStatus {
    pub is_logged_in: bool,
    pub user_info: Option<GiteeAiUser>,
    pub token_info: Option<GiteeAiTokenInfo>,
}

/// What a [`GiteeAiLoginStatus`] holds.
pub struct GiteeAiLoginStatusView {
    pub is_logged_in: bool,
    pub user_info: Option<GiteeAiUserView>,
    pub token_info: Option<GiteeAiTokenInfoView>,
}

impl View for GiteeAiLoginStatus {
    type V = GiteeAiLoginStatusView;

    open spec fn view(&self) -> GiteeAiLoginStatusView {
        GiteeAiLoginStatusView {
            is_logged_in: self.is_logged_in,
            user_info: match self.user_info {
                Some(user) => Some(user@),
                None => None,
            },
            token_info: match self.token_info {
                Some(token) => Some(token@),
                None => None,
            },
        }
    }
}

impl GiteeAiLoginStatusView {
    /// The status of a visitor who is not logged in.
    pub open spec fn logged_out() -> GiteeAiLoginStatusView {
        GiteeAiLoginStatusView { is_logged_in: false, user_info: None, token_info: None }
    }

    /// The token that opens the hosted service for this account: present when
    /// the account is logged in, in good standing, holds a live purchase and
    /// has a token that is not empty.
    pub open spec fn subscription_token(self) -> Option<Seq<char>> {
        if self.is_logged_in && self.user_info is Some && self.user_info->0.is_paying()
            && self.token_info is Some && self.token_info->0.token.len() > 0 {
            Some(self.token_info->0.token)
        } else {
            None
        }
    }
}

impl GiteeAiLoginStatus {
    /// The status of a visitor who is not logged in.
    pub fn logged_out() -> (status: GiteeAiLoginStatus)
        ensures
            status@ == GiteeAiLoginStatusView::logged_out(),
    {
        GiteeAiLoginStatus { is_logged_in: false, user_info: None, token_info: None }
    }

    /// The token that opens the hosted service for this account, if any.
    pub fn subscription_token(&self) -> (token: Option<String>)
        ensures
            match token {
                Some(t) => self@.subscription_token() == Some(t@),
                None => self@.subscription_token() is None,
            },
    {
        if !self.is_logged_in {
            return None;
        }
        let paying = match &self.user_info {
            Some(user) => user.is_paying(),
            None => false,
        };
        if !paying {
            return None;
        }
        match &self.token_info {
            Some(info) => {
                if info.token.as_str().is_empty() {
                    None
                } else {
                    Some(info.token.clone())
                }
            },
            None => None,
        }
    }
}

/// What a payment plan of the application offers, apart from its price.
#[derive(Debug, Clone, PartialEq, Eq)]
pub struct GiteeAiPlanTerms {
    pub ident: String,
    pub name: String,
    pub period: GiteeAiPaymentPeriod,
    pub period_type: u32,
    pub period_quantity: u32,
    pub calls_limit: u32,
    pub description: String,
}

/// What a [`GiteeAiPlanTerms`] holds.
pub struct GiteeAiPlanTermsView {
    pub ident: Seq<char>,
    pub name: Seq<char>,
    pub period: GiteeAiPaymentPeriod,
    pub period_type: u32,
    pub period_quantity: u32,
    pub calls_limit: u32,
    pub description: Seq<char>,
}

impl View for GiteeAiPlanTerms {
    type V = GiteeAiPlanTermsView;

    open spec fn view(&self) -> GiteeAiPlanTermsView {
        GiteeAiPlanTermsView {
            ident: self.ident@,
            name: self.name@,
            period: self.period,
            period_type: self.period_type,
            period_quantity: self.period_quantity,
            calls_limit: self.calls_limit,
            description: self.description@,
        }
    }
}

/// What each plan of a sequence holds.
pub open spec fn plan_views(plans: Seq<GiteeAiPlanTerms>) -> Seq<GiteeAiPlanTermsView> {
    plans.map_values(|plan: GiteeAiPlanTerms| plan@)
}

/// The application as the service describes it, apart from the prices of its
/// plans.
#[derive(Debug, Clone, PartialEq, Eq)]
pub struct GiteeAiAppTerms {
    pub appid: String,
    pub name: String,
    pub status: GiteeAiAppStatus,
    pub payment_plans: Vec<GiteeAiPlanTerms>,
}

/// What a [`GiteeAiAppTerms`] holds.
pub struct GiteeAiAppTermsView {
    pub appid: Seq<char>,
    pub name: Seq<char>,
    pub status: GiteeAiAppStatus,
    pub payment_plans: Seq<GiteeAiPlanTermsView>,
}

impl View for GiteeAiAppTerms {
    type V = GiteeAiAppTermsView;

    open spec fn view(&self) -> GiteeAiAppTermsView {
        GiteeAiAppTermsView {
            appid: self.appid@,
            name: self.name@,
            status: self.status,
            payment_plans: plan_views(self.payment_plans@),
        }
    }
}

} // verus!
