//! What the account service's answers mean: the account behind a token, the
//! login status that follows from it, and the token that a verified code
//! earns.

use crate::clock::unix_now;
use crate::gitee_ai::error::Error;
use crate::gitee_ai::error::ErrorView;
use crate::gitee_ai::types::GiteeAiAppStatus;
use crate::gitee_ai::types::GiteeAiAppTerms;
use crate::gitee_ai::types::GiteeAiAppTermsView;
use crate::gitee_ai::types::GiteeAiError;
use crate::gitee_ai::types::GiteeAiLoginStatus;
use crate::gitee_ai::types::GiteeAiLoginStatusView;
use crate::gitee_ai::types::GiteeAiPaymentPeriod;
use crate::gitee_ai::types::GiteeAiPlanTerms;
use crate::gitee_ai::types::GiteeAiPlanTermsView;
use crate::gitee_ai::types::GiteeAiSubscription;
use crate::gitee_ai::types::GiteeAiSubscriptionView;
use crate::gitee_ai::types::GiteeAiTokenInfo;
use crate::gitee_ai::types::GiteeAiTokenInfoView;
use crate::gitee_ai::types::GiteeAiUser;
use crate::gitee_ai::types::GiteeAiUserPurchaseStatus;
use crate::gitee_ai::types::GiteeAiUserStatus;
use crate::gitee_ai::types::GiteeAiUserView;
use crate::gitee_ai::types::plan_views;
use crate::gitee_ai::types::subscription_views;
use crate::json::Json;
use crate::json::array_member;
use crate::json::elements_of_member;
use crate::json::json_document;
use crate::json::json_tree;
use crate::json::json_trees;
use crate::json::parse_value;
use crate::json::signed_member_or_zero;
use crate::json::signed_or_zero;
use crate::json::text_member_or_empty;
use crate::json::text_or_empty;
use crate::json::unsigned_member_or_zero;
use crate::json::unsigned_or_zero;
use crate::json::value_is_object;
use crate::json::value_member;
use crate::json::value_text;
use vstd::prelude::*;

verus! {

/// The message of the error for an answer to a verified code that holds no
/// access token.
pub const MISSING_ACCESS_TOKEN: &'static str = "响应中缺少access_token字段";

/// The message of the error for a request that needs a login when nobody is
/// logged in.
pub const NOT_LOGGED_IN: &'static str = "用户未登录";

/// The subscription that an entry of an account's `subscriptions` describes.
/// Only objects count; a field that is missing or of another type reads as
/// empty or zero.
pub open spec fn subscription_of() -> spec_fn(Json) -> Option<GiteeAiSubscriptionView> {
    |entry: Json|
        if entry is Object {
            Some(
                GiteeAiSubscriptionView {
                    pay_plan_ident: text_or_empty(entry, "pay_plan_ident"@),
                    expired_at: signed_or_zero(entry, "expired_at"@),
                    status: text_or_empty(entry, "status"@),
                },
            )
        } else {
            None
        }
}

/// The subscriptions that an account document lists, in their order; none
/// where it has no array under `subscriptions`.
pub open spec fn subscriptions_of(document: Json) -> Seq<GiteeAiSubscriptionView> {
    match array_member(document, "subscriptions"@) {
        Some(entries) => entries.filter_map(subscription_of()),
        None => Seq::empty(),
    }
}

/// The account that a document of the account service describes, read at
/// `now`. A text field that is missing or no string reads as empty; an
/// unknown status name reads as the default of its kind. The service sends no
/// dates for the account, so both are set to `now`.
pub open spec fn user_of(document: Json, now: i64) -> GiteeAiUserView {
    GiteeAiUserView {
        mobile: text_or_empty(document, "phone"@),
        email: text_or_empty(document, "email"@),
        status: GiteeAiUserStatus::named(text_or_empty(document, "status"@)),
        purchase_status: GiteeAiUserPurchaseStatus::named(
            text_or_empty(document, "purchase_status"@),
        ),
        pay_plan_ident: text_or_empty(document, "pay_plan_ident"@),
        created_at: now,
        usage_expired_at: now,
        subscriptions: subscriptions_of(document),
    }
}

/// Reads the subscriptions out of the entries of an account document.
pub fn subscriptions_from_entries(entries: &Vec<serde_json::Value>) -> (subscriptions: Vec<
    GiteeAiSubscription,
>)
    ensures
        subscription_views(subscriptions@) == json_trees(entries@).filter_map(subscription_of()),
{
    let mut subscriptions: Vec<GiteeAiSubscription> = Vec::new();
    let mut at: usize = 0;
    assert(json_trees(entries@).take(0) =~= Seq::<Json>::empty());
    assert(subscription_views(subscriptions@) =~= Seq::<GiteeAiSubscriptionView>::empty());
    while at < entries.len()
        invariant
            at <= entries.len(),
            subscription_views(subscriptions@) == json_trees(entries@).take(at as int).filter_map(
                subscription_of(),
            ),
        decreases entries.len() - at,
    {
        proof {
            json_trees(entries@).lemma_filter_map_take_succ(subscription_of(), at as int);
        }
        let entry = &entries[at];
        if value_is_object(entry) {
            let subscription = GiteeAiSubscription {
                pay_plan_ident: text_member_or_empty(entry, "pay_plan_ident"),
                expired_at: signed_member_or_zero(entry, "expired_at"),
                status: text_member_or_empty(entry, "status"),
            };
            let ghost before = subscriptions@;
            subscriptions.push(subscription);
            assert(subscription_views(subscriptions@) =~= subscription_views(before).push(
                subscription@,
            ));
        }
        at += 1;
    }
    assert(json_trees(entries@).take(entries.len() as int) =~= json_trees(entries@));
    subscriptions
}

/// Reads the account out of a document of the account service.
pub fn user_from_document(document: &serde_json::Value, now: i64) -> (user: GiteeAiUser)
    ensures
        user@ == user_of(json_tree(*document), now),
{
    let subscriptions = match elements_of_member(document, "subscriptions") {
        Some(entries) => subscriptions_from_entries(entries),
        None => {
            let none: Vec<GiteeAiSubscription> = Vec::new();
            assert(subscription_views(none@) =~= Seq::<GiteeAiSubscriptionView>::empty());
            none
        },
    };
    let status = text_member_or_empty(document, "status");
    let purchase_status = text_member_or_empty(document, "purchase_status");
    GiteeAiUser {
        mobile: text_member_or_empty(document, "phone"),
        email: text_member_or_empty(document, "email"),
        status: GiteeAiUserStatus::from_str(status.as_str()),
        purchase_status: GiteeAiUserPurchaseStatus::from_str(purchase_status.as_str()),
        pay_plan_ident: text_member_or_empty(document, "pay_plan_ident"),
        created_at: now,
        usage_expired_at: now,
        subscriptions,
    }
}

/// Reads the account out of the body of a successful answer of the account
/// service, as of `now`. A body that is no JSON document is a JSON error.
pub fn user_from_body_at(body: &str, now: i64) -> (user: Result<GiteeAiUser, Error>)
    ensures
        match user {
            Ok(user) => json_document(body@) matches Some(document) && user@ == user_of(
                document,
                now,
            ),
            Err(error) => json_document(body@) is None && error is Json,
        },
{
    match parse_value(body) {
        Ok(document) => Ok(user_from_document(&document, now)),
        Err(failure) => Err(Error::Json(failure)),
    }
}

/// Reads the account out of the body of a successful answer of the account
/// service, as of the moment of the call.
///
/// This reads the system clock, through `chrono`, which panics on a clock
/// that is set before 1970. [`user_from_body_at`] does the same work for a
/// time that the caller hands in, and reads no clock.
pub fn user_from_body(body: &str) -> (user: Result<GiteeAiUser, Error>)
    ensures
        match user {
            Ok(user) => json_document(body@) matches Some(document) && user@ == user_of(
                document,
                user.created_at,
            ) && 0 <= user.created_at,
            Err(error) => json_document(body@) is None && error is Json,
        },
{
    user_from_body_at(body, unix_now())
}

/// The access token in the document that answers a verified code: the string
/// under `access_token`, where there is one.
pub open spec fn access_token_of(document: Json) -> Option<Seq<char>> {
    match document.member("access_token"@) {
        Some(token) => token.text(),
        None => None,
    }
}

/// Reads the access token out of the document that answers a verified code.
/// A document without a string under `access_token` is an error.
pub fn access_token_from_document(document: &serde_json::Value) -> (token: Result<String, Error>)
    ensures
        match token {
            Ok(token) => access_token_of(json_tree(*document)) == Some(token@),
            Err(error) => access_token_of(json_tree(*document)) is None && error@
                == ErrorView::Other(MISSING_ACCESS_TOKEN@),
        },
{
    let found = match value_member(document, "access_token") {
        Some(token) => value_text(token),
        None => None,
    };
    match found {
        Some(token) => Ok(token.to_owned()),
        None => Err(Error::Other(MISSING_ACCESS_TOKEN.to_owned())),
    }
}

/// Reads the access token out of the body of the successful answer to a
/// verified code. A body that is no JSON document is a JSON error; a document
/// without a string under `access_token` is an error of its own.
pub fn access_token_from_body(body: &str) -> (token: Result<String, Error>)
    ensures
        match token {
            Ok(token) => json_document(body@) matches Some(document) && access_token_of(document)
                == Some(token@),
            Err(error) => match json_document(body@) {
                Some(document) => access_token_of(document) is None && error@
                    == ErrorView::Other(MISSING_ACCESS_TOKEN@),
                None => error is Json,
            },
        },
{
    match parse_value(body) {
        Ok(document) => access_token_from_document(&document),
        Err(failure) => Err(Error::Json(failure)),
    }
}

/// The error that a failed answer of the account service stands for: the
/// service's own error where the body could be decoded as one, a JSON error
/// with the decoder's message where it could not.
pub fn api_failure(decoded: Result<GiteeAiError, String>) -> (error: Error)
    ensures
        match decoded {
            Ok(reported) => error@ == ErrorView::GiteeAi(reported@),
            Err(message) => error@ == ErrorView::Json(message@),
        },
{
    match decoded {
        Ok(reported) => Error::GiteeAi(reported),
        Err(message) => Error::Json(message),
    }
}

/// The token to present to the account service: the user's where one is
/// stored, the developer's where none is.
pub fn access_token(user_token: Option<String>, developer_token: &str) -> (token: String)
    ensures
        token@ == match user_token {
            Some(stored) => stored@,
            None => developer_token@,
        },
{
    match user_token {
        Some(stored) => stored,
        None => developer_token.to_owned(),
    }
}

/// The token of a user who asks for their own account. Nobody being logged
/// in is an error.
pub fn user_token_for_account(user_token: Option<String>) -> (token: Result<String, Error>)
    ensures
        match user_token {
            Some(stored) => token matches Ok(t) && t@ == stored@,
            None => token matches Err(error) && error@ == ErrorView::Other(
                NOT_LOGGED_IN@,
            ),
        },
{
    match user_token {
        Some(stored) => Ok(stored),
        None => Err(Error::Other(NOT_LOGGED_IN.to_owned())),
    }
}

/// The status of an account that is logged in with `token` since `now`.
pub open spec fn logged_in(token: Seq<char>, user: GiteeAiUserView, now: i64) -> GiteeAiLoginStatusView {
    GiteeAiLoginStatusView {
        is_logged_in: true,
        user_info: Some(user),
        token_info: Some(
            GiteeAiTokenInfoView {
                token,
                user_email: user.email,
                created_at: now,
                updated_at: now,
            },
        ),
    }
}

/// What follows from checking a stored token with the account service.
#[derive(Debug, Clone, PartialEq, Eq)]
pub struct LoginVerdict {
    /// The login status to report.
    pub status: GiteeAiLoginStatus,
    /// Whether the stored token proved invalid and has to be removed.
    pub forget_token: bool,
}

/// Judges a stored token by what the account service answered for it at
/// `now`. With an account the user is logged in; without one the user is
/// logged out and the token is to be forgotten.
pub fn login_verdict_at(token: String, fetched: Result<GiteeAiUser, Error>, now: i64) -> (verdict:
    LoginVerdict)
    ensures
        match fetched {
            Ok(user) => verdict.status@ == logged_in(token@, user@, now) && !verdict.forget_token,
            Err(_) => verdict.status@ == GiteeAiLoginStatusView::logged_out()
                && verdict.forget_token,
        },
{
    match fetched {
        Ok(user) => {
            let token_info = GiteeAiTokenInfo {
                token,
                user_email: user.email.clone(),
                created_at: now,
                updated_at: now,
            };
            LoginVerdict {
                status: GiteeAiLoginStatus {
                    is_logged_in: true,
                    user_info: Some(user),
                    token_info: Some(token_info),
                },
                forget_token: false,
            }
        },
        Err(_) => LoginVerdict { status: GiteeAiLoginStatus::logged_out(), forget_token: true },
    }
}

/// Judges a stored token by what the account service answered for it, as of
/// the moment of the call.
///
/// This reads the system clock, through `chrono`, which panics on a clock
/// that is set before 1970. [`login_verdict_at`] does the same work for a
/// time that the caller hands in, and reads no clock.
pub fn login_verdict(token: String, fetched: Result<GiteeAiUser, Error>) -> (verdict: LoginVerdict)
    ensures
        match fetched {
            Ok(user) => verdict.status@.token_info matches Some(info) && verdict.status@
                == logged_in(token@, user@, info.created_at) && 0 <= info.created_at
                && !verdict.forget_token,
            Err(_) => verdict.status@ == GiteeAiLoginStatusView::logged_out()
                && verdict.forget_token,
        },
{
    login_verdict_at(token, fetched, unix_now())
}

/// Where the check of the login status stands once the stored token has been
/// read.
#[derive(Debug, Clone, PartialEq, Eq)]
pub enum LoginCheck {
    /// A token is stored: the account service has to be asked for the
    /// account behind it, and its answer judged by [`login_verdict`].
    AskService(String),
    /// No token is stored: nobody is logged in, and nothing is to be asked.
    Settled(LoginVerdict),
}

/// The login status, and whether the stored token is to be forgotten, given
/// the stored token and the account that the service has for it (`None`
/// where it has none or could not be asked). Without a token nobody is
/// logged in; with a token and an account the user is logged in since `now`;
/// with a token and no account the user is logged out and the token goes.
pub open spec fn login_outcome(
    stored_token: Option<Seq<char>>,
    account: Option<GiteeAiUserView>,
    now: i64,
) -> (GiteeAiLoginStatusView, bool) {
    match stored_token {
        None => (GiteeAiLoginStatusView::logged_out(), false),
        Some(token) => match account {
            Some(user) => (logged_in(token, user, now), false),
            None => (GiteeAiLoginStatusView::logged_out(), true),
        },
    }
}

/// The account in an answer of the account service, where there is one.
pub open spec fn fetched_account(fetched: Result<GiteeAiUser, Error>) -> Option<GiteeAiUserView> {
    match fetched {
        Ok(user) => Some(user@),
        Err(_) => None,
    }
}

/// Begins the check of the login status with the token that is stored. With
/// no token the check is over at once: nobody is logged in, and the account
/// service is not asked.
pub fn login_check(stored_token: Option<String>) -> (check: LoginCheck)
    ensures
        match stored_token {
            Some(token) => check matches LoginCheck::AskService(asked) && asked@ == token@,
            None => check matches LoginCheck::Settled(verdict) && verdict.status@
                == GiteeAiLoginStatusView::logged_out() && !verdict.forget_token,
        },
{
    match stored_token {
        Some(token) => LoginCheck::AskService(token),
        None => LoginCheck::Settled(
            LoginVerdict { status: GiteeAiLoginStatus::logged_out(), forget_token: false },
        ),
    }
}

/// The login status at `now`, for the token that is stored and the answer
/// that the account service gives for it. The answer is looked at only where
/// a token is stored.
pub fn login_status_at(
    stored_token: Option<String>,
    fetched: Result<GiteeAiUser, Error>,
    now: i64,
) -> (verdict: LoginVerdict)
    ensures
        (verdict.status@, verdict.forget_token) == login_outcome(
            match stored_token {
                Some(token) => Some(token@),
                None => None,
            },
            fetched_account(fetched),
            now,
        ),
{
    match login_check(stored_token) {
        LoginCheck::AskService(token) => login_verdict_at(token, fetched, now),
        LoginCheck::Settled(verdict) => verdict,
    }
}

/// Whoever is logged in stays so only with a token that the service accepts:
/// a status that follows from an accepted token opens the hosted service
/// exactly when the account pays and the token is not empty.
pub proof fn verdict_carries_subscription(token: Seq<char>, user: GiteeAiUserView, now: i64)
    ensures
        logged_in(token, user, now).subscription_token() == if user.is_paying() && token.len()
            > 0 {
            Some(token)
        } else {
            None
        },
{
}

/// A count as the service's plans carry it: the low 32 bits of the number
/// that was sent.
pub open spec fn low_u32(number: u64) -> u32 {
    (number % 0x1_0000_0000) as u32
}

/// The low 32 bits of a number.
pub fn low_u32_of(number: u64) -> (low: u32)
    ensures
        low == low_u32(number),
{
    (number % 0x1_0000_0000) as u32
}

/// The terms that an entry of an application's `payment_plans` describes.
/// Only objects count; a field that is missing or of another type reads as
/// empty or zero, and an unknown period as no period.
pub open spec fn plan_of() -> spec_fn(Json) -> Option<GiteeAiPlanTermsView> {
    |entry: Json|
        if entry is Object {
            Some(
                GiteeAiPlanTermsView {
                    ident: text_or_empty(entry, "ident"@),
                    name: text_or_empty(entry, "name"@),
                    period: GiteeAiPaymentPeriod::named(text_or_empty(entry, "period"@)),
                    period_type: low_u32(unsigned_or_zero(entry, "period_type"@)),
                    period_quantity: low_u32(unsigned_or_zero(entry, "period_quantity"@)),
                    calls_limit: low_u32(unsigned_or_zero(entry, "calls_limit"@)),
                    description: text_or_empty(entry, "description"@),
                },
            )
        } else {
            None
        }
}

/// The plans that an application document lists, in their order; none where
/// it has no array under `payment_plans`.
pub open spec fn plans_of(document: Json) -> Seq<GiteeAiPlanTermsView> {
    match array_member(document, "payment_plans"@) {
        Some(entries) => entries.filter_map(plan_of()),
        None => Seq::empty(),
    }
}

/// The application that a document of the account service describes.
pub open spec fn app_terms_of(document: Json) -> GiteeAiAppTermsView {
    GiteeAiAppTermsView {
        appid: text_or_empty(document, "appid"@),
        name: text_or_empty(document, "name"@),
        status: GiteeAiAppStatus::named(text_or_empty(document, "status"@)),
        payment_plans: plans_of(document),
    }
}

/// Reads the plans out of the entries of an application document.
pub fn plans_from_entries(entries: &Vec<serde_json::Value>) -> (plans: Vec<GiteeAiPlanTerms>)
    ensures
        plan_views(plans@) == json_trees(entries@).filter_map(plan_of()),
{
    let mut plans: Vec<GiteeAiPlanTerms> = Vec::new();
    let mut at: usize = 0;
    assert(json_trees(entries@).take(0) =~= Seq::<Json>::empty());
    assert(plan_views(plans@) =~= Seq::<GiteeAiPlanTermsView>::empty());
    while at < entries.len()
        invariant
            at <= entries.len(),
            plan_views(plans@) == json_trees(entries@).take(at as int).filter_map(plan_of()),
        decreases entries.len() - at,
    {
        proof {
            json_trees(entries@).lemma_filter_map_take_succ(plan_of(), at as int);
        }
        let entry = &entries[at];
        if value_is_object(entry) {
            let period = text_member_or_empty(entry, "period");
            let plan = GiteeAiPlanTerms {
                ident: text_member_or_empty(entry, "ident"),
                name: text_member_or_empty(entry, "name"),
                period: GiteeAiPaymentPeriod::from_str(period.as_str()),
                period_type: low_u32_of(unsigned_member_or_zero(entry, "period_type")),
                period_quantity: low_u32_of(unsigned_member_or_zero(entry, "period_quantity")),
                calls_limit: low_u32_of(unsigned_member_or_zero(entry, "calls_limit")),
                description: text_member_or_empty(entry, "description"),
            };
            let ghost before = plans@;
            plans.push(plan);
            assert(plan_views(plans@) =~= plan_views(before).push(plan@));
        }
        at += 1;
    }
    assert(json_trees(entries@).take(entries.len() as int) =~= json_trees(entries@));
    plans
}

/// Reads the application out of a document of the account service.
pub fn app_terms_from_document(document: &serde_json::Value) -> (app: GiteeAiAppTerms)
    ensures
        app@ == app_terms_of(json_tree(*document)),
{
    let payment_plans = match elements_of_member(document, "payment_plans") {
        Some(entries) => plans_from_entries(entries),
        None => {
            let none: Vec<GiteeAiPlanTerms> = Vec::new();
            assert(plan_views(none@) =~= Seq::<GiteeAiPlanTermsView>::empty());
            none
        },
    };
    let status = text_member_or_empty(document, "status");
    GiteeAiAppTerms {
        appid: text_member_or_empty(document, "appid"),
        name: text_member_or_empty(document, "name"),
        status: GiteeAiAppStatus::from_str(status.as_str()),
        payment_plans,
    }
}

/// Reads the application out of the body of a successful answer of the
/// account service. A body that is no JSON document is a JSON error.
pub fn app_terms_from_body(body: &str) -> (app: Result<GiteeAiAppTerms, Error>)
    ensures
        match app {
            Ok(app) => json_document(body@) matches Some(document) && app@ == app_terms_of(
                document,
            ),
            Err(error) => json_document(body@) is None && error is Json,
        },
{
    match parse_value(body) {
        Ok(document) => Ok(app_terms_from_document(&document)),
        Err(failure) => Err(Error::Json(failure)),
    }
}

} // verus!
