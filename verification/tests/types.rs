use connector::gitee_ai::client::APP_ID;
use connector::gitee_ai::client::ApiRequest;
use connector::gitee_ai::client::CONTENT_TYPE;
use connector::gitee_ai::client::DEVELOPER_ACCESS_TOKEN;
use connector::gitee_ai::client::ENDPOINT;
use connector::gitee_ai::client::Proxy;
use connector::gitee_ai::client::USER_AGENT;
use connector::gitee_ai::client::api_request;
use connector::gitee_ai::client::proxy_url;
use connector::gitee_ai::error::Error;
use connector::gitee_ai::store::StoreKey;
use connector::gitee_ai::types::GiteeAiAppStatus;
use connector::gitee_ai::types::GiteeAiError;
use connector::gitee_ai::types::GiteeAiPayDetail;
use connector::gitee_ai::types::GiteeAiPaymentPeriod;
use connector::gitee_ai::types::GiteeAiUserPurchaseStatus;
use connector::gitee_ai::types::GiteeAiUserStatus;
use connector::local_llm::model::SupportedModel;
use connector::local_llm::model::supported_models;
use connector::text::append_decimal;
use connector::text::append_signed_decimal;
use connector::text::chars_of;
use connector::text::contains;
use connector::text::str_eq;

#[test]
fn purchase_status_names() {
    assert_eq!(GiteeAiUserPurchaseStatus::Active.as_str(), "ACTIVE");
    assert_eq!(GiteeAiUserPurchaseStatus::Expired.as_str(), "EXPIRED");
    assert_eq!(GiteeAiUserPurchaseStatus::Exhausted.as_str(), "EXHAUSTED");
    assert_eq!(GiteeAiUserPurchaseStatus::NotPurchased.as_str(), "NOT_PURCHASED");
}

#[test]
fn purchase_status_from_name() {
    assert_eq!(GiteeAiUserPurchaseStatus::from_str("ACTIVE"), GiteeAiUserPurchaseStatus::Active);
    assert_eq!(GiteeAiUserPurchaseStatus::from_str("EXPIRED"), GiteeAiUserPurchaseStatus::Expired);
    assert_eq!(
        GiteeAiUserPurchaseStatus::from_str("EXHAUSTED"),
        GiteeAiUserPurchaseStatus::Exhausted
    );
    assert_eq!(
        GiteeAiUserPurchaseStatus::from_str("NOT_PURCHASED"),
        GiteeAiUserPurchaseStatus::NotPurchased
    );
    for unknown in ["", "active", "ACTIVE ", "PAID"] {
        assert_eq!(
            GiteeAiUserPurchaseStatus::from_str(unknown),
            GiteeAiUserPurchaseStatus::Exhausted
        );
    }
}

#[test]
fn user_status_names() {
    assert_eq!(GiteeAiUserStatus::Normal.as_str(), "NORMAL");
    assert_eq!(GiteeAiUserStatus::Disabled.as_str(), "DISABLED");
    assert_eq!(GiteeAiUserStatus::from_str("NORMAL"), GiteeAiUserStatus::Normal);
    assert_eq!(GiteeAiUserStatus::from_str("DISABLED"), GiteeAiUserStatus::Disabled);
    assert_eq!(GiteeAiUserStatus::from_str("disabled"), GiteeAiUserStatus::Normal);
    assert_eq!(GiteeAiUserStatus::from_str(""), GiteeAiUserStatus::Normal);
}

#[test]
fn app_status_names() {
    let all = [
        (GiteeAiAppStatus::Draft, "DRAFT"),
        (GiteeAiAppStatus::UnderReview, "UNDER_REVIEW"),
        (GiteeAiAppStatus::PendingRelease, "PENDING_RELEASE"),
        (GiteeAiAppStatus::Published, "PUBLISHED"),
        (GiteeAiAppStatus::Removed, "REMOVED"),
        (GiteeAiAppStatus::Deleted, "DELETED"),
    ];
    for (status, name) in all {
        assert_eq!(status.as_str(), name);
        assert_eq!(GiteeAiAppStatus::from_str(name), status);
    }
    assert_eq!(GiteeAiAppStatus::from_str("UNKNOWN"), GiteeAiAppStatus::Draft);
    assert_eq!(GiteeAiAppStatus::from_str(""), GiteeAiAppStatus::Draft);
}

#[test]
fn payment_period_names() {
    let all = [
        (GiteeAiPaymentPeriod::Year, "YEAR"),
        (GiteeAiPaymentPeriod::Month, "MONTH"),
        (GiteeAiPaymentPeriod::Day, "DAY"),
        (GiteeAiPaymentPeriod::NoPeriod, "NONE"),
    ];
    for (period, name) in all {
        assert_eq!(period.as_str(), name);
        assert_eq!(GiteeAiPaymentPeriod::from_str(name), period);
    }
    assert_eq!(GiteeAiPaymentPeriod::from_str("WEEK"), GiteeAiPaymentPeriod::NoPeriod);
    assert_eq!(GiteeAiPaymentPeriod::from_str("year"), GiteeAiPaymentPeriod::NoPeriod);
}

#[test]
fn service_error_description() {
    let error = GiteeAiError { code: 404, message: "not found".to_string() };
    assert_eq!(error.to_string(), "Gitee AI API Error 404: not found");
    let error = GiteeAiError { code: -1, message: String::new() };
    assert_eq!(error.to_string(), "Gitee AI API Error -1: ");
    let error = GiteeAiError { code: i32::MIN, message: "m".to_string() };
    assert_eq!(error.to_string(), "Gitee AI API Error -2147483648: m");
    let error = GiteeAiError { code: 0, message: "零".to_string() };
    assert_eq!(error.to_string(), "Gitee AI API Error 0: 零");
}

#[test]
fn error_descriptions() {
    assert_eq!(Error::Request("timeout".to_string()).to_string(), "Request failed: timeout");
    assert_eq!(Error::Json("eof".to_string()).to_string(), "JSON parsing failed: eof");
    assert_eq!(
        Error::GiteeAi(GiteeAiError { code: 7, message: "m".to_string() }).to_string(),
        "Gitee AI API error: Gitee AI API Error 7: m"
    );
    assert_eq!(Error::Store("locked".to_string()).to_string(), "Store error: locked");
    assert_eq!(Error::Other("plain".to_string()).to_string(), "plain");
}

#[test]
fn errors_from_their_sources() {
    let reported = GiteeAiError { code: 7, message: "m".to_string() };
    assert_eq!(Error::from(reported.clone()), Error::GiteeAi(reported));
    assert_eq!(Error::from("text".to_string()), Error::Other("text".to_string()));
}

#[test]
fn pay_detail_holds_its_fields() {
    let detail = GiteeAiPayDetail {
        ident: "i".to_string(),
        status: "s".to_string(),
        redirect_type: "r".to_string(),
        url: "u".to_string(),
    };
    assert_eq!(detail.clone(), detail);
}

#[test]
fn proxy_address() {
    let proxy = Proxy {
        enabled: true,
        protocol: "http".to_string(),
        host: "localhost".to_string(),
        port: 7890,
    };
    assert_eq!(proxy.url(), "http://localhost:7890");
    let proxy = Proxy { enabled: false, protocol: "https".to_string(), host: "p".to_string(), port: 0 };
    assert_eq!(proxy.url(), "https://p:0");
    let proxy = Proxy { enabled: true, protocol: String::new(), host: String::new(), port: 65535 };
    assert_eq!(proxy.url(), "://:65535");
}

#[test]
fn only_an_enabled_proxy_is_used() {
    let proxy = Proxy {
        enabled: true,
        protocol: "http".to_string(),
        host: "localhost".to_string(),
        port: 7890,
    };
    assert_eq!(proxy_url(Some(proxy.clone())), Some("http://localhost:7890".to_string()));
    assert_eq!(proxy_url(Some(Proxy { enabled: false, ..proxy })), None);
    assert_eq!(proxy_url(None), None);
}

#[test]
fn service_constants() {
    assert_eq!(ENDPOINT, "https://ai.gitee.com/v1");
    assert_eq!(USER_AGENT, "Hyprnote/1.0 (+https://ai.gitee.com/apps/hyprnote)");
    assert_eq!(APP_ID, "");
    assert_eq!(DEVELOPER_ACCESS_TOKEN, "");
    assert_eq!(CONTENT_TYPE, "application/json");
}

#[test]
fn request_with_user_token() {
    assert_eq!(
        api_request("/app/user", Some("tok")),
        ApiRequest {
            url: "https://ai.gitee.com/v1/app/user".to_string(),
            authorization: "Bearer tok".to_string(),
        }
    );
}

#[test]
fn request_without_token_uses_developer_token() {
    assert_eq!(
        api_request("/app", None),
        ApiRequest {
            url: "https://ai.gitee.com/v1/app".to_string(),
            authorization: format!("Bearer {}", DEVELOPER_ACCESS_TOKEN),
        }
    );
}

#[test]
fn account_store_keys() {
    assert_eq!(StoreKey::scope(), "gitee-ai");
    assert_eq!(StoreKey::GiteeAiUserToken.as_str(), "gitee_ai_user_token");
    assert_eq!(StoreKey::FreeTrialStartTime.as_str(), "free_trial_start_time");
    assert_eq!(StoreKey::GiteeAiUserToken.to_string(), "gitee_ai_user_token");
    assert_eq!(StoreKey::FreeTrialStartTime.to_string(), "free_trial_start_time");
}

#[test]
fn connector_store_keys() {
    let all = [
        (connector::store::StoreKey::CustomEnabled, "CustomEnabled"),
        (connector::store::StoreKey::CustomApiBase, "CustomApiBase"),
        (connector::store::StoreKey::CustomApiKey, "CustomApiKey"),
        (connector::store::StoreKey::CustomModel, "CustomModel"),
        (connector::store::StoreKey::FreeTrialStartTime, "FreeTrialStartTime"),
    ];
    for (key, name) in all {
        assert_eq!(key.as_str(), name);
        assert_eq!(key.to_string(), name);
    }
}

#[test]
fn supported_model_facts() {
    let model = SupportedModel::Llama3p2_3bQ4;
    assert_eq!(model.model_size(), 2019377440);
    assert_eq!(
        model.model_url(),
        "https://storage.hyprnote.com/v0/lmstudio-community/Llama-3.2-3B-Instruct-GGUF/main/Llama-3.2-3B-Instruct-Q4_K_M.gguf"
    );
    assert_eq!(supported_models(), vec![SupportedModel::Llama3p2_3bQ4]);
}

#[test]
fn model_file_lies_in_the_data_directory() {
    let model = SupportedModel::Llama3p2_3bQ4;
    let directory = std::path::PathBuf::from("data").join("models");
    let path = model.model_path(directory.clone());
    assert_eq!(path, directory.join("llm.gguf"));
    assert_ne!(path, directory);
    assert_eq!(path.file_name().and_then(|name| name.to_str()), Some("llm.gguf"));
    assert_eq!(path.parent(), Some(directory.as_path()));
    assert_eq!(
        model.model_path(std::path::PathBuf::new()),
        std::path::PathBuf::from("llm.gguf")
    );
}

#[test]
fn text_equality() {
    assert!(str_eq("", ""));
    assert!(str_eq("abc", "abc"));
    assert!(!str_eq("abc", "abd"));
    assert!(!str_eq("abc", "ab"));
    assert!(!str_eq("", "a"));
    assert!(str_eq("模型", "模型"));
    assert!(!str_eq("模型", "模形"));
}

#[test]
fn characters_of_a_text() {
    assert_eq!(chars_of(""), Vec::<char>::new());
    assert_eq!(chars_of("aé模"), vec!['a', 'é', '模']);
}

#[test]
fn substring_search() {
    assert!(contains("", ""));
    assert!(contains("abc", ""));
    assert!(!contains("", "a"));
    assert!(contains("abc", "abc"));
    assert!(contains("abc", "bc"));
    assert!(contains("abc", "ab"));
    assert!(!contains("abc", "ac"));
    assert!(!contains("abc", "abcd"));
    assert!(contains("aab", "ab"));
    assert!(contains("ababac", "abac"));
    assert!(contains("é模x", "模x"));
    assert!(!contains("é模x", "模é"));
}

#[test]
fn decimal_rendering() {
    let mut out = "n=".to_string();
    append_decimal(&mut out, 0);
    assert_eq!(out, "n=0");
    let mut out = String::new();
    append_decimal(&mut out, 9);
    append_decimal(&mut out, 10);
    append_decimal(&mut out, 12345);
    assert_eq!(out, "91012345");
    let mut out = String::new();
    append_decimal(&mut out, u64::MAX);
    assert_eq!(out, "18446744073709551615");
    let mut out = String::new();
    append_signed_decimal(&mut out, i64::MIN);
    append_signed_decimal(&mut out, 0);
    append_signed_decimal(&mut out, -7);
    append_signed_decimal(&mut out, i64::MAX);
    assert_eq!(out, "-92233720368547758080-79223372036854775807");
}
