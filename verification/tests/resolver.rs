use connector::connection::Connection;
use connector::connection::ConnectionLLM;
use connector::connection::ConnectionSTT;
use connector::connection::HOSTED_API_BASE;
use connector::error::Error;
use connector::gitee_ai::trial::TrialState;
use connector::gitee_ai::types::GiteeAiLoginStatus;
use connector::gitee_ai::types::GiteeAiTokenInfo;
use connector::gitee_ai::types::GiteeAiUser;
use connector::gitee_ai::types::GiteeAiUserPurchaseStatus;
use connector::gitee_ai::types::GiteeAiUserStatus;
use connector::local_server::LocalAnswers;
use connector::local_server::LocalReply;
use connector::local_server::LocalRequest;
use connector::local_server::LocalResolver;
use connector::local_server::LocalServerStatus;
use connector::local_server::resolve_local;
use connector::resolver::LlmAnswers;
use connector::resolver::LlmReply;
use connector::resolver::LlmRequest;
use connector::resolver::LlmResolver;
use connector::resolver::MISSING_CUSTOM_API_BASE;
use connector::resolver::get_free_trial_days_remaining;
use connector::resolver::get_llm_connection;
use connector::resolver::get_local_llm_connection;
use connector::resolver::get_stt_connection;

const DAY: i64 = 86_400;
const NOW: i64 = 1_700_000_000;

fn user(status: GiteeAiUserStatus, purchase_status: GiteeAiUserPurchaseStatus) -> GiteeAiUser {
    GiteeAiUser {
        mobile: String::new(),
        email: "someone@example.com".to_string(),
        status,
        purchase_status,
        pay_plan_ident: "plan".to_string(),
        created_at: 0,
        usage_expired_at: 0,
        subscriptions: vec![],
    }
}

fn login(
    status: GiteeAiUserStatus,
    purchase_status: GiteeAiUserPurchaseStatus,
    token: &str,
) -> GiteeAiLoginStatus {
    GiteeAiLoginStatus {
        is_logged_in: true,
        user_info: Some(user(status, purchase_status)),
        token_info: Some(GiteeAiTokenInfo {
            token: token.to_string(),
            user_email: "someone@example.com".to_string(),
            created_at: 0,
            updated_at: 0,
        }),
    }
}

fn paying(token: &str) -> GiteeAiLoginStatus {
    login(GiteeAiUserStatus::Normal, GiteeAiUserPurchaseStatus::Active, token)
}

fn stopped_server() -> LocalAnswers {
    LocalAnswers {
        server: LocalServerStatus::Stopped,
        server_start: Ok("http://127.0.0.1:4321".to_string()),
    }
}

/// Answers under which every tier above the local server declines.
fn nothing_configured() -> LlmAnswers {
    LlmAnswers {
        login: None,
        trial_token: None,
        custom_enabled: Ok(false),
        custom_api_base: Ok(None),
        custom_api_key: Ok(None),
        local: stopped_server(),
    }
}

fn hosted(key: &str) -> ConnectionLLM {
    ConnectionLLM::GiteeAi(Connection {
        api_base: "https://ai.gitee.com/v1".to_string(),
        api_key: Some(key.to_string()),
    })
}

fn started(days_ago: i64) -> TrialState {
    TrialState { start_timestamp: Some(NOW - days_ago * DAY) }
}

#[test]
fn hosted_address_is_fixed() {
    assert_eq!(HOSTED_API_BASE, "https://ai.gitee.com/v1");
}

#[test]
fn active_subscription_gets_hosted_service() {
    let mut trial = started(3);
    let answers = LlmAnswers { login: Some(paying("T")), ..nothing_configured() };
    assert_eq!(get_llm_connection(&mut trial, NOW, answers), Ok(hosted("T")));
}

#[test]
fn active_subscription_wins_over_every_other_tier() {
    let mut trial = started(3);
    let answers = LlmAnswers {
        login: Some(paying("user-token")),
        trial_token: Some("trial-token".to_string()),
        custom_enabled: Err(Error::StoreError("unreadable".to_string())),
        custom_api_base: Ok(Some("http://x".to_string())),
        custom_api_key: Ok(None),
        local: LocalAnswers {
            server: LocalServerStatus::Running("http://127.0.0.1:1234".to_string()),
            server_start: Err(Error::StartupError("boom".to_string())),
        },
    };
    assert_eq!(get_llm_connection(&mut trial, NOW, answers), Ok(hosted("user-token")));
}

#[test]
fn subscription_with_empty_token_falls_to_trial() {
    let mut trial = started(3);
    let answers = LlmAnswers {
        login: Some(paying("")),
        trial_token: Some("F".to_string()),
        ..nothing_configured()
    };
    assert_eq!(get_llm_connection(&mut trial, NOW, answers), Ok(hosted("F")));
}

#[test]
fn subscription_without_token_info_falls_through() {
    let mut trial = started(40);
    let mut status = paying("T");
    status.token_info = None;
    let answers = LlmAnswers { login: Some(status), ..nothing_configured() };
    assert_eq!(
        get_llm_connection(&mut trial, NOW, answers),
        Ok(ConnectionLLM::HyprLocal(Connection {
            api_base: "http://127.0.0.1:4321".to_string(),
            api_key: None,
        }))
    );
}

#[test]
fn inactive_purchase_does_not_open_hosted_service() {
    for purchase in [
        GiteeAiUserPurchaseStatus::Expired,
        GiteeAiUserPurchaseStatus::Exhausted,
        GiteeAiUserPurchaseStatus::NotPurchased,
    ] {
        let mut trial = started(31);
        let answers = LlmAnswers {
            login: Some(login(GiteeAiUserStatus::Normal, purchase, "T")),
            ..nothing_configured()
        };
        let result = get_llm_connection(&mut trial, NOW, answers);
        assert!(matches!(result, Ok(ConnectionLLM::HyprLocal(_))));
    }
}

#[test]
fn disabled_account_does_not_open_hosted_service() {
    let mut trial = started(31);
    let answers = LlmAnswers {
        login: Some(login(GiteeAiUserStatus::Disabled, GiteeAiUserPurchaseStatus::Active, "T")),
        ..nothing_configured()
    };
    let result = get_llm_connection(&mut trial, NOW, answers);
    assert!(matches!(result, Ok(ConnectionLLM::HyprLocal(_))));
}

#[test]
fn logged_out_flag_overrides_account() {
    let mut trial = started(31);
    let mut status = paying("T");
    status.is_logged_in = false;
    let answers = LlmAnswers { login: Some(status), ..nothing_configured() };
    let result = get_llm_connection(&mut trial, NOW, answers);
    assert!(matches!(result, Ok(ConnectionLLM::HyprLocal(_))));
}

#[test]
fn open_trial_gets_hosted_service() {
    let mut trial = started(10);
    let answers = LlmAnswers {
        login: Some(login(GiteeAiUserStatus::Normal, GiteeAiUserPurchaseStatus::Expired, "T")),
        trial_token: Some("F".to_string()),
        ..nothing_configured()
    };
    assert_eq!(get_llm_connection(&mut trial, NOW, answers), Ok(hosted("F")));
}

#[test]
fn failed_login_fetch_still_tries_trial() {
    let mut trial = started(10);
    let answers =
        LlmAnswers { login: None, trial_token: Some("F".to_string()), ..nothing_configured() };
    assert_eq!(get_llm_connection(&mut trial, NOW, answers), Ok(hosted("F")));
}

#[test]
fn trial_is_open_on_its_last_second() {
    let mut trial = TrialState { start_timestamp: Some(NOW - 30 * DAY) };
    let answers = LlmAnswers { trial_token: Some("F".to_string()), ..nothing_configured() };
    assert_eq!(get_llm_connection(&mut trial, NOW, answers), Ok(hosted("F")));
}

#[test]
fn trial_is_closed_one_second_later() {
    let mut trial = TrialState { start_timestamp: Some(NOW - 30 * DAY - 1) };
    let answers = LlmAnswers { trial_token: Some("F".to_string()), ..nothing_configured() };
    assert_eq!(
        get_llm_connection(&mut trial, NOW, answers),
        Ok(ConnectionLLM::HyprLocal(Connection {
            api_base: "http://127.0.0.1:4321".to_string(),
            api_key: None,
        }))
    );
}

#[test]
fn elapsed_trial_falls_to_custom_endpoint() {
    let mut trial = started(45);
    let answers = LlmAnswers {
        trial_token: Some("F".to_string()),
        custom_enabled: Ok(true),
        custom_api_base: Ok(Some("https://llm.example.org".to_string())),
        custom_api_key: Ok(Some("secret".to_string())),
        ..nothing_configured()
    };
    assert_eq!(
        get_llm_connection(&mut trial, NOW, answers),
        Ok(ConnectionLLM::Custom(Connection {
            api_base: "https://llm.example.org".to_string(),
            api_key: Some("secret".to_string()),
        }))
    );
}

#[test]
fn empty_trial_token_never_makes_a_hosted_connection() {
    let mut trial = started(1);
    let answers = LlmAnswers { trial_token: Some(String::new()), ..nothing_configured() };
    let result = get_llm_connection(&mut trial, NOW, answers);
    assert!(matches!(result, Ok(ConnectionLLM::HyprLocal(_))));
}

#[test]
fn first_resolution_starts_the_trial() {
    let mut trial = TrialState::not_started();
    let result = get_llm_connection(&mut trial, NOW, nothing_configured());
    assert!(result.is_ok());
    let stored = trial.start_timestamp.unwrap();
    assert!((stored - NOW).abs() < 5);
    assert_eq!(stored, NOW);
    let again = get_llm_connection(&mut trial, NOW + 1, nothing_configured());
    assert!(again.is_ok());
    assert_eq!(trial.start_timestamp, Some(stored));
}

#[test]
fn first_resolution_is_inside_the_trial() {
    let mut trial = TrialState::not_started();
    let answers = LlmAnswers { trial_token: Some("F".to_string()), ..nothing_configured() };
    assert_eq!(get_llm_connection(&mut trial, NOW, answers), Ok(hosted("F")));
    assert_eq!(trial.start_timestamp, Some(NOW));
}

#[test]
fn trial_starts_even_when_a_subscription_wins() {
    let mut trial = TrialState::not_started();
    let answers = LlmAnswers { login: Some(paying("T")), ..nothing_configured() };
    assert_eq!(get_llm_connection(&mut trial, NOW, answers), Ok(hosted("T")));
    assert_eq!(trial.start_timestamp, Some(NOW));
}

#[test]
fn recorded_trial_start_survives_resolution() {
    let mut trial = TrialState { start_timestamp: Some(12345) };
    let _ = get_llm_connection(&mut trial, NOW, nothing_configured());
    assert_eq!(trial.start_timestamp, Some(12345));
}

#[test]
fn custom_endpoint_without_key() {
    let mut trial = started(31);
    let answers = LlmAnswers {
        custom_enabled: Ok(true),
        custom_api_base: Ok(Some("http://x".to_string())),
        custom_api_key: Ok(None),
        ..nothing_configured()
    };
    assert_eq!(
        get_llm_connection(&mut trial, NOW, answers),
        Ok(ConnectionLLM::Custom(Connection { api_base: "http://x".to_string(), api_key: None }))
    );
}

#[test]
fn custom_endpoint_without_address_is_a_configuration_error() {
    let mut trial = started(31);
    let answers = LlmAnswers {
        custom_enabled: Ok(true),
        custom_api_base: Ok(None),
        custom_api_key: Ok(Some("secret".to_string())),
        ..nothing_configured()
    };
    assert_eq!(
        get_llm_connection(&mut trial, NOW, answers),
        Err(Error::ConfigurationError(MISSING_CUSTOM_API_BASE.to_string()))
    );
}

#[test]
fn unreadable_custom_switch_is_a_store_error() {
    let mut trial = started(31);
    let answers = LlmAnswers {
        custom_enabled: Err(Error::StoreError("locked".to_string())),
        ..nothing_configured()
    };
    assert_eq!(
        get_llm_connection(&mut trial, NOW, answers),
        Err(Error::StoreError("locked".to_string()))
    );
}

#[test]
fn unreadable_custom_address_is_a_store_error() {
    let mut trial = started(31);
    let answers = LlmAnswers {
        custom_enabled: Ok(true),
        custom_api_base: Err(Error::StoreError("base".to_string())),
        custom_api_key: Err(Error::StoreError("key".to_string())),
        ..nothing_configured()
    };
    assert_eq!(
        get_llm_connection(&mut trial, NOW, answers),
        Err(Error::StoreError("base".to_string()))
    );
}

#[test]
fn unreadable_custom_key_is_a_store_error() {
    let mut trial = started(31);
    let answers = LlmAnswers {
        custom_enabled: Ok(true),
        custom_api_base: Ok(Some("http://x".to_string())),
        custom_api_key: Err(Error::StoreError("key".to_string())),
        ..nothing_configured()
    };
    assert_eq!(
        get_llm_connection(&mut trial, NOW, answers),
        Err(Error::StoreError("key".to_string()))
    );
}

#[test]
fn running_local_server_is_reused() {
    let mut trial = started(31);
    let answers = LlmAnswers {
        local: LocalAnswers {
            server: LocalServerStatus::Running("http://127.0.0.1:1234".to_string()),
            server_start: Err(Error::StartupError("must not be asked".to_string())),
        },
        ..nothing_configured()
    };
    assert_eq!(
        get_llm_connection(&mut trial, NOW, answers),
        Ok(ConnectionLLM::HyprLocal(Connection {
            api_base: "http://127.0.0.1:1234".to_string(),
            api_key: None,
        }))
    );
}

#[test]
fn stopped_local_server_is_started() {
    let mut trial = started(31);
    assert_eq!(
        get_llm_connection(&mut trial, NOW, nothing_configured()),
        Ok(ConnectionLLM::HyprLocal(Connection {
            api_base: "http://127.0.0.1:4321".to_string(),
            api_key: None,
        }))
    );
}

#[test]
fn failed_start_is_fatal() {
    let mut trial = started(31);
    let answers = LlmAnswers {
        local: LocalAnswers {
            server: LocalServerStatus::Stopped,
            server_start: Err(Error::StartupError("no model file".to_string())),
        },
        ..nothing_configured()
    };
    assert_eq!(
        get_llm_connection(&mut trial, NOW, answers),
        Err(Error::StartupError("no model file".to_string()))
    );
}

#[test]
fn resolver_asks_in_tier_order() {
    let mut trial = started(1);
    let mut resolver = LlmResolver::begin(&mut trial, NOW);
    assert_eq!(resolver.pending(), Some(LlmRequest::LoginStatus));
    resolver = resolver.advance(LlmReply::LoginStatus(None));
    assert_eq!(resolver.pending(), Some(LlmRequest::TrialToken));
    resolver = resolver.advance(LlmReply::TrialToken(None));
    assert_eq!(resolver.pending(), Some(LlmRequest::CustomEnabled));
    resolver = resolver.advance(LlmReply::CustomEnabled(Ok(true)));
    assert_eq!(resolver.pending(), Some(LlmRequest::CustomApiBase));
    resolver = resolver.advance(LlmReply::CustomApiBase(Ok(Some("http://x".to_string()))));
    assert_eq!(resolver.pending(), Some(LlmRequest::CustomApiKey));
    resolver = resolver.advance(LlmReply::CustomApiKey(Ok(Some("k".to_string()))));
    assert_eq!(resolver.pending(), None);
    assert_eq!(
        resolver.outcome(),
        Some(Ok(ConnectionLLM::Custom(Connection {
            api_base: "http://x".to_string(),
            api_key: Some("k".to_string()),
        })))
    );
}

#[test]
fn resolver_skips_closed_trial() {
    let mut trial = started(31);
    let mut resolver = LlmResolver::begin(&mut trial, NOW);
    assert_eq!(resolver, LlmResolver::AwaitingLoginStatus { trial_open: false });
    resolver = resolver.advance(LlmReply::LoginStatus(None));
    assert_eq!(resolver.pending(), Some(LlmRequest::CustomEnabled));
}

#[test]
fn resolver_does_not_start_a_running_server() {
    let mut resolver = LlmResolver::begin_local();
    assert_eq!(resolver.pending(), Some(LlmRequest::LocalServer(LocalRequest::Status)));
    resolver = resolver.advance(LlmReply::LocalServer(LocalReply::Status(
        LocalServerStatus::Running("http://127.0.0.1:1234".to_string()),
    )));
    assert_eq!(resolver.pending(), None);
    assert_eq!(
        resolver.outcome(),
        Some(Ok(ConnectionLLM::HyprLocal(Connection {
            api_base: "http://127.0.0.1:1234".to_string(),
            api_key: None,
        })))
    );
}

#[test]
fn resolver_starts_a_stopped_server() {
    let mut resolver = LlmResolver::begin_local();
    resolver = resolver.advance(LlmReply::LocalServer(LocalReply::Status(LocalServerStatus::Stopped)));
    assert_eq!(resolver.pending(), Some(LlmRequest::LocalServer(LocalRequest::Start)));
    resolver = resolver
        .advance(LlmReply::LocalServer(LocalReply::Started(Err(Error::StartupError("x".to_string())))));
    assert_eq!(resolver.outcome(), Some(Err(Error::StartupError("x".to_string()))));
}

#[test]
fn resolver_ignores_a_reply_to_another_request() {
    let mut trial = started(1);
    let resolver = LlmResolver::begin(&mut trial, NOW);
    let same = resolver.clone().advance(LlmReply::CustomEnabled(Ok(true)));
    assert_eq!(same, resolver);
    let same = resolver.clone().advance(LlmReply::TrialToken(Some("F".to_string())));
    assert_eq!(same, resolver);
    assert_eq!(same.outcome(), None);
}

#[test]
fn finished_resolver_stays_finished() {
    let done = LlmResolver::Failed(Error::StoreError("x".to_string()));
    assert_eq!(done.clone().advance(LlmReply::LoginStatus(None)), done);
    assert_eq!(done.pending(), None);
}

#[test]
fn local_resolver_steps() {
    let resolver = LocalResolver::begin();
    assert_eq!(resolver.pending(), Some(LocalRequest::Status));
    let ignored = resolver.clone().advance(LocalReply::Started(Ok("http://a".to_string())));
    assert_eq!(ignored, LocalResolver::AwaitingStatus);
    let waiting = resolver.advance(LocalReply::Status(LocalServerStatus::Stopped));
    assert_eq!(waiting.pending(), Some(LocalRequest::Start));
    assert_eq!(waiting.clone().outcome(), None);
    let ready = waiting.advance(LocalReply::Started(Ok("http://a".to_string())));
    assert_eq!(ready.pending(), None);
    assert_eq!(
        ready.outcome(),
        Some(Ok(Connection { api_base: "http://a".to_string(), api_key: None }))
    );
}

#[test]
fn resolve_local_prefers_the_running_server() {
    let answers = LocalAnswers {
        server: LocalServerStatus::Running("http://running".to_string()),
        server_start: Ok("http://started".to_string()),
    };
    assert_eq!(
        resolve_local(answers),
        Ok(Connection { api_base: "http://running".to_string(), api_key: None })
    );
}

#[test]
fn local_llm_connection_has_no_key() {
    assert_eq!(
        get_local_llm_connection(stopped_server()),
        Ok(ConnectionLLM::HyprLocal(Connection {
            api_base: "http://127.0.0.1:4321".to_string(),
            api_key: None,
        }))
    );
}

#[test]
fn stt_reuses_running_server() {
    let answers = LocalAnswers {
        server: LocalServerStatus::Running("http://127.0.0.1:1234".to_string()),
        server_start: Err(Error::StartupError("must not be asked".to_string())),
    };
    assert_eq!(
        get_stt_connection(answers),
        Ok(ConnectionSTT::HyprLocal(Connection {
            api_base: "http://127.0.0.1:1234".to_string(),
            api_key: None,
        }))
    );
}

#[test]
fn stt_starts_stopped_server() {
    assert_eq!(
        get_stt_connection(stopped_server()),
        Ok(ConnectionSTT::HyprLocal(Connection {
            api_base: "http://127.0.0.1:4321".to_string(),
            api_key: None,
        }))
    );
}

#[test]
fn stt_start_failure_is_fatal() {
    let answers = LocalAnswers {
        server: LocalServerStatus::Stopped,
        server_start: Err(Error::StartupError("port taken".to_string())),
    };
    assert_eq!(get_stt_connection(answers), Err(Error::StartupError("port taken".to_string())));
}

#[test]
fn connection_of_a_backend() {
    let backend = hosted("T");
    assert_eq!(backend.as_ref().api_base, "https://ai.gitee.com/v1");
    assert_eq!(backend.as_ref().api_key.as_deref(), Some("T"));
    let stt = ConnectionSTT::HyprLocal(Connection::keyless("http://l".to_string()));
    assert_eq!(stt.as_ref().api_base, "http://l");
    assert_eq!(Connection::hosted("k".to_string()).duplicate(), Connection::hosted("k".to_string()));
}

#[test]
fn error_message_and_copy() {
    let error = Error::ConfigurationError("bad".to_string());
    assert_eq!(error.message(), "bad");
    assert_eq!(error.duplicate(), error);
    assert_eq!(Error::UnknownError("u".to_string()).message(), "u");
    assert_eq!(Error::NetworkError("n".to_string()).duplicate(), Error::NetworkError("n".to_string()));
}

#[test]
fn remaining_days_through_the_connector() {
    assert_eq!(get_free_trial_days_remaining(&TrialState::not_started(), NOW), None);
    assert_eq!(get_free_trial_days_remaining(&started(10), NOW), Some(20));
}

#[test]
fn user_is_told_what_failed() {
    assert_eq!(
        Error::StartupError("port taken".to_string()).user_message(),
        "local engine failed to start: port taken"
    );
    assert_eq!(
        Error::ConfigurationError(MISSING_CUSTOM_API_BASE.to_string()).user_message(),
        "no backend available: the custom endpoint is enabled but has no api_base"
    );
    assert_eq!(Error::StoreError("s".to_string()).user_message(), "no backend available: s");
    assert_eq!(Error::NetworkError("n".to_string()).user_message(), "no backend available: n");
    assert_eq!(Error::UnknownError(String::new()).user_message(), "no backend available: ");
}
