use block_insight_client::app_state::GlobalService;
use block_insight_client::auth_state::{
    execute_register, AuthInfo, AuthServiceCommand, AuthState, IssuedToken, RegisterParams,
    UserRole, AUTH_INFO_KEY,
};
use block_insight_client::client_config::ClientConfig;
use block_insight_client::service_provider::Service;
use block_insight_client::text::{contains_any_text, contains_text};
use block_insight_client::time::{now_timestamp_ms, timestamp_from};
use block_insight_client::transaction_service::ApiError;
use block_insight_client::user_service::USER_INFO_KEY;

fn strings(items: &[&str]) -> Vec<String> {
    items.iter().map(|s| s.to_string()).collect()
}

#[test]
fn the_clock_reads_a_time_after_2020() {
    let first = now_timestamp_ms();
    assert!(first > 1_577_836_800_000);
    assert!(now_timestamp_ms() >= first - 1000);
}

#[test]
fn timestamps_from_clock_readings() {
    assert_eq!(timestamp_from(Ok(0)), 0);
    assert_eq!(timestamp_from(Ok(1_700_000_000_123)), 1_700_000_000_123);
    assert_eq!(timestamp_from(Ok(i64::MAX as u128)), i64::MAX);
    assert_eq!(timestamp_from(Ok(i64::MAX as u128 + 1)), i64::MIN);
    assert_eq!(timestamp_from(Ok(1u128 << 64)), 0);
    assert_eq!(timestamp_from(Err(0)), 0);
    assert_eq!(timestamp_from(Err(1500)), -1500);
    assert_eq!(timestamp_from(Err(i64::MAX as u128)), -i64::MAX);
    assert_eq!(timestamp_from(Err(i64::MAX as u128 + 1)), i64::MIN);
    assert_eq!(timestamp_from(Err(u128::MAX)), i64::MIN);
}

#[test]
fn the_client_is_configured_for_the_local_backend() {
    let config = ClientConfig::new();
    assert_eq!(config, ClientConfig {});
    assert_eq!(config.get_base_url(), "http://127.0.0.1:8090/api");
}

#[test]
fn the_application_is_engaged_and_released() {
    let mut service = GlobalService::instance();
    assert_eq!(service.doing, None);
    service.engaged("loading".to_string());
    assert_eq!(service.doing, Some("loading".to_string()));
    service.unengaged();
    assert_eq!(service.doing, None);
}

#[test]
fn a_token_is_valid_strictly_before_its_end() {
    let info = AuthInfo { token: "t".to_string(), until_ms: 1000 };
    let role = Some(UserRole { name: "admin".to_string() });
    assert!(info.is_authenticated_at(&None, 999));
    assert!(!info.is_authenticated_at(&None, 1000));
    assert!(!info.is_authenticated_at(&role, 1001));
    assert!(!info.is_authenticated(&None));
    assert!(AuthInfo { token: "t".to_string(), until_ms: i64::MAX }.is_authenticated(&role));
    assert_eq!(AuthInfo::key(), "auth_info");
    assert_eq!(AUTH_INFO_KEY, "auth_info");
    assert_eq!(USER_INFO_KEY, "user_info");
}

#[test]
fn nobody_is_signed_in_without_credentials() {
    let state = AuthState::instance();
    assert_eq!(state.inner(), &None);
    assert!(!state.is_authenticated(&None));
    assert!(!state.is_authenticated_at(&None, 0));
    let state = AuthState::start(Some(AuthInfo { token: "t".to_string(), until_ms: 50 }));
    assert!(state.is_authenticated_at(&None, 49));
    assert!(!state.is_authenticated_at(&None, 50));
    assert!(!state.is_authenticated(&None));
}

#[test]
fn registration_replaces_the_credentials_on_success_only() {
    let mut app = GlobalService::instance();
    let mut state = AuthState::instance();
    let cmd = state.register("a@b.c".to_string(), "pw".to_string());
    assert_eq!(
        cmd,
        AuthServiceCommand::Register { email: "a@b.c".to_string(), password: "pw".to_string() }
    );
    let params = AuthState::begin(cmd, &mut app);
    assert_eq!(params, RegisterParams { email: "a@b.c".to_string(), password: "pw".to_string() });
    assert_eq!(app.doing, Some("正在注册".to_string()));
    let issued = IssuedToken { token: "tok".to_string(), expires_at_ms: 77 };
    let registered = execute_register(Ok(Some(issued)));
    let info = AuthInfo { token: "tok".to_string(), until_ms: 77 };
    assert_eq!(registered, Ok(Some(info.clone())));
    assert_eq!(state.finish(registered, &mut app), Some(info.clone()));
    assert_eq!(state.inner(), &Some(info.clone()));
    assert_eq!(app.doing, None);

    app.engaged("正在注册".to_string());
    let failure = ApiError { code: 1, message: "taken".to_string() };
    assert_eq!(execute_register(Err(failure.clone())), Err(failure.clone()));
    assert_eq!(state.finish(Err(failure), &mut app), None);
    assert_eq!(state.inner(), &Some(info));
    assert_eq!(app.doing, None);

    assert_eq!(execute_register(Ok(None)), Ok(None));
    assert_eq!(state.finish(Ok(None), &mut app), None);
    assert_eq!(state.inner(), &None);
    state.clear();
    assert_eq!(state.inner(), &None);
}

#[test]
fn issued_tokens_become_credentials() {
    let info = AuthInfo::from_issued(IssuedToken { token: "x".to_string(), expires_at_ms: -5 });
    assert_eq!(info, AuthInfo { token: "x".to_string(), until_ms: -5 });
}

#[test]
fn strings_are_found_by_what_they_read() {
    let list = strings(&["a", "bc", ""]);
    assert!(contains_text(&list, &"bc".to_string()));
    assert!(contains_text(&list, &"".to_string()));
    assert!(!contains_text(&list, &"b".to_string()));
    assert!(!contains_text(&vec![], &"a".to_string()));
    assert!(contains_any_text(&list, &strings(&["x", "a"])));
    assert!(!contains_any_text(&list, &strings(&["x", "y"])));
    assert!(!contains_any_text(&list, &vec![]));
}

#[test]
fn a_token_that_ended_before_all_time_is_never_valid() {
    let info = AuthInfo { token: "t".to_string(), until_ms: i64::MIN };
    assert!(!info.is_authenticated(&None));
    assert!(!info.is_authenticated_at(&None, i64::MIN));
    let state = AuthState::start(Some(info));
    assert!(!state.is_authenticated(&None));
}
