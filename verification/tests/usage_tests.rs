use codex_account_switcher::usage::bearer_authorization;
use codex_account_switcher::usage::chatgpt_base_url_from_config;
use codex_account_switcher::usage::map_usage_payload;
use codex_account_switcher::usage::pick_nearest_window;
use codex_account_switcher::usage::resolve_usage_url;
use codex_account_switcher::usage::to_usage_window;
use codex_account_switcher::usage::usage_snapshot_at;
use codex_account_switcher::usage::usage_status_error;
use codex_account_switcher::usage::AdditionalRateLimitDetails;
use codex_account_switcher::usage::CreditDetails;
use codex_account_switcher::usage::RateLimitDetails;
use codex_account_switcher::usage::UsageApiResponse;
use codex_account_switcher::usage::UsageWindow;
use codex_account_switcher::usage::UsageWindowRaw;

fn window(percent: f64, seconds: i64, reset_at: i64) -> UsageWindowRaw {
    UsageWindowRaw { used_percent_bits: percent.to_bits(), limit_window_seconds: seconds, reset_at }
}

#[test]
fn default_base_url_uses_wham_path() {
    assert_eq!(resolve_usage_url(None), "https://chatgpt.com/backend-api/wham/usage");
}

#[test]
fn configured_base_urls() {
    assert_eq!(
        resolve_usage_url(Some("https://proxy.example/backend-api/".to_string())),
        "https://proxy.example/backend-api/wham/usage"
    );
    assert_eq!(
        resolve_usage_url(Some("https://proxy.example///".to_string())),
        "https://proxy.example/api/codex/usage"
    );
}

#[test]
fn trailing_slash_does_not_change_usage_url() {
    let a = resolve_usage_url(Some("http://h/x".to_string()));
    let b = resolve_usage_url(Some("http://h/x/".to_string()));
    assert_eq!(a, b);
    assert!(a.ends_with("/api/codex/usage"));
}

#[test]
fn config_value_is_trimmed_and_unquoted() {
    let cfg = "model = \"o3\"\n  chatgpt_base_url = \"https://a.example/backend-api\"  \nother = 1\n";
    assert_eq!(chatgpt_base_url_from_config(cfg), Some("https://a.example/backend-api".to_string()));
    assert_eq!(chatgpt_base_url_from_config("chatgpt_base_url='http://b'\r\n"), Some("http://b".to_string()));
}

#[test]
fn config_without_the_key() {
    assert_eq!(chatgpt_base_url_from_config("model = \"o3\"\n"), None);
    assert_eq!(chatgpt_base_url_from_config(""), None);
}

#[test]
fn config_empty_value_is_skipped_for_a_later_line() {
    let cfg = "chatgpt_base_url = \"\"\nchatgpt_base_url = https://later\n";
    assert_eq!(chatgpt_base_url_from_config(cfg), Some("https://later".to_string()));
}

#[test]
fn config_key_line_without_equals_ends_the_search() {
    let cfg = "chatgpt_base_url\nchatgpt_base_url = https://never\n";
    assert_eq!(chatgpt_base_url_from_config(cfg), None);
}

#[test]
fn nearest_window_is_the_first_of_equals() {
    let ws = [window(1.0, 17000, 1), window(2.0, 19000, 2), window(3.0, 604800, 3)];
    assert_eq!(pick_nearest_window(&ws, 18000), Some(ws[0]));
    assert_eq!(pick_nearest_window(&ws, 604800), Some(ws[2]));
    assert_eq!(pick_nearest_window(&[], 18000), None);
}

#[test]
fn usage_window_conversion() {
    let w = to_usage_window(window(12.5, 18000, 99));
    assert_eq!(
        w,
        UsageWindow { used_percent_bits: 12.5f64.to_bits(), window_seconds: 18000, reset_at: Some(99) }
    );
}

fn report() -> UsageApiResponse {
    UsageApiResponse {
        plan_type: Some("pro".to_string()),
        rate_limit: Some(RateLimitDetails {
            primary_window: Some(window(40.0, 18000, 1000)),
            secondary_window: Some(window(10.0, 604800, 2000)),
        }),
        additional_rate_limits: Some(vec![AdditionalRateLimitDetails {
            rate_limit: Some(RateLimitDetails {
                primary_window: Some(window(99.0, 3600, 3000)),
                secondary_window: None,
            }),
        }]),
        credits: Some(CreditDetails { has_credits: true, unlimited: false, balance: Some("5".to_string()) }),
    }
}

#[test]
fn snapshot_picks_five_hour_and_one_week_windows() {
    let s = usage_snapshot_at(report(), 123);
    assert_eq!(s.fetched_at, 123);
    assert_eq!(s.plan_type.as_deref(), Some("pro"));
    let five = s.five_hour.unwrap();
    assert_eq!(f64::from_bits(five.used_percent_bits), 40.0);
    assert_eq!(five.window_seconds, 18000);
    assert_eq!(five.reset_at, Some(1000));
    let week = s.one_week.unwrap();
    assert_eq!(f64::from_bits(week.used_percent_bits), 10.0);
    let credits = s.credits.unwrap();
    assert!(credits.has_credits);
    assert!(!credits.unlimited);
    assert_eq!(credits.balance.as_deref(), Some("5"));
}

#[test]
fn snapshot_from_additional_limits_only() {
    let payload = UsageApiResponse {
        plan_type: None,
        rate_limit: None,
        additional_rate_limits: Some(vec![
            AdditionalRateLimitDetails { rate_limit: None },
            AdditionalRateLimitDetails {
                rate_limit: Some(RateLimitDetails {
                    primary_window: None,
                    secondary_window: Some(window(7.0, 500000, 5)),
                }),
            },
        ]),
        credits: None,
    };
    let s = usage_snapshot_at(payload, 0);
    assert_eq!(s.five_hour.unwrap().window_seconds, 500000);
    assert_eq!(s.one_week.unwrap().window_seconds, 500000);
    assert!(s.credits.is_none());
}

#[test]
fn empty_report_has_no_windows() {
    let payload = UsageApiResponse { plan_type: None, rate_limit: None, additional_rate_limits: None, credits: None };
    let s = usage_snapshot_at(payload, 5);
    assert!(s.five_hour.is_none() && s.one_week.is_none());
}

#[test]
fn mapped_payload_is_stamped_with_the_clock() {
    let s = map_usage_payload(report());
    assert!(s.fetched_at > 1_600_000_000);
    assert_eq!(s.five_hour.unwrap().window_seconds, 18000);
}

#[test]
fn status_error_message() {
    assert_eq!(
        usage_status_error("401 Unauthorized", "denied"),
        "用量接口返回错误 (401 Unauthorized): denied"
    );
    let body = "y".repeat(241);
    let msg = usage_status_error("500", &body);
    assert_eq!(msg, format!("用量接口返回错误 (500): {}...", "y".repeat(240)));
}

#[test]
fn bearer_header() {
    assert_eq!(bearer_authorization("tok"), "Bearer tok");
}
