use base64::Engine;
use codex_account_switcher::auth::auth_status_from_text;
use codex_account_switcher::auth::current_account_id_in;
use codex_account_switcher::auth::decode_jwt_payload;
use codex_account_switcher::auth::extract_auth;
use codex_account_switcher::auth::missing_auth_status;
use codex_account_switcher::auth::parse_auth_file;
use codex_account_switcher::json::JsonValue;

fn jwt_with_claims(claims: &str) -> String {
    let payload = base64::engine::general_purpose::URL_SAFE_NO_PAD.encode(claims.as_bytes());
    format!("eyJhbGciOiJub25lIn0.{payload}.signature")
}

fn doc(text: &str) -> JsonValue {
    parse_auth_file(text).expect("test document is JSON")
}

fn claims_text() -> &'static str {
    r#"{"email":"dev@example.com","https://api.openai.com/auth":{"chatgpt_account_id":"acct-from-claims","chatgpt_plan_type":"plus"}}"#
}

fn auth_text(mode: &str, account_line: &str, id_token: &str) -> String {
    format!(
        r#"{{"auth_mode":"{mode}","last_refresh":"2025-01-02T03:04:05Z","tokens":{{"access_token":"at-1",{account_line}"id_token":"{id_token}"}}}}"#
    )
}

#[test]
fn jwt_payload_is_decoded_without_padding() {
    let token = jwt_with_claims(r#"{"a":1}"#);
    let claims = decode_jwt_payload(&token).unwrap();
    assert_eq!(
        claims,
        JsonValue::Object(vec![("a".to_string(), JsonValue::Number("1".to_string()))])
    );
}

#[test]
fn jwt_payload_with_padding_is_decoded_by_the_padded_engine() {
    let payload = base64::engine::general_purpose::URL_SAFE.encode(br#"{"b":true}"#);
    assert!(payload.ends_with('='));
    let token = format!("h.{payload}.s");
    let claims = decode_jwt_payload(&token).unwrap();
    assert_eq!(claims, JsonValue::Object(vec![("b".to_string(), JsonValue::Bool(true))]));
}

#[test]
fn jwt_without_dot_is_rejected() {
    assert_eq!(decode_jwt_payload("nodots"), Err("id_token 格式无效".to_string()));
}

#[test]
fn jwt_with_bad_base64_reports_decode_error() {
    let err = decode_jwt_payload("h.!!!!.s").unwrap_err();
    assert!(err.starts_with("解码 id_token 失败: "), "{err}");
}

#[test]
fn jwt_with_non_json_payload_reports_parse_error() {
    let payload = base64::engine::general_purpose::URL_SAFE_NO_PAD.encode(b"not json");
    let err = decode_jwt_payload(&format!("h.{payload}.s")).unwrap_err();
    assert!(err.starts_with("解析 id_token payload 失败: "), "{err}");
}

#[test]
fn extract_auth_reads_claims() {
    let token = jwt_with_claims(claims_text());
    let auth = doc(&auth_text("chatgpt", "", &token));
    let e = extract_auth(&auth).unwrap();
    assert_eq!(e.account_id, "acct-from-claims");
    assert_eq!(e.access_token, "at-1");
    assert_eq!(e.email.as_deref(), Some("dev@example.com"));
    assert_eq!(e.plan_type.as_deref(), Some("plus"));
}

#[test]
fn extract_auth_prefers_tokens_account_id() {
    let token = jwt_with_claims(claims_text());
    let auth = doc(&auth_text("ChatGPT_Auth_Tokens", r#""account_id":"acct-direct","#, &token));
    let e = extract_auth(&auth).unwrap();
    assert_eq!(e.account_id, "acct-direct");
    assert_eq!(e.plan_type.as_deref(), Some("plus"));
}

#[test]
fn extract_auth_with_undecodable_token_keeps_direct_account() {
    let auth = doc(&auth_text("chatgpt", r#""account_id":"acct-direct","#, "garbage"));
    let e = extract_auth(&auth).unwrap();
    assert_eq!(e.account_id, "acct-direct");
    assert_eq!(e.email, None);
    assert_eq!(e.plan_type, None);
}

#[test]
fn extract_auth_rejects_api_key_mode() {
    let auth = doc(r#"{"auth_mode":"apikey","tokens":{}}"#);
    assert_eq!(
        extract_auth(&auth).unwrap_err(),
        "当前账号不是 ChatGPT 登录模式，无法读取 Codex 5h/1week 用量。请先执行 codex login。"
    );
    let no_mode = doc(r#"{"tokens":{}}"#);
    assert!(extract_auth(&no_mode).is_err());
}

#[test]
fn extract_auth_reports_each_missing_field() {
    assert_eq!(
        extract_auth(&doc(r#"{"auth_mode":"chatgpt"}"#)).unwrap_err(),
        "auth.json 缺少 tokens 字段"
    );
    assert_eq!(
        extract_auth(&doc(r#"{"auth_mode":"chatgpt","tokens":"x"}"#)).unwrap_err(),
        "auth.json 缺少 tokens 字段"
    );
    assert_eq!(
        extract_auth(&doc(r#"{"auth_mode":"chatgpt","tokens":{"id_token":"a.b.c"}}"#)).unwrap_err(),
        "auth.json 缺少 access_token"
    );
    assert_eq!(
        extract_auth(&doc(r#"{"auth_mode":"chatgpt","tokens":{"access_token":"t"}}"#)).unwrap_err(),
        "auth.json 缺少 id_token"
    );
    assert_eq!(
        extract_auth(&doc(r#"{"auth_mode":"chatgpt","tokens":{"access_token":"t","id_token":"x"}}"#))
            .unwrap_err(),
        "无法从 auth.json 识别 chatgpt_account_id"
    );
}

#[test]
fn current_account_id_is_read_from_tokens_only() {
    let token = jwt_with_claims(claims_text());
    assert_eq!(current_account_id_in(&doc(&auth_text("chatgpt", "", &token))), None);
    assert_eq!(
        current_account_id_in(&doc(&auth_text("chatgpt", r#""account_id":"acct-9","#, &token))),
        Some("acct-9".to_string())
    );
}

#[test]
fn parse_auth_file_prefixes_parser_error() {
    let err = parse_auth_file("{not json").unwrap_err();
    assert!(err.starts_with("当前 Codex 认证文件不是合法 JSON: "), "{err}");
    assert!(err.len() > "当前 Codex 认证文件不是合法 JSON: ".len());
}

#[test]
fn status_of_a_chatgpt_login() {
    let token = jwt_with_claims(claims_text());
    let st = auth_status_from_text(&auth_text("chatgpt", "", &token), Some(1_700_000_000)).unwrap();
    assert!(st.available);
    assert_eq!(st.account_id.as_deref(), Some("acct-from-claims"));
    assert_eq!(st.email.as_deref(), Some("dev@example.com"));
    assert_eq!(st.plan_type.as_deref(), Some("plus"));
    assert_eq!(st.auth_mode.as_deref(), Some("chatgpt"));
    assert_eq!(st.last_refresh.as_deref(), Some("2025-01-02T03:04:05Z"));
    assert_eq!(st.file_modified_at, Some(1_700_000_000));
    assert_eq!(
        st.fingerprint.as_deref(),
        Some("acct-from-claims|2025-01-02T03:04:05Z|1700000000|chatgpt")
    );
}

#[test]
fn status_of_an_api_key_login_has_empty_fingerprint_parts() {
    let st = auth_status_from_text(r#"{"auth_mode":"apikey"}"#, None).unwrap();
    assert!(st.available);
    assert_eq!(st.account_id, None);
    assert_eq!(st.fingerprint.as_deref(), Some("||0|apikey"));
}

#[test]
fn status_of_invalid_json_is_an_error() {
    let err = auth_status_from_text("[", None).unwrap_err();
    assert!(err.starts_with("auth.json 不是合法 JSON: "), "{err}");
}

#[test]
fn status_without_file() {
    let st = missing_auth_status();
    assert!(!st.available);
    assert_eq!(st.fingerprint, None);
    assert_eq!(st.account_id, None);
}

#[test]
fn imported_login_is_listed_as_current() {
    use_import_flow();
}

fn use_import_flow() {
    let token = jwt_with_claims(claims_text());
    let auth = doc(&auth_text("chatgpt", r#""account_id":"acct-direct","#, &token));
    let e = extract_auth(&auth).unwrap();
    let current = current_account_id_in(&auth);
    assert_eq!(current.as_deref(), Some(e.account_id.as_str()));
    let mut store = codex_account_switcher::accounts::AccountsStore::empty();
    let summary = codex_account_switcher::accounts::import_account_at(
        &mut store,
        auth,
        e,
        None,
        None,
        current.as_deref(),
        1,
        "id".to_string(),
    );
    assert!(summary.is_current);
    assert_eq!(summary.label, "dev@example.com");
}
