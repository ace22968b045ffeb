//! The Codex credentials file (`auth.json`) and the identity token inside it.
use base64::Engine;
use vstd::prelude::*;
use vstd::string::*;
use vstd::utf8::*;

use crate::json::get_str;
use crate::json::is_object;
use crate::json::json_get;
use crate::json::parse_json_bytes;
use crate::json::parse_json_text;
use crate::json::serde_json_from_slice;
use crate::json::serde_json_from_str;
use crate::json::str_member;
use crate::json::JsonValue;
use crate::text::eq_ignore_ascii_case;
use crate::text::eq_ignoring_ascii_case;
use crate::text::i64_to_decimal;
use crate::text::int_decimal;
use crate::text::opt_text;
use crate::text::second_piece;
use crate::text::second_split_piece;

verus! {

/// What `base64::engine::general_purpose::URL_SAFE_NO_PAD.decode` makes of a
/// text: the decoded bytes, or the text of the `DecodeError`.
pub uninterp spec fn base64_url_safe_no_pad_decode(input: Seq<char>) -> Result<Seq<u8>, Seq<char>>;

/// What `base64::engine::general_purpose::URL_SAFE.decode` makes of a text:
/// the decoded bytes, or the text of the `DecodeError`.
pub uninterp spec fn base64_url_safe_decode(input: Seq<char>) -> Result<Seq<u8>, Seq<char>>;

/// Decodes with the URL-safe alphabet and no padding
/// (`URL_SAFE_NO_PAD.decode`); the outcome is the one
/// `base64_url_safe_no_pad_decode` names.
#[verifier::external_body]
fn decode_url_safe_no_pad(input: &str) -> (res: Result<Vec<u8>, String>)
    ensures
        match res {
            Ok(b) => base64_url_safe_no_pad_decode(input@) == Ok::<Seq<u8>, Seq<char>>(b@),
            Err(e) => base64_url_safe_no_pad_decode(input@) == Err::<Seq<u8>, Seq<char>>(e@),
        },
{
    base64::engine::general_purpose::URL_SAFE_NO_PAD.decode(input).map_err(|e| e.to_string())
}

/// Decodes with the URL-safe alphabet and canonical padding
/// (`URL_SAFE.decode`); the outcome is the one `base64_url_safe_decode` names.
#[verifier::external_body]
fn decode_url_safe(input: &str) -> (res: Result<Vec<u8>, String>)
    ensures
        match res {
            Ok(b) => base64_url_safe_decode(input@) == Ok::<Seq<u8>, Seq<char>>(b@),
            Err(e) => base64_url_safe_decode(input@) == Err::<Seq<u8>, Seq<char>>(e@),
        },
{
    base64::engine::general_purpose::URL_SAFE.decode(input).map_err(|e| e.to_string())
}

/// `p` followed by as many `=` as make its UTF-8 length a multiple of four.
pub open spec fn padded_to_quad(p: Seq<char>) -> Seq<char> {
    let r = (encode_utf8(p).len() as usize) % 4;
    if r == 0 {
        p
    } else {
        p + Seq::new((4 - r) as nat, |i: int| '=')
    }
}

pub open spec fn msg_bad_token() -> Seq<char> {
    "id_token 格式无效"@
}

pub open spec fn msg_token_decode() -> Seq<char> {
    "解码 id_token 失败: "@
}

pub open spec fn msg_token_payload() -> Seq<char> {
    "解析 id_token payload 失败: "@
}

/// The claims of a JWT: its second `.`-separated piece, base64url-decoded
/// (without padding first, then padded), parsed as JSON.
pub open spec fn jwt_claims(token: Seq<char>) -> Result<JsonValue, Seq<char>> {
    match second_piece(token, '.') {
        None => Err(msg_bad_token()),
        Some(p) => {
            let decoded = match base64_url_safe_no_pad_decode(p) {
                Ok(b) => Ok(b),
                Err(_) => base64_url_safe_decode(padded_to_quad(p)),
            };
            match decoded {
                Err(e) => Err(msg_token_decode() + e),
                Ok(b) => match serde_json_from_slice(b) {
                    Ok(v) => Ok(v),
                    Err(e) => Err(msg_token_payload() + e),
                },
            }
        },
    }
}

/// `p` padded with `=` to a multiple of four bytes.
fn pad_to_quad(p: &str) -> (res: String)
    ensures
        res@ == padded_to_quad(p@),
{
    let r = p.len() % 4;
    let mut out = String::from_str(p);
    if r != 0 {
        let k = 4 - r;
        let mut i: usize = 0;
        proof {
            reveal_strlit("=");
        }
        while i < k
            invariant
                k <= 4,
                0 <= i <= k,
                out@ =~= p@ + Seq::new(i as nat, |j: int| '='),
                "="@ == seq!['='],
            decreases k - i,
        {
            out = out.concat("=");
            i = i + 1;
        }
    }
    out
}

/// Decodes the payload (claims) of a JWT.
pub fn decode_jwt_payload(token: &str) -> (res: Result<JsonValue, String>)
    ensures
        match res {
            Ok(v) => jwt_claims(token@) == Ok::<JsonValue, Seq<char>>(v),
            Err(e) => jwt_claims(token@) == Err::<JsonValue, Seq<char>>(e@),
        },
{
    let payload = match second_split_piece(token, '.') {
        Some(p) => p,
        None => return Err(String::from_str("id_token 格式无效")),
    };
    let decoded = match decode_url_safe_no_pad(payload) {
        Ok(b) => b,
        Err(_) => {
            let padded = pad_to_quad(payload);
            match decode_url_safe(padded.as_str()) {
                Ok(b) => b,
                Err(e) => return Err(String::from_str("解码 id_token 失败: ").concat(e.as_str())),
            }
        },
    };
    match parse_json_bytes(decoded.as_slice()) {
        Ok(v) => Ok(v),
        Err(e) => Err(String::from_str("解析 id_token payload 失败: ").concat(e.as_str())),
    }
}

/// What a login yields for talking to the usage service.
#[derive(Debug, Clone, PartialEq)]
pub struct ExtractedAuth {
    pub account_id: String,
    pub access_token: String,
    pub email: Option<String>,
    pub plan_type: Option<String>,
}

/// The text of an `ExtractedAuth`.
pub struct AuthFields {
    pub account_id: Seq<char>,
    pub access_token: Seq<char>,
    pub email: Option<Seq<char>>,
    pub plan_type: Option<Seq<char>>,
}

impl View for ExtractedAuth {
    type V = AuthFields;

    open spec fn view(&self) -> AuthFields {
        AuthFields {
            account_id: self.account_id@,
            access_token: self.access_token@,
            email: opt_text(self.email),
            plan_type: opt_text(self.plan_type),
        }
    }
}

pub open spec fn msg_not_chatgpt() -> Seq<char> {
    "当前账号不是 ChatGPT 登录模式，无法读取 Codex 5h/1week 用量。请先执行 codex login。"@
}

pub open spec fn msg_no_tokens() -> Seq<char> {
    "auth.json 缺少 tokens 字段"@
}

pub open spec fn msg_no_access_token() -> Seq<char> {
    "auth.json 缺少 access_token"@
}

pub open spec fn msg_no_id_token() -> Seq<char> {
    "auth.json 缺少 id_token"@
}

pub open spec fn msg_no_account_id() -> Seq<char> {
    "无法从 auth.json 识别 chatgpt_account_id"@
}

/// The login modes whose tokens can read ChatGPT usage (ASCII case ignored).
pub open spec fn chatgpt_mode(mode: Seq<char>) -> bool {
    eq_ignoring_ascii_case(mode, "chatgpt"@) || eq_ignoring_ascii_case(mode, "chatgpt_auth_tokens"@)
}

/// The `auth_mode` of a credentials document, empty when absent.
pub open spec fn auth_mode_of(auth: JsonValue) -> Seq<char> {
    match str_member(auth, "auth_mode"@) {
        Some(m) => m,
        None => Seq::empty(),
    }
}

/// `v[key]` read as text, for an optional `v`.
pub open spec fn opt_str_member(v: Option<JsonValue>, key: Seq<char>) -> Option<Seq<char>> {
    match v {
        Some(x) => str_member(x, key),
        None => None,
    }
}

/// The OpenAI auth claim of a token's claims.
pub open spec fn openai_auth_claim(claims: JsonValue) -> Option<JsonValue> {
    json_get(claims, "https://api.openai.com/auth"@)
}

/// The account, token, email and plan a credentials document holds:
/// the login mode must be a ChatGPT one, `tokens` an object with string
/// `access_token` and `id_token`; the account id is `tokens.account_id`, or
/// else the `chatgpt_account_id` claim of the id token; email and plan come
/// from the id token's claims when they decode.
pub open spec fn auth_fields(auth: JsonValue) -> Result<AuthFields, Seq<char>> {
    if !chatgpt_mode(auth_mode_of(auth)) {
        Err(msg_not_chatgpt())
    } else {
        let tokens = json_get(auth, "tokens"@);
        if !(tokens is Some && is_object(tokens->0)) {
            Err(msg_no_tokens())
        } else {
            let t = tokens->0;
            match str_member(t, "access_token"@) {
                None => Err(msg_no_access_token()),
                Some(access) => match str_member(t, "id_token"@) {
                    None => Err(msg_no_id_token()),
                    Some(id_token) => {
                        let claims = jwt_claims(id_token);
                        let from_tokens = str_member(t, "account_id"@);
                        let (account, email, plan) = match claims {
                            Ok(c) => (
                                if from_tokens is Some {
                                    from_tokens
                                } else {
                                    opt_str_member(openai_auth_claim(c), "chatgpt_account_id"@)
                                },
                                str_member(c, "email"@),
                                opt_str_member(openai_auth_claim(c), "chatgpt_plan_type"@),
                            ),
                            Err(_) => (from_tokens, None, None),
                        };
                        match account {
                            None => Err(msg_no_account_id()),
                            Some(a) => Ok(
                                AuthFields {
                                    account_id: a,
                                    access_token: access,
                                    email: email,
                                    plan_type: plan,
                                },
                            ),
                        }
                    },
                },
            }
        }
    }
}

fn owned(s: Option<&str>) -> (res: Option<String>)
    ensures
        match s {
            Some(t) => res is Some && res->0@ == t@,
            None => res is None,
        },
{
    match s {
        Some(t) => Some(String::from_str(t)),
        None => None,
    }
}

fn member_text(v: Option<&JsonValue>, key: &str) -> (res: Option<String>)
    ensures
        opt_text(res) == opt_str_member(
            match v {
                Some(x) => Some(*x),
                None => None,
            },
            key@,
        ),
{
    match v {
        Some(x) => owned(get_str(x, key)),
        None => None,
    }
}

/// Reads the account, access token, email and plan out of a credentials
/// document.
pub fn extract_auth(auth_json: &JsonValue) -> (res: Result<ExtractedAuth, String>)
    ensures
        match res {
            Ok(e) => auth_fields(*auth_json) == Ok::<AuthFields, Seq<char>>(e@),
            Err(m) => auth_fields(*auth_json) == Err::<AuthFields, Seq<char>>(m@),
        },
{
    proof {
        reveal_strlit("");
    }
    let mode = match get_str(auth_json, "auth_mode") {
        Some(m) => m,
        None => "",
    };
    if !(eq_ignore_ascii_case(mode, "chatgpt") || eq_ignore_ascii_case(mode, "chatgpt_auth_tokens")) {
        return Err(
            String::from_str(
                "当前账号不是 ChatGPT 登录模式，无法读取 Codex 5h/1week 用量。请先执行 codex login。",
            ),
        );
    }
    let tokens = match auth_json.get("tokens") {
        Some(t) => t,
        None => return Err(String::from_str("auth.json 缺少 tokens 字段")),
    };
    if !tokens.is_object() {
        return Err(String::from_str("auth.json 缺少 tokens 字段"));
    }
    let access_token = match get_str(tokens, "access_token") {
        Some(a) => String::from_str(a),
        None => return Err(String::from_str("auth.json 缺少 access_token")),
    };
    let id_token = match get_str(tokens, "id_token") {
        Some(i) => i,
        None => return Err(String::from_str("auth.json 缺少 id_token")),
    };
    let mut account_id = owned(get_str(tokens, "account_id"));
    let mut email: Option<String> = None;
    let mut plan_type: Option<String> = None;
    if let Ok(claims) = decode_jwt_payload(id_token) {
        email = owned(get_str(&claims, "email"));
        let auth_claim = claims.get("https://api.openai.com/auth");
        if account_id.is_none() {
            account_id = member_text(auth_claim, "chatgpt_account_id");
        }
        plan_type = member_text(auth_claim, "chatgpt_plan_type");
    }
    match account_id {
        Some(a) => Ok(ExtractedAuth { account_id: a, access_token, email, plan_type }),
        None => Err(String::from_str("无法从 auth.json 识别 chatgpt_account_id")),
    }
}

/// The account id the credentials document names directly
/// (`tokens.account_id`), without decoding the id token.
pub open spec fn direct_account_id(auth: JsonValue) -> Option<Seq<char>> {
    opt_str_member(json_get(auth, "tokens"@), "account_id"@)
}

/// The account the active credentials belong to, as the account list marks
/// it current.
pub fn current_account_id_in(auth_json: &JsonValue) -> (res: Option<String>)
    ensures
        opt_text(res) == direct_account_id(*auth_json),
{
    member_text(auth_json.get("tokens"), "account_id")
}

pub open spec fn msg_auth_file_not_json() -> Seq<char> {
    "当前 Codex 认证文件不是合法 JSON: "@
}

/// Parses the text of the active credentials file.
pub fn parse_auth_file(raw: &str) -> (res: Result<JsonValue, String>)
    ensures
        match serde_json_from_str(raw@) {
            Ok(v) => res == Ok::<JsonValue, String>(v),
            Err(e) => res is Err && res->Err_0@ == msg_auth_file_not_json() + e,
        },
{
    match parse_json_text(raw) {
        Ok(v) => Ok(v),
        Err(e) => Err(String::from_str("当前 Codex 认证文件不是合法 JSON: ").concat(e.as_str())),
    }
}

/// What the app shows of the active login.
#[derive(Debug, Clone, PartialEq)]
pub struct CurrentAuthStatus {
    pub available: bool,
    pub account_id: Option<String>,
    pub email: Option<String>,
    pub plan_type: Option<String>,
    pub auth_mode: Option<String>,
    pub last_refresh: Option<String>,
    pub file_modified_at: Option<i64>,
    pub fingerprint: Option<String>,
}

/// The status when there is no credentials file.
pub fn missing_auth_status() -> (res: CurrentAuthStatus)
    ensures
        !res.available,
        res.account_id is None,
        res.email is None,
        res.plan_type is None,
        res.auth_mode is None,
        res.last_refresh is None,
        res.file_modified_at is None,
        res.fingerprint is None,
{
    CurrentAuthStatus {
        available: false,
        account_id: None,
        email: None,
        plan_type: None,
        auth_mode: None,
        last_refresh: None,
        file_modified_at: None,
        fingerprint: None,
    }
}

pub open spec fn or_empty(o: Option<Seq<char>>) -> Seq<char> {
    match o {
        Some(s) => s,
        None => Seq::empty(),
    }
}

/// `account|last_refresh|modified|mode`, absent parts empty (modified `0`):
/// the app compares it to notice a changed login.
pub open spec fn fingerprint_text(
    account_id: Option<Seq<char>>,
    last_refresh: Option<Seq<char>>,
    modified_at: Option<i64>,
    auth_mode: Option<Seq<char>>,
) -> Seq<char> {
    or_empty(account_id) + "|"@ + or_empty(last_refresh) + "|"@ + int_decimal(
        match modified_at {
            Some(m) => m as int,
            None => 0,
        },
    ) + "|"@ + or_empty(auth_mode)
}

pub open spec fn msg_status_not_json() -> Seq<char> {
    "auth.json 不是合法 JSON: "@
}

/// The fields of the status of a parsed credentials document.
pub open spec fn status_matches(st: CurrentAuthStatus, v: JsonValue, modified_at: Option<i64>) -> bool {
    let fields = auth_fields(v);
    let account = match fields {
        Ok(f) => Some(f.account_id),
        Err(_) => None,
    };
    let email = match fields {
        Ok(f) => f.email,
        Err(_) => None,
    };
    let plan = match fields {
        Ok(f) => f.plan_type,
        Err(_) => None,
    };
    &&& st.available
    &&& opt_text(st.auth_mode) == str_member(v, "auth_mode"@)
    &&& opt_text(st.last_refresh) == str_member(v, "last_refresh"@)
    &&& opt_text(st.account_id) == account
    &&& opt_text(st.email) == email
    &&& opt_text(st.plan_type) == plan
    &&& st.file_modified_at == modified_at
    &&& st.fingerprint is Some
    &&& st.fingerprint->0@ == fingerprint_text(
        account,
        str_member(v, "last_refresh"@),
        modified_at,
        str_member(v, "auth_mode"@),
    )
}

fn text_or_empty(o: &Option<String>) -> (res: String)
    ensures
        res@ == or_empty(opt_text(*o)),
{
    match o {
        Some(s) => s.clone(),
        None => String::new(),
    }
}

/// The status of the credentials file with text `raw`, last modified at
/// `file_modified_at` (seconds since the Unix epoch, when known).
pub fn auth_status_from_text(raw: &str, file_modified_at: Option<i64>) -> (res: Result<
    CurrentAuthStatus,
    String,
>)
    ensures
        match serde_json_from_str(raw@) {
            Ok(v) => res is Ok && status_matches(res->Ok_0, v, file_modified_at),
            Err(e) => res is Err && res->Err_0@ == msg_status_not_json() + e,
        },
{
    let value = match parse_json_text(raw) {
        Ok(v) => v,
        Err(e) => return Err(String::from_str("auth.json 不是合法 JSON: ").concat(e.as_str())),
    };
    let auth_mode = owned(get_str(&value, "auth_mode"));
    let last_refresh = owned(get_str(&value, "last_refresh"));
    let (account_id, email, plan_type) = match extract_auth(&value) {
        Ok(e) => (Some(e.account_id), e.email, e.plan_type),
        Err(_) => (None, None, None),
    };
    let modified = match file_modified_at {
        Some(m) => m,
        None => 0,
    };
    proof {
        reveal_strlit("|");
    }
    let fingerprint = text_or_empty(&account_id).concat("|").concat(
        text_or_empty(&last_refresh).as_str(),
    ).concat("|").concat(i64_to_decimal(modified).as_str()).concat("|").concat(
        text_or_empty(&auth_mode).as_str(),
    );
    Ok(
        CurrentAuthStatus {
            available: true,
            account_id,
            email,
            plan_type,
            auth_mode,
            last_refresh,
            file_modified_at,
            fingerprint: Some(fingerprint),
        },
    )
}

} // verus!
