//! Where usage is fetched from, and how a usage report becomes the
//! 5-hour / 1-week view of an account.
use vstd::prelude::*;
use vstd::string::*;
use vstd::utf8::*;

use crate::clock::now_unix_seconds;
use crate::text::has_infix;
use crate::text::has_prefix;
use crate::text::after_first;
use crate::text::find_from;
use crate::text::strip;
use crate::text::strip_end;
use crate::text::contains;
use crate::text::starts_with;
use crate::text::split_once_after;
use crate::text::trim;
use crate::text::trim_set;
use crate::text::trim_end_set;
use crate::text::find_char_from;
use crate::text::lemma_find_from_bounds;
use crate::text::truncate_for_error;
use crate::text::CharSet;

verus! {

pub open spec fn default_chatgpt_base_url() -> Seq<char> {
    "https://chatgpt.com/backend-api"@
}

/// The usage URL for a ChatGPT base URL: trailing slashes dropped, then
/// `/wham/usage` after a `/backend-api` base, `/api/codex/usage` otherwise.
pub open spec fn usage_url_for(base: Seq<char>) -> Seq<char> {
    let normalized = strip_end(base, CharSet::Only('/'));
    if has_infix(normalized, "/backend-api"@) {
        normalized + "/wham/usage"@
    } else {
        normalized + "/api/codex/usage"@
    }
}

/// The usage endpoint, from the base URL configured for Codex
/// (`chatgpt_base_url`) or the default ChatGPT one.
pub fn resolve_usage_url(configured_base_url: Option<String>) -> (res: String)
    ensures
        res@ == usage_url_for(
            match configured_base_url {
                Some(b) => b@,
                None => default_chatgpt_base_url(),
            },
        ),
{
    let base = match configured_base_url {
        Some(b) => b,
        None => String::from_str("https://chatgpt.com/backend-api"),
    };
    let normalized = trim_end_set(base.as_str(), CharSet::Only('/'));
    if contains(normalized, "/backend-api") {
        String::from_str(normalized).concat("/wham/usage")
    } else {
        String::from_str(normalized).concat("/api/codex/usage")
    }
}

/// What one line of `~/.codex/config.toml` says of the base URL.
pub enum LineOutcome {
    /// Not a `chatgpt_base_url` line, or one with an empty value.
    Skip,
    /// A `chatgpt_base_url` line without `=`: the search gives up.
    GiveUp,
    /// The configured base URL.
    Found(Seq<char>),
}

/// The key line's value: text after the first `=`, trimmed, then stripped of
/// double quotes, then of single quotes.
pub open spec fn line_outcome(line: Seq<char>) -> LineOutcome {
    let t = strip(line, CharSet::Whitespace);
    if !has_prefix(t, "chatgpt_base_url"@) {
        LineOutcome::Skip
    } else {
        match after_first(t, '=') {
            None => LineOutcome::GiveUp,
            Some(value) => {
                let cleaned = strip(
                    strip(strip(value, CharSet::Whitespace), CharSet::Only('"')),
                    CharSet::Only('\''),
                );
                if cleaned.len() == 0 {
                    LineOutcome::Skip
                } else {
                    LineOutcome::Found(cleaned)
                }
            },
        }
    }
}

/// The base URL the lines of `s` from position `i` on give, taking the
/// first line that settles it.
pub open spec fn base_url_from(s: Seq<char>, i: int) -> Option<Seq<char>>
    decreases s.len() - i,
{
    if i < 0 || i > s.len() {
        None
    } else {
        let e = find_from(s, '\n', i);
        match line_outcome(s.subrange(i, e)) {
            LineOutcome::Found(c) => Some(c),
            LineOutcome::GiveUp => None,
            LineOutcome::Skip => if e >= s.len() || e < i {
                None
            } else {
                base_url_from(s, e + 1)
            },
        }
    }
}

/// The `chatgpt_base_url` that the text of `config.toml` sets.
pub open spec fn configured_base_url(contents: Seq<char>) -> Option<Seq<char>> {
    base_url_from(contents, 0)
}

/// Exec outcome of one line.
enum LineResult {
    Skip,
    GiveUp,
    Found(String),
}

fn classify_line(line: &str) -> (res: LineResult)
    ensures
        match res {
            LineResult::Skip => line_outcome(line@) == LineOutcome::Skip,
            LineResult::GiveUp => line_outcome(line@) == LineOutcome::GiveUp,
            LineResult::Found(c) => line_outcome(line@) == LineOutcome::Found(c@),
        },
{
    let t = trim(line);
    if !starts_with(t, "chatgpt_base_url") {
        return LineResult::Skip;
    }
    match split_once_after(t, '=') {
        None => LineResult::GiveUp,
        Some(value) => {
            let cleaned = trim_set(
                trim_set(trim(value), CharSet::Only('"')),
                CharSet::Only('\''),
            );
            if cleaned.unicode_len() == 0 {
                LineResult::Skip
            } else {
                LineResult::Found(String::from_str(cleaned))
            }
        },
    }
}

/// Reads the `chatgpt_base_url` setting out of the text of Codex's
/// `config.toml`: the first line that starts (after trimming) with the key
/// decides, unless its value is empty.
pub fn chatgpt_base_url_from_config(contents: &str) -> (res: Option<String>)
    ensures
        match res {
            Some(u) => configured_base_url(contents@) == Some(u@),
            None => configured_base_url(contents@) is None,
        },
{
    let n = contents.unicode_len();
    let mut i: usize = 0;
    loop
        invariant
            n == contents@.len(),
            0 <= i <= n,
            configured_base_url(contents@) == base_url_from(contents@, i as int),
        decreases n - i,
    {
        let e = find_char_from(contents, '\n', i);
        proof {
            lemma_find_from_bounds(contents@, '\n', i as int);
        }
        let line = contents.substring_char(i, e);
        match classify_line(line) {
            LineResult::Found(c) => {
                return Some(c);
            },
            LineResult::GiveUp => {
                return None;
            },
            LineResult::Skip => {
                if e >= n {
                    return None;
                }
                i = e + 1;
            },
        }
    }
}

/// One rate-limit window of a usage report. The used percentage is kept as
/// the bit pattern of its IEEE-754 `f64`.
#[derive(Debug, Clone, Copy, PartialEq)]
pub struct UsageWindowRaw {
    pub used_percent_bits: u64,
    pub limit_window_seconds: i64,
    pub reset_at: i64,
}

#[derive(Debug, Clone, PartialEq)]
pub struct RateLimitDetails {
    pub primary_window: Option<UsageWindowRaw>,
    pub secondary_window: Option<UsageWindowRaw>,
}

#[derive(Debug, Clone, PartialEq)]
pub struct AdditionalRateLimitDetails {
    pub rate_limit: Option<RateLimitDetails>,
}

#[derive(Debug, Clone, PartialEq)]
pub struct CreditDetails {
    pub has_credits: bool,
    pub unlimited: bool,
    pub balance: Option<String>,
}

/// A usage report as the usage endpoint returns it.
#[derive(Debug, Clone, PartialEq)]
pub struct UsageApiResponse {
    pub plan_type: Option<String>,
    pub rate_limit: Option<RateLimitDetails>,
    pub additional_rate_limits: Option<Vec<AdditionalRateLimitDetails>>,
    pub credits: Option<CreditDetails>,
}

/// A window as the app shows it.
#[derive(Debug, Clone, Copy, PartialEq)]
pub struct UsageWindow {
    pub used_percent_bits: u64,
    pub window_seconds: i64,
    pub reset_at: Option<i64>,
}

#[derive(Debug, Clone, PartialEq)]
pub struct CreditSnapshot {
    pub has_credits: bool,
    pub unlimited: bool,
    pub balance: Option<String>,
}

/// An account's usage at one moment.
#[derive(Debug, Clone, PartialEq)]
pub struct UsageSnapshot {
    pub fetched_at: i64,
    pub plan_type: Option<String>,
    pub five_hour: Option<UsageWindow>,
    pub one_week: Option<UsageWindow>,
    pub credits: Option<CreditSnapshot>,
}

pub open spec fn opt_seq<T>(o: Option<T>) -> Seq<T> {
    match o {
        Some(x) => seq![x],
        None => Seq::empty(),
    }
}

/// The primary, then the secondary window of a rate limit.
pub open spec fn limit_windows(r: Option<RateLimitDetails>) -> Seq<UsageWindowRaw> {
    match r {
        Some(d) => opt_seq(d.primary_window) + opt_seq(d.secondary_window),
        None => Seq::empty(),
    }
}

pub open spec fn additional_windows(a: Seq<AdditionalRateLimitDetails>) -> Seq<UsageWindowRaw>
    decreases a.len(),
{
    if a.len() == 0 {
        Seq::empty()
    } else {
        additional_windows(a.drop_last()) + limit_windows(a.last().rate_limit)
    }
}

/// Every window of a report, in report order: the main limit's, then each
/// additional limit's.
pub open spec fn report_windows(p: UsageApiResponse) -> Seq<UsageWindowRaw> {
    limit_windows(p.rate_limit) + match p.additional_rate_limits {
        Some(a) => additional_windows(a@),
        None => Seq::empty(),
    }
}

/// How far a window's length is from `target` seconds.
pub open spec fn window_distance(w: UsageWindowRaw, target: i64) -> int {
    let d = w.limit_window_seconds - target;
    if d < 0 {
        -d
    } else {
        d
    }
}

/// `window.limit_window_seconds - target` and its absolute value fit an `i64`.
pub open spec fn distance_fits(w: UsageWindowRaw, target: i64) -> bool {
    i64::MIN < w.limit_window_seconds - target <= i64::MAX
}

/// `k` is the first position where the distance to `target` is smallest.
pub open spec fn is_first_nearest(ws: Seq<UsageWindowRaw>, target: i64, k: int) -> bool {
    &&& 0 <= k < ws.len()
    &&& forall|j: int| 0 <= j < ws.len() ==> window_distance(ws[k], target) <= window_distance(ws[j], target)
    &&& forall|j: int| 0 <= j < k ==> window_distance(ws[k], target) < window_distance(ws[j], target)
}

fn distance(w: &UsageWindowRaw, target: i64) -> (res: i64)
    requires
        distance_fits(*w, target),
    ensures
        res == window_distance(*w, target),
{
    let d = w.limit_window_seconds - target;
    if d < 0 {
        -d
    } else {
        d
    }
}

/// The window whose length is nearest `target_seconds`, the first of equals;
/// `None` for no windows.
pub fn pick_nearest_window(windows: &[UsageWindowRaw], target_seconds: i64) -> (res: Option<
    UsageWindowRaw,
>)
    requires
        forall|i: int| 0 <= i < windows@.len() ==> distance_fits(#[trigger] windows@[i], target_seconds),
    ensures
        windows@.len() == 0 <==> res is None,
        res matches Some(w) ==> exists|k: int|
            is_first_nearest(windows@, target_seconds, k) && windows@[k] == w,
{
    let n = windows.len();
    if n == 0 {
        return None;
    }
    let mut best: usize = 0;
    let mut best_d = distance(&windows[0], target_seconds);
    let mut i: usize = 1;
    while i < n
        invariant
            n == windows@.len(),
            1 <= i <= n,
            0 <= best < i,
            forall|j: int| 0 <= j < n ==> distance_fits(#[trigger] windows@[j], target_seconds),
            best_d == window_distance(windows@[best as int], target_seconds),
            forall|j: int| 0 <= j < i ==> best_d <= window_distance(#[trigger] windows@[j], target_seconds),
            forall|j: int| 0 <= j < best ==> best_d < window_distance(#[trigger] windows@[j], target_seconds),
        decreases n - i,
    {
        let d = distance(&windows[i], target_seconds);
        if d < best_d {
            best = i;
            best_d = d;
        }
        i = i + 1;
    }
    assert(is_first_nearest(windows@, target_seconds, best as int));
    Some(windows[best])
}

pub open spec fn as_usage_window(w: UsageWindowRaw) -> UsageWindow {
    UsageWindow {
        used_percent_bits: w.used_percent_bits,
        window_seconds: w.limit_window_seconds,
        reset_at: Some(w.reset_at),
    }
}

/// A raw window as the app shows it.
pub fn to_usage_window(window: UsageWindowRaw) -> (res: UsageWindow)
    ensures
        res == as_usage_window(window),
{
    UsageWindow {
        used_percent_bits: window.used_percent_bits,
        window_seconds: window.limit_window_seconds,
        reset_at: Some(window.reset_at),
    }
}

/// Five hours, in seconds.
pub open spec fn five_hours() -> i64 {
    18000
}

/// One week, in seconds.
pub open spec fn one_week() -> i64 {
    604800
}

/// The shown window nearest `target` among `ws`.
pub open spec fn shown_window(ws: Seq<UsageWindowRaw>, target: i64, shown: Option<UsageWindow>) -> bool {
    match shown {
        None => ws.len() == 0,
        Some(w) => exists|k: int| is_first_nearest(ws, target, k) && as_usage_window(ws[k]) == w,
    }
}

/// A report's windows all allow the distance computations of both targets.
pub open spec fn report_distances_fit(p: UsageApiResponse) -> bool {
    forall|i: int|
        0 <= i < report_windows(p).len() ==> distance_fits(#[trigger] report_windows(p)[i], five_hours())
            && distance_fits(report_windows(p)[i], one_week())
}

fn push_limit_windows(out: &mut Vec<UsageWindowRaw>, r: &Option<RateLimitDetails>)
    ensures
        final(out)@ == old(out)@ + limit_windows(*r),
{
    if let Some(rate_limit) = r {
        if let Some(primary) = rate_limit.primary_window {
            out.push(primary);
        }
        if let Some(secondary) = rate_limit.secondary_window {
            out.push(secondary);
        }
    }
    assert(final(out)@ =~= old(out)@ + limit_windows(*r));
}

/// The snapshot a report gives when fetched at `fetched_at`.
pub open spec fn snapshot_matches(s: UsageSnapshot, p: UsageApiResponse, fetched_at: i64) -> bool {
    &&& s.fetched_at == fetched_at
    &&& s.plan_type == p.plan_type
    &&& shown_window(report_windows(p), five_hours(), s.five_hour)
    &&& shown_window(report_windows(p), one_week(), s.one_week)
    &&& match (s.credits, p.credits) {
        (None, None) => true,
        (Some(c), Some(d)) => c.has_credits == d.has_credits && c.unlimited == d.unlimited
            && c.balance == d.balance,
        _ => false,
    }
}

/// The usage snapshot of a report fetched at `fetched_at`: the plan, the
/// windows nearest five hours and one week, and the credits.
pub fn usage_snapshot_at(payload: UsageApiResponse, fetched_at: i64) -> (res: UsageSnapshot)
    requires
        report_distances_fit(payload),
    ensures
        snapshot_matches(res, payload, fetched_at),
{
    let ghost windows_spec = report_windows(payload);
    let mut windows: Vec<UsageWindowRaw> = Vec::new();
    push_limit_windows(&mut windows, &payload.rate_limit);
    if let Some(additional) = &payload.additional_rate_limits {
        let ghost base = windows@;
        let n = additional.len();
        let mut i: usize = 0;
        while i < n
            invariant
                n == additional@.len(),
                0 <= i <= n,
                windows@ == base + additional_windows(additional@.subrange(0, i as int)),
            decreases n - i,
        {
            push_limit_windows(&mut windows, &additional[i].rate_limit);
            proof {
                assert(additional@.subrange(0, i + 1).drop_last() =~= additional@.subrange(0, i as int));
            }
            i = i + 1;
        }
        assert(additional@.subrange(0, n as int) =~= additional@);
    }
    assert(windows@ =~= windows_spec);
    let five_hour = match pick_nearest_window(windows.as_slice(), 18000) {
        Some(w) => Some(to_usage_window(w)),
        None => None,
    };
    let one_week = match pick_nearest_window(windows.as_slice(), 604800) {
        Some(w) => Some(to_usage_window(w)),
        None => None,
    };
    let UsageApiResponse { plan_type, rate_limit: _, additional_rate_limits: _, credits } = payload;
    let credits = match credits {
        Some(c) => Some(CreditSnapshot { has_credits: c.has_credits, unlimited: c.unlimited, balance: c.balance }),
        None => None,
    };
    UsageSnapshot { fetched_at, plan_type, five_hour, one_week, credits }
}

/// Turns a usage report into a snapshot stamped with the current time.
pub fn map_usage_payload(payload: UsageApiResponse) -> (res: UsageSnapshot)
    requires
        report_distances_fit(payload),
    ensures
        snapshot_matches(res, payload, res.fetched_at),
{
    let now = now_unix_seconds();
    usage_snapshot_at(payload, now)
}

pub open spec fn msg_usage_status() -> Seq<char> {
    "用量接口返回错误 ("@
}

/// The error for a failed usage request: the HTTP status and at most 240
/// bytes of the response body.
pub fn usage_status_error(status: &str, body: &str) -> (res: String)
    requires
        body.spec_bytes().len() <= usize::MAX,
        body.spec_bytes().len() > 240 ==> is_char_boundary(body.spec_bytes(), 240),
    ensures
        res@ == msg_usage_status() + status@ + "): "@ + (if body.spec_bytes().len() <= 240 {
            body@
        } else {
            decode_utf8(body.spec_bytes().subrange(0, 240)) + "..."@
        }),
{
    let shown = truncate_for_error(body, 240);
    String::from_str("用量接口返回错误 (").concat(status).concat("): ").concat(shown.as_str())
}

/// The `Authorization` header value for an access token.
pub fn bearer_authorization(access_token: &str) -> (res: String)
    ensures
        res@ == "Bearer "@ + access_token@,
{
    String::from_str("Bearer ").concat(access_token)
}

} // verus!
