//! Properties that hold across the library's operations.
use vstd::prelude::*;

use crate::accounts::has_account;
use crate::accounts::has_id;
use crate::accounts::imported_store;
use crate::accounts::lemma_position_of_account;
use crate::accounts::lemma_without_id_len;
use crate::accounts::position_of_account;
use crate::accounts::synced_store;
use crate::accounts::without_id;
use crate::accounts::StoredAccount;
use crate::accounts::label_for;
use crate::accounts::summary_of;
use crate::session::launch_plan_matches;
use crate::session::texts;
use crate::session::LaunchPlan;
use crate::text::spec_trim;
use crate::usage::additional_windows;
use crate::usage::limit_windows;
use crate::usage::one_week;
use crate::usage::five_hours;
use crate::usage::report_windows;
use crate::usage::snapshot_matches;
use crate::usage::window_distance;
use crate::usage::AdditionalRateLimitDetails;
use crate::usage::UsageApiResponse;
use crate::usage::UsageWindowRaw;
use crate::auth::auth_fields;
use crate::auth::auth_mode_of;
use crate::auth::chatgpt_mode;
use crate::auth::direct_account_id;
use crate::auth::ExtractedAuth;
use crate::json::JsonValue;
use crate::session::restore_action_for;
use crate::session::RestoreAction;
use crate::text::in_set;
use crate::text::lemma_skip_back_bounds;
use crate::text::skip_back;
use crate::text::strip_end;
use crate::text::CharSet;
use crate::usage::usage_url_for;
use crate::usage::UsageSnapshot;

verus! {

/// No two accounts share an account id.
pub open spec fn unique_account_ids(accts: Seq<StoredAccount>) -> bool {
    forall|i: int, j: int|
        0 <= i < j < accts.len() ==> #[trigger] accts[i].account_id@ != #[trigger] accts[j].account_id@
}

proof fn lemma_present_position(accts: Seq<StoredAccount>, id: Seq<char>)
    requires
        has_account(accts, id),
    ensures
        position_of_account(accts, id, 0) < accts.len(),
{
    lemma_position_of_account(accts, id, 0);
    let j = choose|j: int| 0 <= j < accts.len() && accts[j].account_id@ == id;
    assert(accts[j].account_id@ == id);
}

/// Importing a login keeps account ids unique, and afterwards the store
/// holds an account for the login's account id.
pub proof fn lemma_import_keeps_account_ids_unique(
    after: Seq<StoredAccount>,
    before: Seq<StoredAccount>,
    auth_json: JsonValue,
    extracted: ExtractedAuth,
    usage: Option<UsageSnapshot>,
    label: Seq<char>,
    now: i64,
    new_id: String,
)
    requires
        unique_account_ids(before),
        imported_store(after, before, auth_json, extracted, usage, label, now, new_id),
    ensures
        unique_account_ids(after),
        has_account(after, extracted.account_id@),
{
    lemma_position_of_account(before, extracted.account_id@, 0);
    let k = position_of_account(before, extracted.account_id@, 0);
    if k < before.len() {
        assert forall|i: int, j: int| 0 <= i < j < after.len() implies #[trigger] after[i].account_id@
            != #[trigger] after[j].account_id@ by {
            assert(before[i].account_id@ != before[j].account_id@);
        }
        assert(after[k].account_id@ == extracted.account_id@);
    } else {
        let n = before.len() as int;
        assert forall|i: int, j: int| 0 <= i < j < after.len() implies #[trigger] after[i].account_id@
            != #[trigger] after[j].account_id@ by {
            assert(after[i] == after.subrange(0, n)[i]);
            if j < n {
                assert(after[j] == after.subrange(0, n)[j]);
                assert(before[i].account_id@ != before[j].account_id@);
            } else {
                assert(before[i].account_id@ != extracted.account_id@);
            }
        }
        assert(after[n].account_id@ == extracted.account_id@);
    }
}

/// Importing the same login twice adds at most one account: the second
/// import refreshes the account the first one left.
pub proof fn lemma_import_twice_adds_once(
    s0: Seq<StoredAccount>,
    s1: Seq<StoredAccount>,
    s2: Seq<StoredAccount>,
    auth_json: JsonValue,
    extracted: ExtractedAuth,
    usage: Option<UsageSnapshot>,
    label: Seq<char>,
    now: i64,
    new_id: String,
    auth_json2: JsonValue,
    extracted2: ExtractedAuth,
    usage2: Option<UsageSnapshot>,
    label2: Seq<char>,
    now2: i64,
    new_id2: String,
)
    requires
        imported_store(s1, s0, auth_json, extracted, usage, label, now, new_id),
        extracted2.account_id@ == extracted.account_id@,
        imported_store(s2, s1, auth_json2, extracted2, usage2, label2, now2, new_id2),
    ensures
        s2.len() == s1.len(),
        s1.len() <= s0.len() + 1,
{
    lemma_position_of_account(s0, extracted.account_id@, 0);
    let k = position_of_account(s0, extracted.account_id@, 0);
    if k < s0.len() {
        assert(s1[k].account_id@ == extracted.account_id@);
    } else {
        assert(s1[s0.len() as int].account_id@ == extracted.account_id@);
    }
    assert(has_account(s1, extracted.account_id@));
    lemma_present_position(s1, extracted.account_id@);
}

/// The startup check adds the active login at most once: checking again
/// with the same account leaves the store as it is.
pub proof fn lemma_sync_is_idempotent(
    s0: Seq<StoredAccount>,
    s1: Seq<StoredAccount>,
    s2: Seq<StoredAccount>,
    auth_json: JsonValue,
    extracted: ExtractedAuth,
    now: i64,
    new_id: String,
    auth_json2: JsonValue,
    extracted2: ExtractedAuth,
    now2: i64,
    new_id2: String,
)
    requires
        synced_store(s1, s0, auth_json, extracted, now, new_id),
        extracted2.account_id@ == extracted.account_id@,
        synced_store(s2, s1, auth_json2, extracted2, now2, new_id2),
    ensures
        s2 == s1,
        has_account(s1, extracted.account_id@),
{
    if !has_account(s0, extracted.account_id@) {
        assert(s1[s0.len() as int].account_id@ == extracted.account_id@);
    }
}

/// The startup check keeps account ids unique.
pub proof fn lemma_sync_keeps_account_ids_unique(
    after: Seq<StoredAccount>,
    before: Seq<StoredAccount>,
    auth_json: JsonValue,
    extracted: ExtractedAuth,
    now: i64,
    new_id: String,
)
    requires
        unique_account_ids(before),
        synced_store(after, before, auth_json, extracted, now, new_id),
    ensures
        unique_account_ids(after),
{
    if !has_account(before, extracted.account_id@) {
        let n = before.len() as int;
        assert forall|i: int, j: int| 0 <= i < j < after.len() implies #[trigger] after[i].account_id@
            != #[trigger] after[j].account_id@ by {
            assert(after[i] == after.subrange(0, n)[i]);
            if j < n {
                assert(after[j] == after.subrange(0, n)[j]);
                assert(before[i].account_id@ != before[j].account_id@);
            } else {
                assert(before[i].account_id@ != extracted.account_id@);
            }
        }
    }
}

/// After deleting `id` no account has that id, so deleting it again is an
/// error; accounts with other ids stay.
pub proof fn lemma_delete_removes_only_that_id(accts: Seq<StoredAccount>, id: Seq<char>, other: Seq<char>)
    requires
        other != id,
    ensures
        !has_id(without_id(accts, id), id),
        has_id(without_id(accts, id), other) == has_id(accts, other),
    decreases accts.len(),
{
    lemma_without_id_len(accts, id);
    if has_id(without_id(accts, id), id) {
        let j = choose|j: int| 0 <= j < without_id(accts, id).len() && without_id(accts, id)[j].id@ == id;
        assert(without_id(accts, id)[j].id@ != id);
    }
    if accts.len() > 0 {
        let rest = accts.drop_first();
        lemma_delete_removes_only_that_id(rest, id, other);
        let head: Seq<StoredAccount> = if accts[0].id@ != id {
            seq![accts[0]]
        } else {
            Seq::empty()
        };
        let w = without_id(accts, id);
        assert(w == head + without_id(rest, id));
        if has_id(accts, other) {
            let j = choose|j: int| 0 <= j < accts.len() && accts[j].id@ == other;
            if j == 0 {
                assert(w[0].id@ == other);
            } else {
                assert(rest[j - 1].id@ == other);
                let m = choose|m: int| 0 <= m < without_id(rest, id).len() && without_id(rest, id)[m].id@ == other;
                assert(w[m + head.len()].id@ == other);
            }
        }
        if has_id(w, other) {
            let m = choose|m: int| 0 <= m < w.len() && w[m].id@ == other;
            if m < head.len() {
                assert(accts[0].id@ == other);
            } else {
                assert(without_id(rest, id)[m - head.len()].id@ == other);
                let j = choose|j: int| 0 <= j < rest.len() && rest[j].id@ == other;
                assert(accts[j + 1].id@ == other);
            }
        }
    }
}

/// Restoring after the add-account flow gives back exactly what the flow
/// saved, and only once: a second restore has nothing to do.
pub proof fn lemma_restore_gives_back_saved_login_once(current: Option<JsonValue>)
    ensures
        restore_action_for(Some(current)) == match current {
            Some(v) => RestoreAction::WriteBack(v),
            None => RestoreAction::RemoveFile,
        },
        restore_action_for(None) == RestoreAction::Nothing,
{
}

proof fn lemma_skip_back_agrees(s: Seq<char>, t: Seq<char>, set: CharSet, j: int)
    requires
        0 <= j <= s.len(),
        j <= t.len(),
        forall|i: int| 0 <= i < j ==> s[i] == t[i],
    ensures
        skip_back(s, set, j) == skip_back(t, set, j),
    decreases j,
{
    if j > 0 && in_set(set, s[j - 1]) {
        lemma_skip_back_agrees(s, t, set, j - 1);
    }
}

/// Trailing slashes of the configured base URL do not change the usage URL,
/// which always ends in `/wham/usage` or `/api/codex/usage`.
pub proof fn lemma_usage_url_ignores_trailing_slash(base: Seq<char>)
    ensures
        usage_url_for(base.push('/')) == usage_url_for(base),
        usage_url_for(base).len() >= "/wham/usage"@.len(),
{
    let set = CharSet::Only('/');
    let t = base.push('/');
    let n = base.len() as int;
    lemma_skip_back_agrees(t, base, set, n);
    lemma_skip_back_bounds(base, set, n);
    assert(skip_back(t, set, n + 1) == skip_back(t, set, n));
    assert(strip_end(t, set) =~= strip_end(base, set));
    reveal_strlit("/wham/usage");
    reveal_strlit("/api/codex/usage");
}

/// Only a ChatGPT login mode yields usage credentials.
pub proof fn lemma_credentials_need_chatgpt_mode(auth: JsonValue)
    ensures
        auth_fields(auth) is Ok ==> chatgpt_mode(auth_mode_of(auth)),
{
}

/// When the credentials name the account directly, the login's account id
/// is that one, so the account imported from them is the one listed as
/// current.
pub proof fn lemma_imported_login_is_current(auth: JsonValue)
    ensures
        auth_fields(auth) is Ok && direct_account_id(auth) is Some ==> auth_fields(auth)->Ok_0.account_id
            == direct_account_id(auth)->0,
{
}

/// A requested label that is not blank after trimming is the label, whatever
/// the login's email; the email, or else `Codex ` and the first eight
/// characters of the account id, is used only when no such label was asked for.
pub proof fn lemma_requested_label_wins(
    requested: Option<Seq<char>>,
    email: Option<Seq<char>>,
    account_id: Seq<char>,
)
    ensures
        requested is Some && spec_trim(requested->0).len() > 0 ==> label_for(requested, email, account_id)
            == spec_trim(requested->0),
        !(requested is Some && spec_trim(requested->0).len() > 0) && email is Some ==> label_for(
            requested,
            email,
            account_id,
        ) == email->0,
        !(requested is Some && spec_trim(requested->0).len() > 0) && email is None ==> label_for(
            requested,
            email,
            account_id,
        ) == "Codex "@ + account_id.take(
            if account_id.len() < 8 {
                account_id.len() as int
            } else {
                8
            },
        ),
{
}

/// A workspace given to a launch is passed once, as the last argument, after
/// the fixed arguments: `open -na <app> <w>` with an installed app, and
/// `codex app <w>` without one; with no workspace only the fixed arguments
/// are passed.
pub proof fn lemma_launch_passes_workspace_last(p: LaunchPlan, app_path: Option<String>, workspace: Option<String>)
    requires
        launch_plan_matches(p, app_path, workspace),
    ensures
        workspace is Some ==> texts(p.args@).len() > 0 && texts(p.args@).last() == workspace->0@,
        match (app_path, workspace) {
            (Some(path), Some(w)) => texts(p.args@) == seq!["-na"@, path@, w@],
            (Some(path), None) => texts(p.args@) == seq!["-na"@, path@],
            (None, Some(w)) => texts(p.args@) == seq!["app"@, w@],
            (None, None) => texts(p.args@) == seq!["app"@],
        },
{
    match (app_path, workspace) {
        (Some(path), Some(w)) => {
            assert(seq!["-na"@, path@] + seq![w@] =~= seq!["-na"@, path@, w@]);
        },
        (Some(path), None) => {
            assert(seq!["-na"@, path@] + Seq::<Seq<char>>::empty() =~= seq!["-na"@, path@]);
        },
        (None, Some(w)) => {
            assert(seq!["app"@] + seq![w@] =~= seq!["app"@, w@]);
        },
        (None, None) => {
            assert(seq!["app"@] + Seq::<Seq<char>>::empty() =~= seq!["app"@]);
        },
    }
}

/// Deleting keeps the other accounts in their order: deleting from two runs
/// of accounts one after the other gives the two results one after the other.
pub proof fn lemma_delete_keeps_order(a: Seq<StoredAccount>, b: Seq<StoredAccount>, id: Seq<char>)
    ensures
        without_id(a + b, id) == without_id(a, id) + without_id(b, id),
        without_id(seq![], id) == Seq::<StoredAccount>::empty(),
    decreases a.len(),
{
    if a.len() == 0 {
        assert(a + b =~= b);
        assert(without_id(a, id) =~= Seq::<StoredAccount>::empty());
        assert(without_id(a + b, id) =~= without_id(a, id) + without_id(b, id));
    } else {
        lemma_delete_keeps_order(a.drop_first(), b, id);
        assert((a + b).drop_first() =~= a.drop_first() + b);
        assert((a + b)[0] == a[0]);
        let head: Seq<StoredAccount> = if a[0].id@ != id {
            seq![a[0]]
        } else {
            Seq::empty()
        };
        assert(without_id(a + b, id) == head + without_id(a.drop_first() + b, id));
        assert(without_id(a, id) == head + without_id(a.drop_first(), id));
        assert(without_id(a + b, id) =~= without_id(a, id) + without_id(b, id));
    }
}

/// Deleting an id no account has leaves the accounts as they are; an account
/// whose id differs is kept, and one whose id matches is dropped.
pub proof fn lemma_delete_of_single_account(x: StoredAccount, accts: Seq<StoredAccount>, id: Seq<char>)
    ensures
        !has_id(accts, id) ==> without_id(accts, id) == accts,
        x.id@ != id ==> without_id(seq![x], id) == seq![x],
        x.id@ == id ==> without_id(seq![x], id) == Seq::<StoredAccount>::empty(),
    decreases accts.len(),
{
    assert(seq![x].drop_first() =~= Seq::<StoredAccount>::empty());
    assert(without_id(seq![x].drop_first(), id) =~= Seq::<StoredAccount>::empty());
    if x.id@ != id {
        assert(without_id(seq![x], id) =~= seq![x]);
    } else {
        assert(without_id(seq![x], id) =~= Seq::<StoredAccount>::empty());
    }
    if !has_id(accts, id) && accts.len() > 0 {
        let rest = accts.drop_first();
        assert(!has_id(rest, id)) by {
            if has_id(rest, id) {
                let j = choose|j: int| 0 <= j < rest.len() && rest[j].id@ == id;
                assert(accts[j + 1].id@ == id);
            }
        }
        lemma_delete_of_single_account(x, rest, id);
        assert(accts[0].id@ != id);
        assert(without_id(accts, id) =~= seq![accts[0]] + rest);
        assert(seq![accts[0]] + rest =~= accts);
    } else if accts.len() == 0 {
        assert(without_id(accts, id) =~= accts);
    }
}

/// The listing of an account carries every stored field unchanged (its
/// usage among them), and marks it current exactly when the active login's
/// account id is its account id.
pub proof fn lemma_summary_carries_account(a: StoredAccount, current: Option<Seq<char>>)
    ensures
        summary_of(a, current).id == a.id,
        summary_of(a, current).label == a.label,
        summary_of(a, current).email == a.email,
        summary_of(a, current).account_id == a.account_id,
        summary_of(a, current).plan_type == a.plan_type,
        summary_of(a, current).added_at == a.added_at,
        summary_of(a, current).updated_at == a.updated_at,
        summary_of(a, current).usage == a.usage,
        summary_of(a, current).usage_error == a.usage_error,
        summary_of(a, current).is_current <==> (current is Some && current->0 == a.account_id@),
{
}

proof fn lemma_additional_window_listed(a: Seq<AdditionalRateLimitDetails>, i: int, w: UsageWindowRaw)
    requires
        0 <= i < a.len(),
        limit_windows(a[i].rate_limit).contains(w),
    ensures
        additional_windows(a).contains(w),
    decreases a.len(),
{
    let init = a.drop_last();
    if i == a.len() - 1 {
        let k = choose|k: int| 0 <= k < limit_windows(a[i].rate_limit).len() && limit_windows(a[i].rate_limit)[k] == w;
        assert(additional_windows(a)[additional_windows(init).len() + k] == w);
    } else {
        assert(init[i] == a[i]);
        lemma_additional_window_listed(init, i, w);
        let k = choose|k: int| 0 <= k < additional_windows(init).len() && additional_windows(init)[k] == w;
        assert(additional_windows(a)[k] == w);
    }
}

/// Every window of a report is searched: the primary and secondary windows
/// of the main limit and of each additional limit, whether or not the main
/// limit is there.
pub proof fn lemma_report_lists_every_window(p: UsageApiResponse, w: UsageWindowRaw)
    ensures
        limit_windows(p.rate_limit).contains(w) ==> report_windows(p).contains(w),
        p.additional_rate_limits matches Some(a) ==> forall|i: int|
            0 <= i < a@.len() && limit_windows(#[trigger] a@[i].rate_limit).contains(w) ==> report_windows(p).contains(w),
{
    let main = limit_windows(p.rate_limit);
    if main.contains(w) {
        let k = choose|k: int| 0 <= k < main.len() && main[k] == w;
        assert(report_windows(p)[k] == w);
    }
    if let Some(a) = p.additional_rate_limits {
        assert forall|i: int|
            0 <= i < a@.len() && limit_windows(#[trigger] a@[i].rate_limit).contains(w) implies report_windows(p).contains(w) by {
            lemma_additional_window_listed(a@, i, w);
            let k = choose|k: int| 0 <= k < additional_windows(a@).len() && additional_windows(a@)[k] == w;
            assert(report_windows(p)[main.len() + k] == w);
        }
    }
}

/// The 5-hour and 1-week windows of a snapshot are each at least as near
/// their length as every window of the report, additional limits included;
/// so a window nearer than all others is the one shown.
pub proof fn lemma_snapshot_shows_nearest_windows(
    s: UsageSnapshot,
    p: UsageApiResponse,
    fetched_at: i64,
    w: UsageWindowRaw,
)
    requires
        snapshot_matches(s, p, fetched_at),
        report_windows(p).contains(w),
    ensures
        s.five_hour is Some,
        s.one_week is Some,
        window_distance(
            UsageWindowRaw {
                used_percent_bits: s.five_hour->0.used_percent_bits,
                limit_window_seconds: s.five_hour->0.window_seconds,
                reset_at: 0,
            },
            five_hours(),
        ) <= window_distance(w, five_hours()),
        window_distance(
            UsageWindowRaw {
                used_percent_bits: s.one_week->0.used_percent_bits,
                limit_window_seconds: s.one_week->0.window_seconds,
                reset_at: 0,
            },
            one_week(),
        ) <= window_distance(w, one_week()),
{
    let ws = report_windows(p);
    let j = choose|j: int| 0 <= j < ws.len() && ws[j] == w;
    let k5 = choose|k: int| crate::usage::is_first_nearest(ws, five_hours(), k) && crate::usage::as_usage_window(ws[k]) == s.five_hour->0;
    let k7 = choose|k: int| crate::usage::is_first_nearest(ws, one_week(), k) && crate::usage::as_usage_window(ws[k]) == s.one_week->0;
    assert(window_distance(ws[k5], five_hours()) <= window_distance(ws[j], five_hours()));
    assert(window_distance(ws[k7], one_week()) <= window_distance(ws[j], one_week()));
}

} // verus!
