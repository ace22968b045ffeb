//! The account store and the operations the app performs on it.
use vstd::prelude::*;
use vstd::string::*;

use crate::auth::ExtractedAuth;
use crate::json::JsonValue;
use crate::text::opt_text;
use crate::text::short_account;
use crate::text::spec_trim;
use crate::text::text_eq;
use crate::text::trim;
use crate::usage::CreditSnapshot;
use crate::usage::UsageSnapshot;

verus! {

/// A saved login.
#[derive(Debug, PartialEq)]
pub struct StoredAccount {
    pub id: String,
    pub label: String,
    pub email: Option<String>,
    pub account_id: String,
    pub plan_type: Option<String>,
    pub auth_json: JsonValue,
    pub added_at: i64,
    pub updated_at: i64,
    pub usage: Option<UsageSnapshot>,
    pub usage_error: Option<String>,
}

/// The saved logins, in the order they were added.
#[derive(Debug, PartialEq)]
pub struct AccountsStore {
    pub version: u8,
    pub accounts: Vec<StoredAccount>,
}

/// What the app lists of an account.
#[derive(Debug, Clone, PartialEq)]
pub struct AccountSummary {
    pub id: String,
    pub label: String,
    pub email: Option<String>,
    pub account_id: String,
    pub plan_type: Option<String>,
    pub added_at: i64,
    pub updated_at: i64,
    pub usage: Option<UsageSnapshot>,
    pub usage_error: Option<String>,
    pub is_current: bool,
}

impl AccountsStore {
    /// The store used when none has been saved yet.
    pub fn empty() -> (res: AccountsStore)
        ensures
            res.version == 1,
            res.accounts@.len() == 0,
    {
        AccountsStore { version: 1, accounts: Vec::new() }
    }
}

fn copy_text(o: &Option<String>) -> (res: Option<String>)
    ensures
        res == *o,
{
    match o {
        Some(s) => Some(s.clone()),
        None => None,
    }
}

fn copy_snapshot(o: &Option<UsageSnapshot>) -> (res: Option<UsageSnapshot>)
    ensures
        res == *o,
{
    match o {
        Some(s) => {
            let credits = match &s.credits {
                Some(c) => Some(
                    CreditSnapshot {
                        has_credits: c.has_credits,
                        unlimited: c.unlimited,
                        balance: copy_text(&c.balance),
                    },
                ),
                None => None,
            };
            Some(
                UsageSnapshot {
                    fetched_at: s.fetched_at,
                    plan_type: copy_text(&s.plan_type),
                    five_hour: s.five_hour,
                    one_week: s.one_week,
                    credits,
                },
            )
        },
        None => None,
    }
}

/// The listing of an account; it is current when its account id is the one
/// the active credentials name.
pub open spec fn summary_of(a: StoredAccount, current: Option<Seq<char>>) -> AccountSummary {
    AccountSummary {
        id: a.id,
        label: a.label,
        email: a.email,
        account_id: a.account_id,
        plan_type: a.plan_type,
        added_at: a.added_at,
        updated_at: a.updated_at,
        usage: a.usage,
        usage_error: a.usage_error,
        is_current: current == Some(a.account_id@),
    }
}

pub open spec fn opt_str_view(o: Option<&str>) -> Option<Seq<char>> {
    match o {
        Some(s) => Some(s@),
        None => None,
    }
}

impl StoredAccount {
    /// The listing of this account, given the account id of the active login.
    pub fn to_summary(&self, current_account_id: Option<&str>) -> (res: AccountSummary)
        ensures
            res == summary_of(*self, opt_str_view(current_account_id)),
    {
        let is_current = match current_account_id {
            Some(id) => text_eq(id, self.account_id.as_str()),
            None => false,
        };
        AccountSummary {
            id: self.id.clone(),
            label: self.label.clone(),
            email: copy_text(&self.email),
            account_id: self.account_id.clone(),
            plan_type: copy_text(&self.plan_type),
            added_at: self.added_at,
            updated_at: self.updated_at,
            usage: copy_snapshot(&self.usage),
            usage_error: copy_text(&self.usage_error),
            is_current,
        }
    }
}

/// The listing of every account, in store order.
pub fn account_summaries(store: &AccountsStore, current_account_id: Option<&str>) -> (res: Vec<
    AccountSummary,
>)
    ensures
        res@.len() == store.accounts@.len(),
        forall|i: int|
            0 <= i < res@.len() ==> #[trigger] res@[i] == summary_of(
                store.accounts@[i],
                opt_str_view(current_account_id),
            ),
{
    let n = store.accounts.len();
    let mut out: Vec<AccountSummary> = Vec::new();
    let mut i: usize = 0;
    while i < n
        invariant
            n == store.accounts@.len(),
            0 <= i <= n,
            out@.len() == i,
            forall|j: int|
                0 <= j < i ==> #[trigger] out@[j] == summary_of(
                    store.accounts@[j],
                    opt_str_view(current_account_id),
                ),
        decreases n - i,
    {
        out.push(store.accounts[i].to_summary(current_account_id));
        i = i + 1;
    }
    out
}

/// Position of the first account at or after `i` whose account id is `id`,
/// or the number of accounts.
pub open spec fn position_of_account(accts: Seq<StoredAccount>, id: Seq<char>, i: int) -> int
    decreases accts.len() - i,
{
    if i < 0 || i >= accts.len() {
        accts.len() as int
    } else if accts[i].account_id@ == id {
        i
    } else {
        position_of_account(accts, id, i + 1)
    }
}

pub proof fn lemma_position_of_account(accts: Seq<StoredAccount>, id: Seq<char>, i: int)
    requires
        0 <= i <= accts.len(),
    ensures
        i <= position_of_account(accts, id, i) <= accts.len(),
        position_of_account(accts, id, i) < accts.len() ==> accts[position_of_account(accts, id, i)].account_id@
            == id,
        forall|j: int| i <= j < position_of_account(accts, id, i) ==> accts[j].account_id@ != id,
    decreases accts.len() - i,
{
    if i < accts.len() && accts[i].account_id@ != id {
        lemma_position_of_account(accts, id, i + 1);
    }
}

/// Whether some account has account id `id`.
pub open spec fn has_account(accts: Seq<StoredAccount>, id: Seq<char>) -> bool {
    exists|j: int| 0 <= j < accts.len() && accts[j].account_id@ == id
}

/// Position of the first account with account id `account_id`.
pub fn find_account_index(store: &AccountsStore, account_id: &str) -> (res: Option<usize>)
    ensures
        match res {
            Some(k) => k == position_of_account(store.accounts@, account_id@, 0) && k
                < store.accounts@.len(),
            None => position_of_account(store.accounts@, account_id@, 0) == store.accounts@.len()
                && !has_account(store.accounts@, account_id@),
        },
{
    let n = store.accounts.len();
    let mut i: usize = 0;
    while i < n
        invariant
            n == store.accounts@.len(),
            0 <= i <= n,
            position_of_account(store.accounts@, account_id@, 0) == position_of_account(
                store.accounts@,
                account_id@,
                i as int,
            ),
            forall|j: int| 0 <= j < i ==> store.accounts@[j].account_id@ != account_id@,
        decreases n - i,
    {
        if text_eq(store.accounts[i].account_id.as_str(), account_id) {
            return Some(i);
        }
        i = i + 1;
    }
    None
}

/// The label given to an imported account: the requested label trimmed, if
/// that leaves text; else the email; else `Codex` and the first eight
/// characters of the account id.
pub open spec fn label_for(
    requested: Option<Seq<char>>,
    email: Option<Seq<char>>,
    account_id: Seq<char>,
) -> Seq<char> {
    if requested is Some && spec_trim(requested->0).len() > 0 {
        spec_trim(requested->0)
    } else {
        match email {
            Some(e) => e,
            None => "Codex "@ + account_id.take(
                if account_id.len() < 8 {
                    account_id.len() as int
                } else {
                    8
                },
            ),
        }
    }
}

/// The label an account gets when nothing else names it.
fn fallback_label(email: &Option<String>, account_id: &str) -> (res: String)
    ensures
        res@ == label_for(None, opt_text(*email), account_id@),
{
    match email {
        Some(e) => e.clone(),
        None => String::from_str("Codex ").concat(short_account(account_id).as_str()),
    }
}

/// Chooses the label of an imported account.
pub fn choose_label(requested: Option<String>, email: &Option<String>, account_id: &str) -> (res: String)
    ensures
        res@ == label_for(opt_text(requested), opt_text(*email), account_id@),
{
    match requested {
        Some(r) => {
            let t = trim(r.as_str());
            if t.unicode_len() == 0 {
                fallback_label(email, account_id)
            } else {
                String::from_str(t)
            }
        },
        None => fallback_label(email, account_id),
    }
}

/// The first of three optional texts that is present.
pub open spec fn first_present(a: Option<String>, b: Option<String>, c: Option<String>) -> Option<String> {
    if a is Some {
        a
    } else if b is Some {
        b
    } else {
        c
    }
}

pub open spec fn reported_plan(usage: Option<UsageSnapshot>) -> Option<String> {
    match usage {
        Some(s) => s.plan_type,
        None => None,
    }
}

/// An account refreshed by a new import of its login.
pub open spec fn reimported(
    a: StoredAccount,
    before: StoredAccount,
    auth_json: JsonValue,
    extracted: ExtractedAuth,
    usage: Option<UsageSnapshot>,
    label: Seq<char>,
    now: i64,
) -> bool {
    &&& a.id == before.id
    &&& a.label@ == label
    &&& a.email == extracted.email
    &&& a.account_id == before.account_id
    &&& a.plan_type == first_present(reported_plan(usage), extracted.plan_type, before.plan_type)
    &&& a.auth_json == auth_json
    &&& a.added_at == before.added_at
    &&& a.updated_at == now
    &&& a.usage == usage
    &&& a.usage_error is None
}

/// An account created by importing a login.
pub open spec fn newly_imported(
    a: StoredAccount,
    id: String,
    auth_json: JsonValue,
    extracted: ExtractedAuth,
    usage: Option<UsageSnapshot>,
    label: Seq<char>,
    now: i64,
) -> bool {
    &&& a.id == id
    &&& a.label@ == label
    &&& a.email == extracted.email
    &&& a.account_id == extracted.account_id
    &&& a.plan_type == first_present(reported_plan(usage), extracted.plan_type, None)
    &&& a.auth_json == auth_json
    &&& a.added_at == now
    &&& a.updated_at == now
    &&& a.usage == usage
    &&& a.usage_error is None
}

/// The store after importing a login: the first account with the login's
/// account id is refreshed in place, or a new account is appended.
pub open spec fn imported_store(
    after: Seq<StoredAccount>,
    before: Seq<StoredAccount>,
    auth_json: JsonValue,
    extracted: ExtractedAuth,
    usage: Option<UsageSnapshot>,
    label: Seq<char>,
    now: i64,
    new_id: String,
) -> bool {
    let k = position_of_account(before, extracted.account_id@, 0);
    if k < before.len() {
        &&& after.len() == before.len()
        &&& forall|j: int| 0 <= j < before.len() && j != k ==> after[j] == before[j]
        &&& reimported(after[k], before[k], auth_json, extracted, usage, label, now)
    } else {
        &&& after.len() == before.len() + 1
        &&& after.subrange(0, before.len() as int) == before
        &&& newly_imported(after[before.len() as int], new_id, auth_json, extracted, usage, label, now)
    }
}

/// Imports the active login at time `now`: refreshes the account with the
/// same account id, or adds one with id `new_id`; returns its listing.
pub fn import_account_at(
    store: &mut AccountsStore,
    auth_json: JsonValue,
    extracted: ExtractedAuth,
    usage: Option<UsageSnapshot>,
    label: Option<String>,
    current_account_id: Option<&str>,
    now: i64,
    new_id: String,
) -> (res: AccountSummary)
    ensures
        final(store).version == old(store).version,
        imported_store(
            final(store).accounts@,
            old(store).accounts@,
            auth_json,
            extracted,
            usage,
            label_for(opt_text(label), opt_text(extracted.email), extracted.account_id@),
            now,
            new_id,
        ),
        res == summary_of(
            final(store).accounts@[position_of_account(final(store).accounts@, extracted.account_id@, 0)],
            opt_str_view(current_account_id),
        ),
{
    let ghost before = store.accounts@;
    let new_label = choose_label(label, &extracted.email, extracted.account_id.as_str());
    let usage_plan = match &usage {
        Some(s) => copy_text(&s.plan_type),
        None => None,
    };
    proof {
        lemma_position_of_account(before, extracted.account_id@, 0);
    }
    match find_account_index(store, extracted.account_id.as_str()) {
        Some(k) => {
            let existing = &store.accounts[k];
            let plan_type = match usage_plan {
                Some(p) => Some(p),
                None => match extracted.plan_type {
                    Some(p) => Some(p),
                    None => copy_text(&existing.plan_type),
                },
            };
            let refreshed = StoredAccount {
                id: existing.id.clone(),
                label: new_label,
                email: extracted.email,
                account_id: existing.account_id.clone(),
                plan_type,
                auth_json,
                added_at: existing.added_at,
                updated_at: now,
                usage,
                usage_error: None,
            };
            let summary = refreshed.to_summary(current_account_id);
            store.accounts.set(k, refreshed);
            proof {
                lemma_position_of_account(store.accounts@, extracted.account_id@, 0);
                assert forall|j: int| 0 <= j < k implies store.accounts@[j].account_id@
                    != extracted.account_id@ by {
                    assert(store.accounts@[j] == before[j]);
                }
                if position_of_account(store.accounts@, extracted.account_id@, 0) != k {
                    assert(store.accounts@[k as int].account_id@ == extracted.account_id@);
                }
            }
            summary
        },
        None => {
            let added = StoredAccount {
                id: new_id,
                label: new_label,
                plan_type: match usage_plan {
                    Some(p) => Some(p),
                    None => copy_text(&extracted.plan_type),
                },
                email: extracted.email,
                account_id: extracted.account_id,
                auth_json,
                added_at: now,
                updated_at: now,
                usage,
                usage_error: None,
            };
            let summary = added.to_summary(current_account_id);
            store.accounts.push(added);
            proof {
                assert(store.accounts@.subrange(0, before.len() as int) =~= before);
                lemma_position_of_account(store.accounts@, extracted.account_id@, 0);
                assert forall|j: int| 0 <= j < before.len() implies store.accounts@[j].account_id@
                    != extracted.account_id@ by {
                    assert(store.accounts@[j] == before[j]);
                }
            }
            summary
        },
    }
}

/// The accounts kept by deleting `id`: all whose id differs, in order.
pub open spec fn without_id(accts: Seq<StoredAccount>, id: Seq<char>) -> Seq<StoredAccount>
    decreases accts.len(),
{
    if accts.len() == 0 {
        Seq::empty()
    } else {
        (if accts[0].id@ != id {
            seq![accts[0]]
        } else {
            Seq::empty()
        }) + without_id(accts.drop_first(), id)
    }
}

/// Whether some account has id `id`.
pub open spec fn has_id(accts: Seq<StoredAccount>, id: Seq<char>) -> bool {
    exists|j: int| 0 <= j < accts.len() && accts[j].id@ == id
}

pub proof fn lemma_without_id_len(accts: Seq<StoredAccount>, id: Seq<char>)
    ensures
        without_id(accts, id).len() <= accts.len(),
        without_id(accts, id).len() == accts.len() <==> !has_id(accts, id),
        forall|j: int|
            0 <= j < without_id(accts, id).len() ==> #[trigger] without_id(accts, id)[j].id@ != id,
    decreases accts.len(),
{
    if accts.len() > 0 {
        let rest = accts.drop_first();
        lemma_without_id_len(rest, id);
        if has_id(accts, id) {
            let j = choose|j: int| 0 <= j < accts.len() && accts[j].id@ == id;
            if j > 0 {
                assert(rest[j - 1].id@ == id);
            }
        }
        if has_id(rest, id) {
            let j = choose|j: int| 0 <= j < rest.len() && rest[j].id@ == id;
            assert(accts[j + 1].id@ == id);
        }
        let head: Seq<StoredAccount> = if accts[0].id@ != id {
            seq![accts[0]]
        } else {
            Seq::empty()
        };
        assert forall|j: int| 0 <= j < without_id(accts, id).len() implies #[trigger] without_id(
            accts,
            id,
        )[j].id@ != id by {
            if j >= head.len() {
                assert(without_id(accts, id)[j] == without_id(rest, id)[j - head.len()]);
            }
        }
    }
}

pub open spec fn msg_delete_missing() -> Seq<char> {
    "未找到要删除的账号"@
}

/// Deletes every account with id `id`; it is an error when there is none,
/// and the store is then unchanged.
pub fn delete_account_by_id(store: &mut AccountsStore, id: &str) -> (res: Result<(), String>)
    ensures
        final(store).version == old(store).version,
        final(store).accounts@ == without_id(old(store).accounts@, id@),
        res is Err <==> !has_id(old(store).accounts@, id@),
        res matches Err(e) ==> e@ == msg_delete_missing(),
{
    let ghost before = store.accounts@;
    let mut pending: Vec<StoredAccount> = Vec::new();
    std::mem::swap(&mut pending, &mut store.accounts);
    let original_len = pending.len();
    let mut kept: Vec<StoredAccount> = Vec::new();
    while pending.len() > 0
        invariant
            without_id(before, id@) == kept@ + without_id(pending@, id@),
        decreases pending@.len(),
    {
        let ghost p = pending@;
        let a = pending.remove(0);
        proof {
            assert(pending@ =~= p.drop_first());
        }
        if !text_eq(a.id.as_str(), id) {
            kept.push(a);
            proof {
                assert(kept@ + without_id(pending@, id@) =~= kept@.drop_last() + (seq![a]
                    + without_id(pending@, id@)));
            }
        } else {
            proof {
                assert(without_id(p, id@) =~= without_id(pending@, id@));
            }
        }
    }
    proof {
        assert(kept@ =~= without_id(before, id@));
        lemma_without_id_len(before, id@);
    }
    let removed_any = kept.len() != original_len;
    store.accounts = kept;
    if !removed_any {
        return Err(String::from_str("未找到要删除的账号"));
    }
    Ok(())
}

/// The store after the startup check of the active login: the login is
/// appended, labelled by email or short account id, unless an account with
/// its account id is already there.
pub open spec fn synced_store(
    after: Seq<StoredAccount>,
    before: Seq<StoredAccount>,
    auth_json: JsonValue,
    extracted: ExtractedAuth,
    now: i64,
    new_id: String,
) -> bool {
    if has_account(before, extracted.account_id@) {
        after == before
    } else {
        &&& after.len() == before.len() + 1
        &&& after.subrange(0, before.len() as int) == before
        &&& newly_imported(
            after[before.len() as int],
            new_id,
            auth_json,
            extracted,
            None,
            label_for(None, opt_text(extracted.email), extracted.account_id@),
            now,
        )
    }
}

/// Adds the active login to the store at startup when its account is not
/// there yet; says whether it added it (and so whether the store must be
/// saved).
pub fn sync_startup_account_at(
    store: &mut AccountsStore,
    auth_json: JsonValue,
    extracted: ExtractedAuth,
    now: i64,
    new_id: String,
) -> (added: bool)
    ensures
        final(store).version == old(store).version,
        added == !has_account(old(store).accounts@, extracted.account_id@),
        synced_store(final(store).accounts@, old(store).accounts@, auth_json, extracted, now, new_id),
{
    let ghost before = store.accounts@;
    if find_account_index(store, extracted.account_id.as_str()).is_some() {
        proof {
            lemma_position_of_account(before, extracted.account_id@, 0);
        }
        return false;
    }
    let label = fallback_label(&extracted.email, extracted.account_id.as_str());
    let added = StoredAccount {
        id: new_id,
        label,
        email: extracted.email,
        plan_type: extracted.plan_type,
        account_id: extracted.account_id,
        auth_json,
        added_at: now,
        updated_at: now,
        usage: None,
        usage_error: None,
    };
    store.accounts.push(added);
    proof {
        assert(store.accounts@.subrange(0, before.len() as int) =~= before);
    }
    true
}

/// An account after a usage refresh at `now` with the given outcome.
pub open spec fn refreshed_usage(
    after: StoredAccount,
    before: StoredAccount,
    outcome: Result<UsageSnapshot, String>,
    now: i64,
) -> bool {
    &&& after.id == before.id
    &&& after.label == before.label
    &&& after.email == before.email
    &&& after.account_id == before.account_id
    &&& after.auth_json == before.auth_json
    &&& after.added_at == before.added_at
    &&& after.updated_at == now
    &&& match outcome {
        Ok(s) => {
            &&& after.plan_type == first_present(s.plan_type, before.plan_type, None)
            &&& after.usage == Some(s)
            &&& after.usage_error is None
        },
        Err(e) => {
            &&& after.plan_type == before.plan_type
            &&& after.usage == before.usage
            &&& after.usage_error == Some(e)
        },
    }
}

/// Records the outcome of fetching an account's usage at `now`: a snapshot
/// replaces the usage (and its plan, when reported, the plan) and clears the
/// error; a failure keeps the last usage and records the error.
pub fn apply_usage_result_at(account: &mut StoredAccount, outcome: Result<UsageSnapshot, String>, now: i64)
    ensures
        refreshed_usage(*final(account), *old(account), outcome, now),
{
    match outcome {
        Ok(snapshot) => {
            let plan = match copy_text(&snapshot.plan_type) {
                Some(p) => Some(p),
                None => copy_text(&account.plan_type),
            };
            account.plan_type = plan;
            account.updated_at = now;
            account.usage = Some(snapshot);
            account.usage_error = None;
        },
        Err(err) => {
            account.updated_at = now;
            account.usage_error = Some(err);
        },
    }
}

/// Position of the first account at or after `i` with id `id`, or the number
/// of accounts.
pub open spec fn position_of_id(accts: Seq<StoredAccount>, id: Seq<char>, i: int) -> int
    decreases accts.len() - i,
{
    if i < 0 || i >= accts.len() {
        accts.len() as int
    } else if accts[i].id@ == id {
        i
    } else {
        position_of_id(accts, id, i + 1)
    }
}

pub open spec fn msg_switch_missing() -> Seq<char> {
    "找不到要切换的账号"@
}

/// The account to switch to: the first with id `id`.
pub fn find_account_by_id<'a>(store: &'a AccountsStore, id: &str) -> (res: Result<&'a StoredAccount, String>)
    ensures
        match res {
            Ok(a) => {
                let k = position_of_id(store.accounts@, id@, 0);
                k < store.accounts@.len() && *a == store.accounts@[k]
            },
            Err(e) => position_of_id(store.accounts@, id@, 0) >= store.accounts@.len() && e@
                == msg_switch_missing(),
        },
{
    let n = store.accounts.len();
    let mut i: usize = 0;
    while i < n
        invariant
            n == store.accounts@.len(),
            0 <= i <= n,
            position_of_id(store.accounts@, id@, 0) == position_of_id(store.accounts@, id@, i as int),
        decreases n - i,
    {
        if text_eq(store.accounts[i].id.as_str(), id) {
            return Ok(&store.accounts[i]);
        }
        i = i + 1;
    }
    Err(String::from_str("找不到要切换的账号"))
}

} // verus!
