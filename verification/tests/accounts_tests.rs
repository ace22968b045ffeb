use codex_account_switcher::session::spotlight_candidates;
use codex_account_switcher::accounts::account_summaries;
use codex_account_switcher::accounts::apply_usage_result_at;
use codex_account_switcher::accounts::choose_label;
use codex_account_switcher::accounts::delete_account_by_id;
use codex_account_switcher::accounts::find_account_by_id;
use codex_account_switcher::accounts::import_account_at;
use codex_account_switcher::accounts::sync_startup_account_at;
use codex_account_switcher::accounts::AccountsStore;
use codex_account_switcher::accounts::StoredAccount;
use codex_account_switcher::auth::ExtractedAuth;
use codex_account_switcher::clock::new_account_id;
use codex_account_switcher::clock::now_unix_seconds;
use codex_account_switcher::clock::seconds_value;
use codex_account_switcher::json::JsonValue;
use codex_account_switcher::session::launch_plan;
use codex_account_switcher::session::restore_changes_file;
use codex_account_switcher::session::switch_result;
use codex_account_switcher::session::AddFlowBackup;
use codex_account_switcher::session::RestoreAction;
use codex_account_switcher::usage::UsageSnapshot;

fn extracted(account: &str, email: Option<&str>, plan: Option<&str>) -> ExtractedAuth {
    ExtractedAuth {
        account_id: account.to_string(),
        access_token: "tok".to_string(),
        email: email.map(str::to_string),
        plan_type: plan.map(str::to_string),
    }
}

fn auth_doc(tag: &str) -> JsonValue {
    JsonValue::Object(vec![("tag".to_string(), JsonValue::Str(tag.to_string()))])
}

fn snapshot(plan: Option<&str>) -> UsageSnapshot {
    UsageSnapshot { fetched_at: 9, plan_type: plan.map(str::to_string), five_hour: None, one_week: None, credits: None }
}

fn account(id: &str, account_id: &str) -> StoredAccount {
    StoredAccount {
        id: id.to_string(),
        label: format!("label-{id}"),
        email: None,
        account_id: account_id.to_string(),
        plan_type: Some("free".to_string()),
        auth_json: auth_doc(id),
        added_at: 1,
        updated_at: 1,
        usage: None,
        usage_error: None,
    }
}

#[test]
fn empty_store_is_version_one() {
    let s = AccountsStore::empty();
    assert_eq!(s.version, 1);
    assert!(s.accounts.is_empty());
}

#[test]
fn labels() {
    assert_eq!(choose_label(Some("  Work  ".to_string()), &None, "acct"), "Work");
    assert_eq!(choose_label(Some("   ".to_string()), &Some("a@b.c".to_string()), "acct"), "a@b.c");
    assert_eq!(choose_label(None, &None, "0123456789"), "Codex 01234567");
}

#[test]
fn import_adds_a_new_account() {
    let mut store = AccountsStore::empty();
    let summary = import_account_at(
        &mut store,
        auth_doc("new"),
        extracted("acct-1", Some("x@y.z"), Some("plus")),
        Some(snapshot(Some("pro"))),
        None,
        Some("acct-1"),
        100,
        "id-1".to_string(),
    );
    assert_eq!(store.accounts.len(), 1);
    let a = &store.accounts[0];
    assert_eq!(a.id, "id-1");
    assert_eq!(a.label, "x@y.z");
    assert_eq!(a.plan_type.as_deref(), Some("pro"));
    assert_eq!(a.added_at, 100);
    assert_eq!(a.auth_json, auth_doc("new"));
    assert!(summary.is_current);
    assert_eq!(summary.id, "id-1");
}

#[test]
fn import_refreshes_an_existing_account_in_place() {
    let mut store = AccountsStore { version: 1, accounts: vec![account("a", "acct-a"), account("b", "acct-b")] };
    let summary = import_account_at(
        &mut store,
        auth_doc("fresh"),
        extracted("acct-b", None, None),
        None,
        Some(" Renamed ".to_string()),
        Some("acct-a"),
        200,
        "unused".to_string(),
    );
    assert_eq!(store.accounts.len(), 2);
    let b = &store.accounts[1];
    assert_eq!(b.id, "b");
    assert_eq!(b.label, "Renamed");
    assert_eq!(b.plan_type.as_deref(), Some("free"));
    assert_eq!(b.added_at, 1);
    assert_eq!(b.updated_at, 200);
    assert_eq!(b.auth_json, auth_doc("fresh"));
    assert!(!summary.is_current);
    assert_eq!(store.accounts[0], account("a", "acct-a"));
}

#[test]
fn importing_the_same_login_twice_adds_it_once() {
    let mut store = AccountsStore::empty();
    for round in 0..2 {
        import_account_at(
            &mut store,
            auth_doc("x"),
            extracted("acct-1", None, None),
            None,
            None,
            None,
            round,
            format!("id-{round}"),
        );
    }
    assert_eq!(store.accounts.len(), 1);
    assert_eq!(store.accounts[0].id, "id-0");
    assert_eq!(store.accounts[0].updated_at, 1);
}

#[test]
fn delete_removes_and_then_reports_missing() {
    let mut store = AccountsStore { version: 1, accounts: vec![account("a", "1"), account("b", "2")] };
    assert_eq!(delete_account_by_id(&mut store, "a"), Ok(()));
    assert_eq!(store.accounts.len(), 1);
    assert_eq!(store.accounts[0].id, "b");
    assert_eq!(delete_account_by_id(&mut store, "a"), Err("未找到要删除的账号".to_string()));
    assert_eq!(store.accounts.len(), 1);
}

#[test]
fn startup_sync_adds_once() {
    let mut store = AccountsStore::empty();
    assert!(sync_startup_account_at(&mut store, auth_doc("s"), extracted("acct-s", None, Some("plus")), 5, "id-s".to_string()));
    assert_eq!(store.accounts[0].label, "Codex acct-s");
    assert_eq!(store.accounts[0].plan_type.as_deref(), Some("plus"));
    assert!(!sync_startup_account_at(&mut store, auth_doc("s2"), extracted("acct-s", None, None), 6, "id-t".to_string()));
    assert_eq!(store.accounts.len(), 1);
    assert_eq!(store.accounts[0].auth_json, auth_doc("s"));
}

#[test]
fn summaries_mark_the_current_account() {
    let store = AccountsStore { version: 1, accounts: vec![account("a", "1"), account("b", "2")] };
    let list = account_summaries(&store, Some("2"));
    assert_eq!(list.len(), 2);
    assert!(!list[0].is_current);
    assert!(list[1].is_current);
    assert_eq!(list[1].label, "label-b");
    assert!(account_summaries(&store, None).iter().all(|s| !s.is_current));
}

#[test]
fn usage_refresh_outcomes() {
    let mut a = account("a", "1");
    apply_usage_result_at(&mut a, Ok(snapshot(None)), 50);
    assert_eq!(a.plan_type.as_deref(), Some("free"));
    assert_eq!(a.usage, Some(snapshot(None)));
    assert_eq!(a.usage_error, None);
    assert_eq!(a.updated_at, 50);
    apply_usage_result_at(&mut a, Ok(snapshot(Some("team"))), 51);
    assert_eq!(a.plan_type.as_deref(), Some("team"));
    apply_usage_result_at(&mut a, Err("boom".to_string()), 52);
    assert_eq!(a.usage, Some(snapshot(Some("team"))));
    assert_eq!(a.usage_error.as_deref(), Some("boom"));
    assert_eq!(a.updated_at, 52);
}

#[test]
fn find_for_switch() {
    let store = AccountsStore { version: 1, accounts: vec![account("a", "1"), account("b", "2")] };
    assert_eq!(find_account_by_id(&store, "b").unwrap().account_id, "2");
    assert_eq!(find_account_by_id(&store, "z").unwrap_err(), "找不到要切换的账号");
}

#[test]
fn restore_happens_once() {
    let mut backup = AddFlowBackup::new();
    assert_eq!(backup.take_restore(), RestoreAction::Nothing);
    backup.remember(Some(auth_doc("before")));
    let action = backup.take_restore();
    assert!(restore_changes_file(&action));
    assert_eq!(action, RestoreAction::WriteBack(auth_doc("before")));
    assert_eq!(backup.take_restore(), RestoreAction::Nothing);
    backup.remember(None);
    assert_eq!(backup.take_restore(), RestoreAction::RemoveFile);
    assert!(!restore_changes_file(&RestoreAction::Nothing));
}

#[test]
fn launch_plans() {
    let p = launch_plan(Some("/Applications/Codex.app".to_string()), Some("/work".to_string()));
    assert!(p.stop_running_app && p.wait_for_exit);
    assert_eq!(p.program, "open");
    assert_eq!(p.args, vec!["-na", "/Applications/Codex.app", "/work"]);
    let q = launch_plan(None, None);
    assert!(!q.stop_running_app && !q.wait_for_exit);
    assert_eq!(q.program, "codex");
    assert_eq!(q.args, vec!["app"]);
    let r = switch_result("acct".to_string(), None);
    assert!(r.used_fallback_cli);
    assert!(!switch_result("acct".to_string(), Some("/A".to_string())).used_fallback_cli);
}

#[test]
fn fresh_ids_are_v4_uuids() {
    let a = new_account_id();
    let b = new_account_id();
    assert_ne!(a, b);
    let chars: Vec<char> = a.chars().collect();
    assert_eq!(chars.len(), 36);
    assert_eq!(chars[8], '-');
    assert_eq!(chars[14], '4');
    assert!("89ab".contains(chars[19]));
}

#[test]
fn clock_reads_seconds_since_epoch() {
    assert!(now_unix_seconds() > 1_600_000_000);
    assert_eq!(seconds_value(None), 0);
    assert_eq!(seconds_value(Some(42)), 42);
}

#[test]
fn spotlight_output_lines() {
    assert_eq!(
        spotlight_candidates("/Applications/Codex.app\n\n  /Users/me/Codex.app  \r\n"),
        vec!["/Applications/Codex.app".to_string(), "/Users/me/Codex.app".to_string()]
    );
    assert!(spotlight_candidates("").is_empty());
    assert!(spotlight_candidates("\n \n").is_empty());
}
