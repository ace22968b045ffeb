//! The add-account flow's saved login, and launching Codex after a switch.
use vstd::prelude::*;
use vstd::string::*;

use crate::json::JsonValue;
use crate::text::find_char_from;
use crate::text::find_from;
use crate::text::lemma_find_from_bounds;
use crate::text::spec_trim;
use crate::text::trim;

verus! {

/// What restoring the login after the add-account flow must do.
#[derive(Debug, PartialEq)]
pub enum RestoreAction {
    /// No flow was started: nothing to restore.
    Nothing,
    /// Write this document back as the active credentials.
    WriteBack(JsonValue),
    /// There were no credentials before the flow: remove the file.
    RemoveFile,
}

/// The login saved when the add-account flow starts: `None` when no flow is
/// under way, `Some(None)` when there was no credentials file.
#[derive(Debug, PartialEq)]
pub struct AddFlowBackup {
    pub saved: Option<Option<JsonValue>>,
}

pub open spec fn restore_action_for(saved: Option<Option<JsonValue>>) -> RestoreAction {
    match saved {
        None => RestoreAction::Nothing,
        Some(Some(v)) => RestoreAction::WriteBack(v),
        Some(None) => RestoreAction::RemoveFile,
    }
}

impl AddFlowBackup {
    pub fn new() -> (res: AddFlowBackup)
        ensures
            res.saved is None,
    {
        AddFlowBackup { saved: None }
    }

    /// Saves the active login (or its absence) as the flow starts; a login
    /// saved by an earlier, unfinished flow is replaced.
    pub fn remember(&mut self, current: Option<JsonValue>)
        ensures
            final(self).saved == Some(current),
    {
        self.saved = Some(current);
    }

    /// Takes the saved login out and says how to restore it.
    pub fn take_restore(&mut self) -> (res: RestoreAction)
        ensures
            final(self).saved is None,
            res == restore_action_for(old(self).saved),
    {
        let saved = self.saved.take();
        match saved {
            None => RestoreAction::Nothing,
            Some(Some(v)) => RestoreAction::WriteBack(v),
            Some(None) => RestoreAction::RemoveFile,
        }
    }
}

/// Whether restoring changes the credentials file (what the restore command
/// answers).
pub fn restore_changes_file(action: &RestoreAction) -> (res: bool)
    ensures
        res == !(*action is Nothing),
{
    match action {
        RestoreAction::Nothing => false,
        _ => true,
    }
}

/// How to start Codex after switching accounts.
#[derive(Debug, Clone, PartialEq)]
pub struct LaunchPlan {
    /// Stop a running `Codex` process first.
    pub stop_running_app: bool,
    pub program: String,
    pub args: Vec<String>,
    /// Wait for the program and require it to succeed (the app opener), or
    /// only spawn it (the command-line fallback).
    pub wait_for_exit: bool,
}

pub open spec fn texts(v: Seq<String>) -> Seq<Seq<char>> {
    v.map_values(|s: String| s@)
}

pub open spec fn opt_seq_text(o: Option<String>) -> Seq<Seq<char>> {
    match o {
        Some(s) => seq![s@],
        None => Seq::empty(),
    }
}

/// With an installed app: stop it, then `open -na <app> [workspace]`;
/// without: spawn `codex app [workspace]`.
pub open spec fn launch_plan_matches(p: LaunchPlan, app_path: Option<String>, workspace: Option<String>) -> bool {
    match app_path {
        Some(path) => {
            &&& p.stop_running_app
            &&& p.wait_for_exit
            &&& p.program@ == "open"@
            &&& texts(p.args@) == seq!["-na"@, path@] + opt_seq_text(workspace)
        },
        None => {
            &&& !p.stop_running_app
            &&& !p.wait_for_exit
            &&& p.program@ == "codex"@
            &&& texts(p.args@) == seq!["app"@] + opt_seq_text(workspace)
        },
    }
}

/// The launch after a switch, given the installed app (if found) and the
/// workspace to open (if any).
pub fn launch_plan(app_path: Option<String>, workspace_path: Option<String>) -> (res: LaunchPlan)
    ensures
        launch_plan_matches(res, app_path, workspace_path),
{
    let ghost ws = workspace_path;
    let ghost ap = app_path;
    let mut args: Vec<String> = Vec::new();
    let stop;
    let program;
    match app_path {
        Some(path) => {
            args.push(String::from_str("-na"));
            args.push(path);
            stop = true;
            program = String::from_str("open");
        },
        None => {
            args.push(String::from_str("app"));
            stop = false;
            program = String::from_str("codex");
        },
    }
    let ghost first = args@;
    if let Some(w) = workspace_path {
        args.push(w);
    }
    proof {
        assert(texts(args@) =~= texts(first) + opt_seq_text(ws));
        match ap {
            Some(path) => {
                assert(texts(first) =~= seq!["-na"@, path@]);
            },
            None => {
                assert(texts(first) =~= seq!["app"@]);
            },
        }
    }
    LaunchPlan { stop_running_app: stop, program, args, wait_for_exit: stop }
}

/// The answer to a switch request.
#[derive(Debug, Clone, PartialEq)]
pub struct SwitchAccountResult {
    pub account_id: String,
    pub launched_app_path: Option<String>,
    pub used_fallback_cli: bool,
}

/// The answer after launching: the app's path when the app was opened, and
/// whether the command-line fallback was used instead.
pub fn switch_result(account_id: String, launched_app_path: Option<String>) -> (res: SwitchAccountResult)
    ensures
        res.account_id == account_id,
        res.launched_app_path == launched_app_path,
        res.used_fallback_cli == (launched_app_path is None),
{
    let used_fallback_cli = launched_app_path.is_none();
    SwitchAccountResult { account_id, launched_app_path, used_fallback_cli }
}

/// The non-empty trimmed lines of `s` from position `i` on, in order.
pub open spec fn listed_paths_from(s: Seq<char>, i: int) -> Seq<Seq<char>>
    decreases s.len() - i,
{
    if i < 0 || i > s.len() {
        Seq::empty()
    } else {
        let e = find_from(s, '\n', i);
        let t = spec_trim(s.subrange(i, e));
        let head: Seq<Seq<char>> = if t.len() > 0 {
            seq![t]
        } else {
            Seq::empty()
        };
        if e >= s.len() || e < i {
            head
        } else {
            head + listed_paths_from(s, e + 1)
        }
    }
}

/// The candidate paths in the output of a Spotlight query (`mdfind`): its
/// lines, trimmed, without the empty ones.
pub fn spotlight_candidates(output: &str) -> (res: Vec<String>)
    ensures
        texts(res@) == listed_paths_from(output@, 0),
{
    let n = output.unicode_len();
    let mut out: Vec<String> = Vec::new();
    let mut i: usize = 0;
    loop
        invariant
            n == output@.len(),
            0 <= i <= n,
            texts(out@) + listed_paths_from(output@, i as int) == listed_paths_from(output@, 0),
        decreases n - i,
    {
        let e = find_char_from(output, '\n', i);
        proof {
            lemma_find_from_bounds(output@, '\n', i as int);
        }
        let t = trim(output.substring_char(i, e));
        let ghost before = out@;
        if t.unicode_len() > 0 {
            out.push(String::from_str(t));
        }
        proof {
            let head: Seq<Seq<char>> = if t@.len() > 0 {
                seq![t@]
            } else {
                Seq::empty()
            };
            assert(texts(out@) =~= texts(before) + head);
            if e < n {
                assert(listed_paths_from(output@, i as int) == head + listed_paths_from(output@, e + 1));
                assert(texts(out@) + listed_paths_from(output@, e + 1) =~= texts(before)
                    + listed_paths_from(output@, i as int));
            } else {
                assert(listed_paths_from(output@, i as int) == head);
                assert(texts(out@) =~= texts(before) + listed_paths_from(output@, i as int));
            }
        }
        if e >= n {
            return out;
        }
        i = e + 1;
    }
}

} // verus!
