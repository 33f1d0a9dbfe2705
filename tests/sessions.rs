use anna::args;
use anna::config::{resolve_editor, Config, JournalError};
use anna::date::CalendarDate;
use anna::page::{plan_page, prepare, Preparation};
use anna::preprocessor::process;
use anna::repo::Repo;
use anna::session::{page_session, template_session, Action, Session};

fn trace(s: &mut Session, outcomes: &[bool]) -> Vec<Action> {
    outcomes.iter().map(|ok| s.step(*ok)).collect()
}

#[test]
fn offline_session_runs_no_version_control() {
    let mut s = Session::new("/j", "/j/2024/05/01.txt", "Page updated", true);
    let t = trace(&mut s, &[true, true, true]);
    assert_eq!(t, vec![Action::Edit { stale: false }, Action::Finish, Action::Finish]);
    assert!(t.iter().all(|a| s.command(*a).is_none()));
}

#[test]
fn failed_pull_still_edits_and_pushes() {
    let mut s = Session::new("/j", "/j/f.txt", "Page updated", false);
    let t = trace(&mut s, &[true, false, true, true, true, true]);
    assert_eq!(
        t,
        vec![Action::Pull, Action::Edit { stale: true }, Action::Add, Action::Commit, Action::Push, Action::Finish]
    );
}

#[test]
fn failed_add_never_commits_or_pushes() {
    let mut s = Session::new("/j", "/j/f.txt", "Page updated", false);
    let t = trace(&mut s, &[true, true, true, false, true, true]);
    assert_eq!(t[2], Action::Add);
    assert_eq!(t[3], Action::Abort(JournalError::AddFailed));
    assert!(t.iter().all(|a| *a != Action::Commit && *a != Action::Push));
}

#[test]
fn failed_commit_and_push_abort() {
    let mut s = Session::new("/j", "/j/f.txt", "m", false);
    let t = trace(&mut s, &[true, true, true, true, false]);
    assert_eq!(t[4], Action::Abort(JournalError::CommitFailed));
    let mut s = Session::new("/j", "/j/f.txt", "m", false);
    let t = trace(&mut s, &[true, true, true, true, true, false]);
    assert_eq!(t[5], Action::Abort(JournalError::PushFailed));
}

#[test]
fn failed_editor_launch_aborts_before_commit() {
    let mut s = Session::new("/j", "/j/f.txt", "m", false);
    let t = trace(&mut s, &[true, true, false, true]);
    assert_eq!(t[2], Action::Abort(JournalError::EditorLaunch));
    assert_eq!(t[3], Action::Abort(JournalError::EditorLaunch));
}

#[test]
fn git_command_lines() {
    let r = Repo::new("/j");
    assert_eq!(r.pull(), vec!["git", "-C", "/j", "pull"]);
    assert_eq!(r.add("/j/a.txt"), vec!["git", "-C", "/j", "add", "/j/a.txt"]);
    assert_eq!(r.commit("Page updated"), vec!["git", "-C", "/j", "commit", "--message", "Page updated"]);
    assert_eq!(r.push(), vec!["git", "-C", "/j", "push"]);
    let s = Session::new("/j", "/j/a.txt", "msg", false);
    assert_eq!(s.command(Action::Commit).unwrap(), vec!["git", "-C", "/j", "commit", "--message", "msg"]);
}

#[test]
fn empty_template_offline_end_to_end() {
    let mut c = Config::default();
    c.path = Some("/root/journal".to_string());
    let plan = plan_page(&c, &CalendarDate::new(2024, 5, 1).unwrap()).unwrap();
    assert_eq!(plan.page_path, "/root/journal/2024/05/01.txt");
    assert_eq!(prepare(false, true), Preparation::Materialize);
    assert_eq!(process("", &vec![]), "");
    let mut s = page_session(&plan, true);
    let t = trace(&mut s, &[true, true]);
    assert_eq!(t.iter().filter(|a| matches!(a, Action::Edit { .. })).count(), 1);
    assert!(t.iter().all(|a| s.command(*a).is_none()));
    assert_eq!(s.message, "Page updated");
}

#[test]
fn template_session_targets_template() {
    let mut c = Config::default();
    assert!(template_session(&c, false).is_err());
    c.path = Some("/j".to_string());
    let s = template_session(&c, false).unwrap();
    assert_eq!(s.target, "/j/template");
    assert_eq!(s.message, "Template updated");
}

#[test]
fn editor_resolution() {
    let e = |s: &str| Some(s.to_string());
    assert_eq!(resolve_editor(e("vim"), e("nano")).unwrap(), "vim");
    assert_eq!(resolve_editor(None, e("nano")).unwrap(), "nano");
    assert_eq!(resolve_editor(None, e("  \t")).unwrap_err(), JournalError::MissingEditor);
    assert_eq!(resolve_editor(None, None).unwrap_err(), JournalError::MissingEditor);
    assert!(JournalError::MissingEditor.message().contains("EDITOR"));
}

#[test]
fn config_update_keeps_unset_values() {
    let mut c = Config::default();
    c.editor = Some("vim".to_string());
    c.midnight_offset = Some(2);
    c.update(args::Config { path: Some("/j".to_string()), editor: None, midnight_offset: Some(4), extension: None });
    assert_eq!(c.editor.as_deref(), Some("vim"));
    assert_eq!(c.path.as_deref(), Some("/j"));
    assert_eq!(c.midnight_offset, Some(4));
    assert!(c.extension.is_none());
}

#[test]
fn macros_are_added_replaced_and_removed() {
    let mut c = Config::default();
    c.add_macro("A".to_string(), "echo 1".to_string());
    c.add_macro("B".to_string(), "echo 2".to_string());
    c.add_macro("A".to_string(), "echo 3".to_string());
    assert_eq!(c.macros.as_ref().unwrap().len(), 2);
    assert!(c.macros.as_ref().unwrap().contains(&("A".to_string(), "echo 3".to_string())));
    c.remove_macro(&"A".to_string());
    assert_eq!(c.macros.as_ref().unwrap(), &vec![("B".to_string(), "echo 2".to_string())]);
    let mut e = Config::default();
    e.remove_macro(&"X".to_string());
    assert_eq!(e.macros, Some(vec![]));
}
