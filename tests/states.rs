use grit::app::App;
use grit::commit_state::CommitState;
use grit::diff::{DiffModel, DiffStats, RawLine};
use grit::git::{CommitInfo, CommitTime};
use grit::keys::Event;
use grit::log_state::LogState;
use grit::state::{AppState, CommandResult};

fn commit(name: &str) -> CommitInfo {
    CommitInfo::new(
        format!("{}0000", name),
        CommitTime { seconds: 1_600_000_000, offset_minutes: 60 },
        Some("Ada".to_string()),
        Some(format!("commit {}", name)),
    )
}

fn history() -> Vec<CommitInfo> {
    vec![commit("c3"), commit("c2"), commit("c1")]
}

fn log_of(app: &App) -> &LogState {
    match app.state() {
        AppState::Log(l) => l,
        AppState::Commit(_) => panic!("expected the history list on top"),
    }
}

fn commit_of(app: &App) -> &CommitState {
    match app.state() {
        AppState::Commit(c) => c,
        AppState::Log(_) => panic!("expected a commit on top"),
    }
}

#[test]
fn commit_info_falls_back_on_invalid_text() {
    let c = CommitInfo::new(
        "ab".to_string(),
        CommitTime { seconds: 0, offset_minutes: -120 },
        None,
        None,
    );
    assert_eq!(c.author, "<invalid utf8>");
    assert_eq!(c.message, "<invalid utf8>");
    assert_eq!(c.oid, "ab");
    assert_eq!(c.time.offset_minutes, -120);
    let d = c.duplicate();
    assert_eq!(d.author, c.author);
    assert_eq!(d.oid, c.oid);
}

#[test]
fn walk_open_and_close_a_commit() {
    let mut app = App::new();
    app.push(AppState::Log(LogState::new(history(), 80, 2)));
    assert_eq!(log_of(&app).commit_list.origin(), 0);
    assert_eq!(log_of(&app).commit_list.selected_index(), Some(0));
    assert_eq!(log_of(&app).commit_list.selection().unwrap().oid, "c30000");

    assert!(!app.handle_event(Event::Down));
    assert_eq!(log_of(&app).commit_list.selected_index(), Some(1));
    assert_eq!(log_of(&app).commit_list.origin(), 0);

    assert!(!app.handle_event(Event::Down));
    assert_eq!(log_of(&app).commit_list.selected_index(), Some(2));
    assert_eq!(log_of(&app).commit_list.origin(), 1);

    assert!(!app.handle_event(Event::End));
    assert_eq!(log_of(&app).commit_list.selected_index(), Some(2));
    assert_eq!(log_of(&app).commit_list.origin(), 1);

    assert!(!app.handle_event(Event::Enter));
    assert_eq!(app.depth(), 2);
    assert_eq!(app.pending_commit().unwrap().oid, "c10000");
    app.complete_open(Ok(DiffModel::empty()));
    assert!(app.pending_commit().is_none());
    let shown = commit_of(&app);
    assert_eq!(shown.commit_info.oid, "c10000");
    let diff = shown.diff.as_ref().unwrap();
    assert_eq!(diff.stats, DiffStats { files_changed: 0, insertions: 0, deletions: 0 });
    assert!(diff.lines.is_empty());

    assert!(!app.handle_event(Event::Char('q')));
    assert_eq!(app.depth(), 1);
    assert_eq!(log_of(&app).commit_list.selected_index(), Some(2));
    assert_eq!(log_of(&app).commit_list.origin(), 1);
}

#[test]
fn pop_of_last_state_ends() {
    let mut app = App::new();
    app.push(AppState::Log(LogState::new(history(), 80, 2)));
    assert!(app.apply(CommandResult::PopState));
    assert_eq!(app.depth(), 0);
}

#[test]
fn pop_of_two_states_ends_on_second() {
    let mut app = App::new();
    app.push(AppState::Log(LogState::new(history(), 80, 2)));
    app.push(AppState::Commit(CommitState::new(commit("c1"))));
    assert!(!app.apply(CommandResult::PopState));
    assert_eq!(app.depth(), 1);
    assert!(app.apply(CommandResult::PopState));
    assert_eq!(app.depth(), 0);
}

#[test]
fn keep_replace_and_quit() {
    let mut app = App::new();
    app.push(AppState::Log(LogState::new(history(), 80, 2)));
    assert!(!app.apply(CommandResult::Keep));
    assert_eq!(app.depth(), 1);
    assert!(!app.apply(CommandResult::ChangeState(AppState::Commit(CommitState::new(commit("a"))))));
    assert!(!app.apply(CommandResult::ReplaceState(AppState::Commit(CommitState::new(commit("b"))))));
    assert_eq!(app.depth(), 2);
    assert_eq!(commit_of(&app).commit_info.oid, "b0000");
    assert!(app.apply(CommandResult::Quit));
    assert_eq!(app.depth(), 2);
}

#[test]
fn pop_method_reports_empty_stack() {
    let mut app = App::new();
    app.push(AppState::Log(LogState::new(history(), 80, 2)));
    app.push(AppState::Commit(CommitState::new(commit("c1"))));
    assert!(!app.pop());
    assert!(app.pop());
}

#[test]
fn enter_with_selection_pushes_commit_view() {
    let mut log = LogState::new(history(), 80, 2);
    match log.handle_event(Event::Enter) {
        CommandResult::ChangeState(AppState::Commit(c)) => {
            assert_eq!(c.commit_info.oid, "c30000");
            assert!(c.diff.is_none());
        }
        _ => panic!("expected the commit to be opened"),
    }
}

#[test]
fn enter_without_selection_keeps() {
    let mut log = LogState::new(history(), 80, 2);
    log.commit_list.unselect();
    assert!(matches!(log.handle_event(Event::Enter), CommandResult::Keep));
    let mut empty = LogState::new(vec![], 80, 2);
    assert!(matches!(empty.handle_event(Event::Enter), CommandResult::Keep));
}

#[test]
fn log_keys_map_to_moves() {
    let commits: Vec<CommitInfo> = (0..10).map(|i| commit(&i.to_string())).collect();
    let mut log = LogState::new(commits, 80, 3);
    assert!(matches!(log.handle_event(Event::Char('j')), CommandResult::Keep));
    assert_eq!(log.commit_list.selected_index(), Some(1));
    log.handle_event(Event::Char('k'));
    assert_eq!(log.commit_list.selected_index(), Some(0));
    log.handle_event(Event::Up);
    assert_eq!(log.commit_list.selected_index(), Some(0));
    log.handle_event(Event::PageDown);
    assert_eq!(log.commit_list.origin(), 3);
    assert_eq!(log.commit_list.selected_index(), Some(3));
    log.handle_event(Event::PageDown);
    log.handle_event(Event::PageDown);
    assert_eq!(log.commit_list.origin(), 7);
    assert_eq!(log.commit_list.selected_index(), Some(7));
    log.handle_event(Event::PageUp);
    assert_eq!(log.commit_list.origin(), 4);
    assert_eq!(log.commit_list.selected_index(), Some(4));
    log.handle_event(Event::Home);
    assert_eq!(log.commit_list.selected_index(), Some(0));
    log.handle_event(Event::End);
    assert_eq!(log.commit_list.selected_index(), Some(9));
    log.handle_event(Event::Resize(100, 5));
    assert_eq!(log.commit_list.height(), 5);
    assert_eq!(log.commit_list.width(), 100);
    assert_eq!(log.commit_list.origin(), 5);
    assert!(matches!(log.handle_event(Event::Char('x')), CommandResult::Keep));
    assert!(matches!(log.handle_event(Event::Other), CommandResult::Keep));
    assert!(matches!(log.handle_event(Event::Esc), CommandResult::PopState));
    assert!(matches!(log.handle_event(Event::Char('q')), CommandResult::PopState));
}

#[test]
fn commit_view_closes_on_q_or_esc_only() {
    let c = CommitState::new(commit("c1"));
    assert!(matches!(c.handle_event(Event::Char('q')), CommandResult::PopState));
    assert!(matches!(c.handle_event(Event::Esc), CommandResult::PopState));
    assert!(matches!(c.handle_event(Event::Down), CommandResult::Keep));
    assert!(matches!(c.handle_event(Event::Enter), CommandResult::Keep));
}

#[test]
fn failed_open_returns_to_list_with_message() {
    let mut app = App::new();
    app.push(AppState::Log(LogState::new(history(), 80, 2)));
    app.handle_event(Event::Down);
    app.handle_event(Event::Enter);
    assert_eq!(app.depth(), 2);
    app.complete_open(Err("object not found".to_string()));
    assert_eq!(app.depth(), 1);
    let log = log_of(&app);
    assert_eq!(log.error.as_deref(), Some("object not found"));
    assert_eq!(log.commit_list.selected_index(), Some(1));
    app.handle_event(Event::Up);
    assert!(log_of(&app).error.is_none());
}

#[test]
fn loaded_diff_is_shown_in_commit_view() {
    let mut app = App::new();
    app.push(AppState::Log(LogState::new(history(), 80, 2)));
    app.handle_event(Event::Enter);
    let raw = vec![
        RawLine { origin: 'H', content: "@@ -1 +1 @@".to_string() },
        RawLine { origin: '-', content: "a".to_string() },
    ];
    let stats = DiffStats { files_changed: 1, insertions: 0, deletions: 1 };
    app.complete_open(Ok(DiffModel::build(stats, &raw)));
    let diff = commit_of(&app).diff.as_ref().unwrap();
    assert_eq!(diff.stats, stats);
    assert_eq!(diff.lines.len(), 2);
    assert_eq!(diff.lines[1].text, "- a");
}
