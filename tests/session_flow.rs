use commayte::editor::{EditOutcome, Key, LineEditor};
use commayte::session::{
    Action, CommitOutcome, ConfirmChoice, Event, MenuChoice, Phase, Session,
};

/// Drives a session with scripted events and counts the commits asked for.
fn drive(diff: &str, decorate: bool, events: Vec<Event>) -> (Session, Vec<Action>, usize) {
    let (mut session, first) = Session::start(diff, decorate);
    let mut actions = vec![first];
    let mut commits = 0;
    for e in events {
        let a = session.step(e);
        if matches!(a, Action::Commit(_)) {
            commits += 1;
        }
        actions.push(a);
    }
    (session, actions, commits)
}

#[test]
fn empty_diff_reports_no_changes() {
    let (s, actions, commits) = drive(
        "  \n ",
        false,
        vec![Event::Menu(MenuChoice::Accept), Event::Confirm(ConfirmChoice::Use)],
    );
    assert!(matches!(actions[0], Action::ReportNoChanges));
    assert!(actions[1..].iter().all(|a| matches!(a, Action::Nothing)));
    assert_eq!(s.phase, Phase::Finished);
    assert_eq!(commits, 0);
}

#[test]
fn cancel_at_menu_commits_nothing() {
    let (s, actions, commits) = drive(
        "diff --git a/x b/x\n+1",
        false,
        vec![
            Event::Generated("feat: add x".to_string()),
            Event::Menu(MenuChoice::Cancel),
            Event::Menu(MenuChoice::Accept),
        ],
    );
    assert!(matches!(actions[0], Action::Generate));
    assert!(matches!(&actions[1], Action::Present(m) if m == "feat: add x"));
    assert!(matches!(actions[2], Action::ReportCancelled));
    assert!(matches!(actions[3], Action::Nothing));
    assert_eq!(commits, 0);
    assert_eq!(s.phase, Phase::Finished);
    assert!(!s.raw_mode);
}

#[test]
fn accept_commits_the_candidate() {
    let (s, actions, commits) = drive(
        "diff",
        false,
        vec![
            Event::Generated("\"fix(io): close file\"\nmore".to_string()),
            Event::Menu(MenuChoice::Accept),
            Event::CommitFinished(CommitOutcome::ExitedWithCode(1)),
        ],
    );
    assert!(matches!(&actions[2], Action::Commit(m) if m == "fix(io): close file"));
    assert!(matches!(&actions[3], Action::ReportCommit(CommitOutcome::ExitedWithCode(1), m) if m == "fix(io): close file"));
    assert_eq!(commits, 1);
    assert_eq!(s.phase, Phase::Finished);
}

#[test]
fn regenerate_replaces_candidate() {
    let (s, actions, _) = drive(
        "diff",
        true,
        vec![
            Event::Generated("feat: one".to_string()),
            Event::Menu(MenuChoice::Regenerate),
            Event::Generated("nonsense".to_string()),
        ],
    );
    assert!(matches!(actions[2], Action::Generate));
    assert!(matches!(&actions[3], Action::Present(m) if m == "\u{1F527} chore: update code"));
    assert_eq!(s.candidate, "\u{1F527} chore: update code");
}

#[test]
fn editing_then_using_commits_edited_text() {
    let (s, actions, commits) = drive(
        "diff",
        false,
        vec![
            Event::Generated("feat: ad".to_string()),
            Event::Menu(MenuChoice::Edit),
            Event::Key(Key::Char('d')),
            Event::Key(Key::Home),
            Event::Key(Key::Right),
            Event::Key(Key::Backspace),
            Event::Key(Key::Char('f')),
            Event::Key(Key::Enter),
            Event::Confirm(ConfirmChoice::Use),
        ],
    );
    assert!(matches!(actions[2], Action::StartEditing));
    assert!(matches!(&actions[8], Action::PresentEdited(m) if m == "feat: add"));
    assert!(matches!(&actions[9], Action::Commit(m) if m == "feat: add"));
    assert_eq!(commits, 1);
    assert!(!s.raw_mode);
}

#[test]
fn interrupt_returns_to_menu_unchanged() {
    let (s, actions, commits) = drive(
        "diff",
        false,
        vec![
            Event::Generated("docs: readme".to_string()),
            Event::Menu(MenuChoice::Edit),
            Event::Key(Key::Char('!')),
            Event::Key(Key::Interrupt),
        ],
    );
    assert!(matches!(&actions[4], Action::Present(m) if m == "docs: readme"));
    assert_eq!(s.phase, Phase::Presenting);
    assert!(!s.raw_mode);
    assert_eq!(commits, 0);
}

#[test]
fn edit_again_then_cancel() {
    let (s, actions, commits) = drive(
        "diff",
        false,
        vec![
            Event::Generated("docs: readme".to_string()),
            Event::Menu(MenuChoice::Edit),
            Event::Key(Key::Enter),
            Event::Confirm(ConfirmChoice::EditAgain),
            Event::Key(Key::End),
            Event::Key(Key::Enter),
            Event::Confirm(ConfirmChoice::Cancel),
        ],
    );
    assert!(matches!(actions[4], Action::StartEditing));
    assert!(matches!(actions[7], Action::ReportCancelled));
    assert_eq!(commits, 0);
    assert_eq!(s.phase, Phase::Finished);
}

#[test]
fn generation_failure_ends_session() {
    let (s, actions, commits) = drive("diff", false, vec![Event::GenerationFailed]);
    assert!(matches!(actions[1], Action::ReportFailure));
    assert_eq!(s.phase, Phase::Finished);
    assert_eq!(commits, 0);
}

#[test]
fn editor_keys() {
    let mut ed = LineEditor::new("ab\u{65}\u{301}");
    assert_eq!(ed.graphemes.len(), 3);
    assert_eq!(ed.cursor_position(), 3);
    assert!(matches!(ed.apply(Key::Left), EditOutcome::Continue));
    assert!(matches!(ed.apply(Key::Backspace), EditOutcome::Continue));
    assert_eq!(ed.current_text(), "a\u{65}\u{301}");
    ed.apply(Key::Char('X'));
    assert_eq!(ed.current_text(), "aX\u{65}\u{301}");
    ed.apply(Key::Home);
    ed.apply(Key::Backspace);
    assert_eq!(ed.cursor_position(), 0);
    ed.apply(Key::End);
    ed.apply(Key::Right);
    assert_eq!(ed.cursor_position(), 3);
    ed.apply(Key::Char(' '));
    match ed.apply(Key::Enter) {
        EditOutcome::Finished(t) => assert_eq!(t, "aX\u{65}\u{301}"),
        _ => panic!("expected the edited text"),
    }
    assert!(matches!(ed.apply(Key::Interrupt), EditOutcome::Cancelled));
}

#[test]
fn cursor_column_counts_display_width() {
    let mut ed = LineEditor::new("a\u{754C}b");
    assert_eq!(ed.cursor_column(21), 25);
    ed.apply(Key::Left);
    assert_eq!(ed.cursor_column(21), 24);
    ed.apply(Key::Home);
    assert_eq!(ed.cursor_column(21), 21);
    assert_eq!(ed.cursor_column(65535), 65535);
}
