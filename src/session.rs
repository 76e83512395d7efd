//! The interactive session: generate a message, present it, let the user
//! accept, edit, regenerate or cancel, then commit.
//!
//! The session decides; its driver performs each returned [`Action`] (calls
//! the generation backend, draws, reads keys, runs the commit) and hands the
//! result back as an [`Event`].
use vstd::prelude::*;
use crate::editor::{EditOutcome, Key, LineEditor, clusters_after, cursor_after};
use crate::message::{clean_commit_message, clean_commit_message_from_ai, normalize};
use crate::text::{chars_of, trim, trim_chars};

verus! {

/// Where the session stands.
#[derive(Clone, Copy, Debug, PartialEq, Eq, Structural)]
pub enum Phase {
    /// Waiting for the backend's text.
    Generating,
    /// The candidate is shown with its menu.
    Presenting,
    /// The user edits the message in raw input mode.
    Editing,
    /// The edited message is shown with its menu.
    Confirming,
    /// Waiting for the commit to run.
    Committing,
    /// Nothing more happens.
    Finished,
}

/// Choices of the menu under a generated message.
#[derive(Clone, Copy, Debug, PartialEq, Eq, Structural)]
pub enum MenuChoice {
    Accept,
    Edit,
    Regenerate,
    Cancel,
}

/// Choices of the menu under an edited message.
#[derive(Clone, Copy, Debug, PartialEq, Eq, Structural)]
pub enum ConfirmChoice {
    Use,
    EditAgain,
    Cancel,
}

/// How running the commit went.
#[derive(Clone, Copy, Debug, PartialEq, Eq, Structural)]
pub enum CommitOutcome {
    /// The commit exited with status zero.
    Succeeded,
    /// The commit ran and exited with another status (`-1` when it had none).
    ExitedWithCode(i32),
    /// The commit could not be started.
    NotStarted,
}

/// What the driver reports back.
pub enum Event {
    /// The backend's raw text.
    Generated(String),
    /// The backend could not be reached, timed out, or answered in another shape.
    GenerationFailed,
    Menu(MenuChoice),
    Key(Key),
    Confirm(ConfirmChoice),
    CommitFinished(CommitOutcome),
}

/// What the driver is asked to do next.
pub enum Action {
    /// Say that nothing is staged, and stop.
    ReportNoChanges,
    /// Ask the backend for a message.
    Generate,
    /// Show this message and the accept / edit / regenerate / cancel menu.
    Present(String),
    /// Enter raw input mode and show the editor's line.
    StartEditing,
    /// Redraw the editor's line.
    Redraw,
    /// Leave raw input mode; show this edited message and its menu.
    PresentEdited(String),
    /// Commit with this message.
    Commit(String),
    /// Say that the user cancelled, and stop.
    ReportCancelled,
    /// Say that generation failed, and stop.
    ReportFailure,
    /// Say how the commit of this message went, and stop.
    ReportCommit(CommitOutcome, String),
    /// Nothing to do: the event does not apply here.
    Nothing,
}

/// The session's working state.
pub struct Session {
    pub phase: Phase,
    /// The message shown under the main menu.
    pub candidate: String,
    /// The message shown under the confirmation menu.
    pub edited: String,
    /// The message being committed.
    pub pending: String,
    pub editor: LineEditor,
    /// Whether generated messages get a glyph.
    pub decorate: bool,
    /// Whether the terminal is in raw input mode.
    pub raw_mode: bool,
}

impl Session {
    /// The editor is well formed, and raw input mode is on exactly while editing.
    pub open spec fn wf(&self) -> bool {
        &&& self.editor.wf()
        &&& self.raw_mode <==> self.phase == Phase::Editing
    }
}

/// `t` and `a` are what `s` becomes and asks for on event `e`.
pub open spec fn transition(s: Session, e: Event, t: Session, a: Action) -> bool {
    let unchanged = t == s && a is Nothing;
    &&& t.decorate == s.decorate
    &&& match s.phase {
        Phase::Generating => match e {
            Event::Generated(raw) => {
                &&& t.phase == Phase::Presenting
                &&& t.candidate@ == normalize(raw@, s.decorate)
                &&& a is Present && a->Present_0@ == t.candidate@
                &&& !t.raw_mode
                &&& t.editor == s.editor
            },
            Event::GenerationFailed => t.phase == Phase::Finished && !t.raw_mode
                && a is ReportFailure && t.editor == s.editor,
            _ => unchanged,
        },
        Phase::Presenting => match e {
            Event::Menu(MenuChoice::Accept) => {
                &&& t.phase == Phase::Committing
                &&& t.pending@ == s.candidate@
                &&& a is Commit && a->Commit_0@ == s.candidate@
                &&& !t.raw_mode
                &&& t.editor == s.editor
            },
            Event::Menu(MenuChoice::Edit) => {
                &&& t.phase == Phase::Editing
                &&& t.raw_mode
                &&& t.candidate == s.candidate
                &&& t.editor.wf() && t.editor.seeded_with(s.candidate@)
                &&& a is StartEditing
            },
            Event::Menu(MenuChoice::Regenerate) => t.phase == Phase::Generating && !t.raw_mode
                && a is Generate && t.editor == s.editor,
            Event::Menu(MenuChoice::Cancel) => t.phase == Phase::Finished && !t.raw_mode
                && a is ReportCancelled && t.editor == s.editor,
            _ => unchanged,
        },
        Phase::Editing => match e {
            Event::Key(Key::Enter) => {
                &&& t.phase == Phase::Confirming
                &&& !t.raw_mode
                &&& t.candidate == s.candidate
                &&& t.edited@ == normalize(trim(s.editor.text()), false)
                &&& a is PresentEdited && a->PresentEdited_0@ == t.edited@
                &&& t.editor.wf()
            },
            Event::Key(Key::Interrupt) => {
                &&& t.phase == Phase::Presenting
                &&& !t.raw_mode
                &&& t.candidate == s.candidate
                &&& a is Present && a->Present_0@ == s.candidate@
                &&& t.editor.wf()
            },
            Event::Key(k) => {
                &&& t.phase == Phase::Editing
                &&& t.raw_mode
                &&& t.candidate == s.candidate
                &&& t.editor.clusters() == clusters_after(
                    s.editor.clusters(),
                    s.editor.cursor as int,
                    k,
                )
                &&& t.editor.cursor == cursor_after(s.editor.clusters(), s.editor.cursor as int, k)
                &&& a is Redraw
            },
            _ => unchanged,
        },
        Phase::Confirming => match e {
            Event::Confirm(ConfirmChoice::Use) => {
                &&& t.phase == Phase::Committing
                &&& t.pending@ == s.edited@
                &&& a is Commit && a->Commit_0@ == s.edited@
                &&& !t.raw_mode
                &&& t.editor == s.editor
            },
            Event::Confirm(ConfirmChoice::EditAgain) => {
                &&& t.phase == Phase::Editing
                &&& t.raw_mode
                &&& t.candidate == s.candidate
                &&& t.editor.wf() && t.editor.seeded_with(s.edited@)
                &&& a is StartEditing
            },
            Event::Confirm(ConfirmChoice::Cancel) => t.phase == Phase::Finished && !t.raw_mode
                && a is ReportCancelled && t.editor == s.editor,
            _ => unchanged,
        },
        Phase::Committing => match e {
            Event::CommitFinished(o) => {
                &&& t.phase == Phase::Finished
                &&& !t.raw_mode
                &&& a is ReportCommit && a->ReportCommit_0 == o && a->ReportCommit_1@ == s.pending@
                &&& t.editor == s.editor
            },
            _ => unchanged,
        },
        Phase::Finished => unchanged,
    }
}

/// `s` is how a session on a diff of text `diff` starts.
pub open spec fn started(diff: Seq<char>, s: Session) -> bool {
    &&& s.wf()
    &&& !s.raw_mode
    &&& trim(diff).len() == 0 ==> s.phase == Phase::Finished
    &&& trim(diff).len() > 0 ==> s.phase == Phase::Generating
}

/// `states`, `events` and `actions` form a run of the session from
/// `states[0]`: each state goes to the next on its event, asking for the
/// action of the same index.
pub open spec fn is_run(states: Seq<Session>, events: Seq<Event>, actions: Seq<Action>) -> bool {
    &&& states.len() == events.len() + 1
    &&& actions.len() == events.len()
    &&& forall|i: int|
        0 <= i < events.len() ==> #[trigger] transition(states[i], events[i], states[i + 1], actions[i])
}

impl Session {
    /// Starts a session on a filtered diff: with nothing but white space in
    /// it the session reports that there is nothing to commit and finishes,
    /// otherwise it asks for a message.
    pub fn start(diff: &str, decorate: bool) -> (r: (Session, Action))
        ensures
            r.0.wf(),
            started(diff@, r.0),
            r.0.decorate == decorate,
            !r.0.raw_mode,
            trim(diff@).len() == 0 ==> r.0.phase == Phase::Finished && r.1 is ReportNoChanges,
            trim(diff@).len() > 0 ==> r.0.phase == Phase::Generating && r.1 is Generate,
    {
        let empty = trim_chars(&chars_of(diff)).len() == 0;
        let phase = if empty {
            Phase::Finished
        } else {
            Phase::Generating
        };
        let session = Session {
            phase,
            candidate: String::new(),
            edited: String::new(),
            pending: String::new(),
            editor: LineEditor::new(""),
            decorate,
            raw_mode: false,
        };
        if empty {
            (session, Action::ReportNoChanges)
        } else {
            (session, Action::Generate)
        }
    }

    /// Handles one event and says what to do next.
    pub fn step(&mut self, event: Event) -> (a: Action)
        requires
            old(self).wf(),
        ensures
            final(self).wf(),
            transition(*old(self), event, *final(self), a),
    {
        match self.phase {
            Phase::Generating => match event {
                Event::Generated(raw) => {
                    let message = clean_commit_message_from_ai(raw.as_str(), self.decorate);
                    self.candidate = message.clone();
                    self.phase = Phase::Presenting;
                    Action::Present(message)
                },
                Event::GenerationFailed => {
                    self.phase = Phase::Finished;
                    Action::ReportFailure
                },
                _ => Action::Nothing,
            },
            Phase::Presenting => match event {
                Event::Menu(MenuChoice::Accept) => {
                    self.pending = self.candidate.clone();
                    self.phase = Phase::Committing;
                    Action::Commit(self.candidate.clone())
                },
                Event::Menu(MenuChoice::Edit) => {
                    self.editor = LineEditor::new(self.candidate.as_str());
                    self.phase = Phase::Editing;
                    self.raw_mode = true;
                    Action::StartEditing
                },
                Event::Menu(MenuChoice::Regenerate) => {
                    self.phase = Phase::Generating;
                    Action::Generate
                },
                Event::Menu(MenuChoice::Cancel) => {
                    self.phase = Phase::Finished;
                    Action::ReportCancelled
                },
                _ => Action::Nothing,
            },
            Phase::Editing => match event {
                Event::Key(k) => match self.editor.apply(k) {
                    EditOutcome::Finished(text) => {
                        let cleaned = clean_commit_message(text.as_str());
                        self.edited = cleaned.clone();
                        self.phase = Phase::Confirming;
                        self.raw_mode = false;
                        Action::PresentEdited(cleaned)
                    },
                    EditOutcome::Cancelled => {
                        self.phase = Phase::Presenting;
                        self.raw_mode = false;
                        Action::Present(self.candidate.clone())
                    },
                    EditOutcome::Continue => Action::Redraw,
                },
                _ => Action::Nothing,
            },
            Phase::Confirming => match event {
                Event::Confirm(ConfirmChoice::Use) => {
                    self.pending = self.edited.clone();
                    self.phase = Phase::Committing;
                    Action::Commit(self.edited.clone())
                },
                Event::Confirm(ConfirmChoice::EditAgain) => {
                    self.editor = LineEditor::new(self.edited.as_str());
                    self.phase = Phase::Editing;
                    self.raw_mode = true;
                    Action::StartEditing
                },
                Event::Confirm(ConfirmChoice::Cancel) => {
                    self.phase = Phase::Finished;
                    Action::ReportCancelled
                },
                _ => Action::Nothing,
            },
            Phase::Committing => match event {
                Event::CommitFinished(o) => {
                    self.phase = Phase::Finished;
                    Action::ReportCommit(o, self.pending.clone())
                },
                _ => Action::Nothing,
            },
            Phase::Finished => Action::Nothing,
        }
    }
}

/// A finished session stays as it is and asks for nothing, whatever happens:
/// in particular it never commits.
pub proof fn lemma_finished_is_final(s: Session, e: Event, t: Session, a: Action)
    requires
        s.phase == Phase::Finished,
        transition(s, e, t, a),
    ensures
        t == s,
        a is Nothing,
{
}

/// Cancelling at the main menu ends the session without a commit and with raw
/// input mode off.
pub proof fn lemma_cancel_at_menu(s: Session, t: Session, a: Action)
    requires
        s.phase == Phase::Presenting,
        transition(s, Event::Menu(MenuChoice::Cancel), t, a),
    ensures
        t.phase == Phase::Finished,
        !t.raw_mode,
        !(a is Commit),
{
}

/// A commit is asked for only from a menu, on accepting or using a message,
/// and the session then waits for that commit alone.
pub proof fn lemma_commit_only_when_chosen(s: Session, e: Event, t: Session, a: Action)
    requires
        transition(s, e, t, a),
        a is Commit,
    ensures
        (s.phase == Phase::Presenting && e == Event::Menu(MenuChoice::Accept)) || (s.phase
            == Phase::Confirming && e == Event::Confirm(ConfirmChoice::Use)),
        t.phase == Phase::Committing,
{
}

proof fn lemma_finished_run(states: Seq<Session>, events: Seq<Event>, actions: Seq<Action>, k: int)
    requires
        is_run(states, events, actions),
        0 <= k < states.len(),
        states[k].phase == Phase::Finished,
    ensures
        forall|j: int| k <= j < states.len() ==> states[j] == states[k],
        forall|i: int| k <= i < actions.len() ==> actions[i] is Nothing,
    decreases states.len() - k,
{
    if k + 1 < states.len() {
        assert(transition(states[k], events[k], states[k + 1], actions[k]));
        lemma_finished_run(states, events, actions, k + 1);
    }
}

proof fn lemma_after_commit(states: Seq<Session>, events: Seq<Event>, actions: Seq<Action>, i: int, j: int)
    requires
        is_run(states, events, actions),
        0 <= i < actions.len(),
        actions[i] is Commit,
        i < j < states.len(),
    ensures
        states[j].phase == Phase::Committing || states[j].phase == Phase::Finished,
    decreases j - i,
{
    assert(transition(states[i], events[i], states[i + 1], actions[i]));
    if j > i + 1 {
        lemma_after_commit(states, events, actions, i, j - 1);
        let m = j - 1;
        assert(transition(states[m], events[m], states[m + 1], actions[m]));
        assert(m + 1 == j);
    }
}

/// A session started on a diff with nothing but white space finishes at
/// once and, whatever events follow, never asks for a commit.
pub proof fn lemma_empty_diff_never_commits(
    diff: Seq<char>,
    states: Seq<Session>,
    events: Seq<Event>,
    actions: Seq<Action>,
)
    requires
        trim(diff).len() == 0,
        started(diff, states[0]),
        is_run(states, events, actions),
    ensures
        states[0].phase == Phase::Finished,
        forall|i: int| 0 <= i < actions.len() ==> !(actions[i] is Commit),
{
    lemma_finished_run(states, events, actions, 0);
}

/// In a run where the user cancels at the main menu, no commit is ever asked
/// for, and raw input mode stays off from the cancel on.
pub proof fn lemma_cancel_never_commits(
    diff: Seq<char>,
    states: Seq<Session>,
    events: Seq<Event>,
    actions: Seq<Action>,
    k: int,
)
    requires
        started(diff, states[0]),
        is_run(states, events, actions),
        0 <= k < events.len(),
        states[k].phase == Phase::Presenting,
        events[k] == Event::Menu(MenuChoice::Cancel),
    ensures
        forall|i: int| 0 <= i < actions.len() ==> !(actions[i] is Commit),
        forall|j: int| k < j < states.len() ==> !states[j].raw_mode,
{
    assert(transition(states[k], events[k], states[k + 1], actions[k]));
    lemma_finished_run(states, events, actions, k + 1);
    assert forall|i: int| 0 <= i < actions.len() implies !(actions[i] is Commit) by {
        if actions[i] is Commit {
            if i < k {
                lemma_after_commit(states, events, actions, i, k);
            } else if i > k {
                assert(actions[i] is Nothing);
            }
        }
    }
    assert forall|j: int| k < j < states.len() implies !states[j].raw_mode by {
        assert(states[j] == states[k + 1]);
    }
}

} // verus!
