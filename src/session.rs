//! The edit session: pull (unless offline), edit, then add, commit and push
//! (unless offline). A failed pull only warns; a failed editor launch, add,
//! commit or push ends the session, and no later step runs.
//!
//! The session decides; its caller acts. [`Session::step`] takes the outcome
//! of the action it asked for last and returns the next one.

use vstd::prelude::*;
use vstd::string::StringExecFns;
use crate::config::JournalError;
use crate::repo::{git_prefix, strs, Repo};
use crate::config::Config;
use crate::page::{template_path, template_path_of, PagePlan};

verus! {

#[derive(Clone, Copy, Debug, PartialEq, Eq, Structural)]
pub enum Phase {
    Idle,
    Pulling,
    Editing,
    Staging,
    Committing,
    Pushing,
    Done,
    Failed(JournalError),
}

/// What the caller is asked to do next.
#[derive(Clone, Copy, Debug, PartialEq, Eq, Structural)]
pub enum Action {
    /// Pull from the remote.
    Pull,
    /// Run the editor on the target; `stale` when the pull before failed,
    /// which the caller reports as a warning.
    Edit { stale: bool },
    /// Stage the target.
    Add,
    /// Commit with the session's message.
    Commit,
    /// Push to the remote.
    Push,
    /// The session is over.
    Finish,
    /// The session failed with this error.
    Abort(JournalError),
}

/// Whether an action is a version-control operation.
pub open spec fn is_vcs(a: Action) -> bool {
    a is Pull || a is Add || a is Commit || a is Push
}

/// The next phase and action, from the current phase, the mode and the
/// outcome of the action asked for in the current phase.
pub open spec fn transition(phase: Phase, offline: bool, ok: bool) -> (Phase, Action) {
    match phase {
        Phase::Idle => if offline {
            (Phase::Editing, Action::Edit { stale: false })
        } else {
            (Phase::Pulling, Action::Pull)
        },
        Phase::Pulling => (Phase::Editing, Action::Edit { stale: !ok }),
        Phase::Editing => if !ok {
            (Phase::Failed(JournalError::EditorLaunch), Action::Abort(JournalError::EditorLaunch))
        } else if offline {
            (Phase::Done, Action::Finish)
        } else {
            (Phase::Staging, Action::Add)
        },
        Phase::Staging => if ok {
            (Phase::Committing, Action::Commit)
        } else {
            (Phase::Failed(JournalError::AddFailed), Action::Abort(JournalError::AddFailed))
        },
        Phase::Committing => if ok {
            (Phase::Pushing, Action::Push)
        } else {
            (Phase::Failed(JournalError::CommitFailed), Action::Abort(JournalError::CommitFailed))
        },
        Phase::Pushing => if ok {
            (Phase::Done, Action::Finish)
        } else {
            (Phase::Failed(JournalError::PushFailed), Action::Abort(JournalError::PushFailed))
        },
        Phase::Done => (Phase::Done, Action::Finish),
        Phase::Failed(e) => (Phase::Failed(e), Action::Abort(e)),
    }
}

/// The actions asked for from `phase` on, when the i-th step is handed the
/// i-th outcome.
pub open spec fn run(phase: Phase, offline: bool, outcomes: Seq<bool>) -> Seq<Action>
    decreases outcomes.len(),
{
    if outcomes.len() == 0 {
        seq![]
    } else {
        let (p, a) = transition(phase, offline, outcomes[0]);
        seq![a] + run(p, offline, outcomes.drop_first())
    }
}

/// One edit of one file, with its working tree and commit message.
#[derive(Debug)]
pub struct Session {
    pub repo: Repo,
    pub target: String,
    pub message: String,
    pub offline: bool,
    pub phase: Phase,
}

impl Session {
    pub fn new(repo_root: &str, target: &str, message: &str, offline: bool) -> (r: Session)
        ensures
            r.repo.dir() == repo_root@,
            r.target@ == target@,
            r.message@ == message@,
            r.offline == offline,
            r.phase == Phase::Idle,
    {
        Session {
            repo: Repo::new(repo_root),
            target: String::from_str(target),
            message: String::from_str(message),
            offline,
            phase: Phase::Idle,
        }
    }

    /// Takes the outcome of the last action (ignored on the first step) and
    /// returns the next action.
    pub fn step(&mut self, ok: bool) -> (a: Action)
        ensures
            (final(self).phase, a) == transition(old(self).phase, old(self).offline, ok),
            final(self).offline == old(self).offline,
            final(self).target == old(self).target,
            final(self).message == old(self).message,
            final(self).repo == old(self).repo,
    {
        let (p, a) = match self.phase {
            Phase::Idle => if self.offline {
                (Phase::Editing, Action::Edit { stale: false })
            } else {
                (Phase::Pulling, Action::Pull)
            },
            Phase::Pulling => (Phase::Editing, Action::Edit { stale: !ok }),
            Phase::Editing => if !ok {
                (Phase::Failed(JournalError::EditorLaunch), Action::Abort(JournalError::EditorLaunch))
            } else if self.offline {
                (Phase::Done, Action::Finish)
            } else {
                (Phase::Staging, Action::Add)
            },
            Phase::Staging => if ok {
                (Phase::Committing, Action::Commit)
            } else {
                (Phase::Failed(JournalError::AddFailed), Action::Abort(JournalError::AddFailed))
            },
            Phase::Committing => if ok {
                (Phase::Pushing, Action::Push)
            } else {
                (Phase::Failed(JournalError::CommitFailed), Action::Abort(JournalError::CommitFailed))
            },
            Phase::Pushing => if ok {
                (Phase::Done, Action::Finish)
            } else {
                (Phase::Failed(JournalError::PushFailed), Action::Abort(JournalError::PushFailed))
            },
            Phase::Done => (Phase::Done, Action::Finish),
            Phase::Failed(e) => (Phase::Failed(e), Action::Abort(e)),
        };
        self.phase = p;
        a
    }

    /// The git command line of a version-control action; `None` for the others.
    pub fn command(&self, action: Action) -> (r: Option<Vec<String>>)
        ensures
            r is Some <==> is_vcs(action),
            action is Pull ==> strs(r->0@) == git_prefix(self.repo.dir()) + seq!["pull"@],
            action is Add ==> strs(r->0@) == git_prefix(self.repo.dir()) + seq!["add"@, self.target@],
            action is Commit ==> strs(r->0@) == git_prefix(self.repo.dir()) + seq![
                "commit"@,
                "--message"@,
                self.message@,
            ],
            action is Push ==> strs(r->0@) == git_prefix(self.repo.dir()) + seq!["push"@],
    {
        match action {
            Action::Pull => Some(self.repo.pull()),
            Action::Add => Some(self.repo.add(self.target.as_str())),
            Action::Commit => Some(self.repo.commit(self.message.as_str())),
            Action::Push => Some(self.repo.push()),
            _ => None,
        }
    }
}

/// The session that edits a page; its commit message is `Page updated`.
pub fn page_session(plan: &PagePlan, offline: bool) -> (r: Session)
    ensures
        r.repo.dir() == plan.journal_root@,
        r.target@ == plan.page_path@,
        r.message@ == "Page updated"@,
        r.offline == offline,
        r.phase == Phase::Idle,
{
    Session::new(plan.journal_root.as_str(), plan.page_path.as_str(), "Page updated", offline)
}

/// The session that edits the template of the configured journal; its
/// commit message is `Template updated`.
pub fn template_session(config: &Config, offline: bool) -> (r: Result<Session, JournalError>)
    ensures
        config.path is None <==> r is Err,
        r is Err ==> r == Err::<Session, JournalError>(JournalError::MissingJournalPath),
        r matches Ok(s) ==> {
            &&& s.repo.dir() == config.path->0@
            &&& s.target@ == template_path_of(config.path->0@)
            &&& s.message@ == "Template updated"@
            &&& s.offline == offline
            &&& s.phase == Phase::Idle
        },
{
    let root = match config.journal_root() {
        Ok(r) => r,
        Err(e) => {
            return Err(e);
        },
    };
    let target = template_path(root.as_str());
    Ok(Session::new(root.as_str(), target.as_str(), "Template updated", offline))
}

/// Phases that an offline session can be in.
pub open spec fn offline_phase(p: Phase) -> bool {
    p is Idle || p is Editing || p is Done || p is Failed
}

/// In offline mode no version-control operation is ever asked for, whatever
/// the outcomes.
pub proof fn lemma_offline_never_syncs(outcomes: Seq<bool>)
    ensures
        forall|i: int| 0 <= i < outcomes.len() ==> !is_vcs(#[trigger] run(Phase::Idle, true, outcomes)[i]),
{
    lemma_offline_from(Phase::Idle, outcomes);
}

proof fn lemma_offline_from(p: Phase, outcomes: Seq<bool>)
    requires
        offline_phase(p),
    ensures
        run(p, true, outcomes).len() == outcomes.len(),
        forall|i: int| 0 <= i < outcomes.len() ==> !is_vcs(#[trigger] run(p, true, outcomes)[i]),
    decreases outcomes.len(),
{
    if outcomes.len() > 0 {
        let (q, a) = transition(p, true, outcomes[0]);
        lemma_offline_from(q, outcomes.drop_first());
        let r = run(p, true, outcomes);
        assert forall|i: int| 0 <= i < outcomes.len() implies !is_vcs(#[trigger] r[i]) by {
            if i > 0 {
                assert(r[i] == run(q, true, outcomes.drop_first())[i - 1]);
            }
        }
    }
}

/// A failed pull changes nothing but the warning: an online session pulls,
/// edits, and then stages, commits and pushes exactly as after a successful
/// pull.
pub proof fn lemma_failed_pull_continues(first: bool, rest: Seq<bool>)
    ensures
        run(Phase::Idle, false, seq![first, false] + rest) == seq![
            Action::Pull,
            Action::Edit { stale: true },
        ] + run(Phase::Editing, false, rest),
        run(Phase::Idle, false, seq![first, true] + rest) == seq![
            Action::Pull,
            Action::Edit { stale: false },
        ] + run(Phase::Editing, false, rest),
{
    let f = seq![first, false] + rest;
    let t = seq![first, true] + rest;
    assert(f.drop_first() =~= seq![false] + rest);
    assert(t.drop_first() =~= seq![true] + rest);
    assert((seq![false] + rest).drop_first() =~= rest);
    assert((seq![true] + rest).drop_first() =~= rest);
    let tail = run(Phase::Editing, false, rest);
    assert(run(Phase::Pulling, false, seq![false] + rest) == seq![Action::Edit { stale: true }]
        + tail);
    assert(run(Phase::Pulling, false, seq![true] + rest) == seq![Action::Edit { stale: false }]
        + tail);
    assert(run(Phase::Idle, false, f) == seq![Action::Pull] + (seq![Action::Edit { stale: true }]
        + tail));
    assert(run(Phase::Idle, false, t) == seq![Action::Pull] + (seq![Action::Edit { stale: false }]
        + tail));
    assert(seq![Action::Pull] + (seq![Action::Edit { stale: true }] + tail) =~= seq![
        Action::Pull,
        Action::Edit { stale: true },
    ] + tail);
    assert(seq![Action::Pull] + (seq![Action::Edit { stale: false }] + tail) =~= seq![
        Action::Pull,
        Action::Edit { stale: false },
    ] + tail);
}

/// The phase after the first `n` steps.
pub open spec fn phase_after(phase: Phase, offline: bool, outcomes: Seq<bool>, n: nat) -> Phase
    decreases n,
{
    if n == 0 || outcomes.len() == 0 {
        phase
    } else {
        phase_after(
            transition(phase, offline, outcomes[0]).0,
            offline,
            outcomes.drop_first(),
            (n - 1) as nat,
        )
    }
}

/// The i-th action of a run is the one that the i-th step asks for.
proof fn lemma_run_step(phase: Phase, offline: bool, outcomes: Seq<bool>, i: int)
    requires
        0 <= i < outcomes.len(),
    ensures
        run(phase, offline, outcomes).len() == outcomes.len(),
        run(phase, offline, outcomes)[i] == transition(
            phase_after(phase, offline, outcomes, i as nat),
            offline,
            outcomes[i],
        ).1,
        phase_after(phase, offline, outcomes, (i + 1) as nat) == transition(
            phase_after(phase, offline, outcomes, i as nat),
            offline,
            outcomes[i],
        ).0,
    decreases outcomes.len(),
{
    let (q, a) = transition(phase, offline, outcomes[0]);
    let tail = run(q, offline, outcomes.drop_first());
    assert(run(phase, offline, outcomes) == seq![a] + tail);
    if outcomes.len() == 1 {
        assert(tail.len() == 0);
    }
    assert(phase_after(phase, offline, outcomes, (i + 1) as nat) == phase_after(
        q,
        offline,
        outcomes.drop_first(),
        i as nat,
    ));
    if i > 0 {
        assert(phase_after(phase, offline, outcomes, i as nat) == phase_after(
            q,
            offline,
            outcomes.drop_first(),
            (i - 1) as nat,
        ));
        lemma_run_step(q, offline, outcomes.drop_first(), i - 1);
        assert(outcomes.drop_first()[i - 1] == outcomes[i]);
    } else if outcomes.len() > 1 {
        lemma_run_step(q, offline, outcomes.drop_first(), 0);
    }
}

/// Once an add is asked for and fails, the session only aborts: no commit
/// and no push is asked for after it, whatever the later outcomes.
pub proof fn lemma_failed_add_stops(offline: bool, outcomes: Seq<bool>, i: int, j: int)
    requires
        0 <= i < j < outcomes.len(),
        run(Phase::Idle, offline, outcomes)[i] == Action::Add,
        !outcomes[i + 1],
    ensures
        run(Phase::Idle, offline, outcomes)[j] == Action::Abort(JournalError::AddFailed),
        !(run(Phase::Idle, offline, outcomes)[j] is Commit),
        !(run(Phase::Idle, offline, outcomes)[j] is Push),
    decreases j - i,
{
    lemma_run_step(Phase::Idle, offline, outcomes, i);
    lemma_run_step(Phase::Idle, offline, outcomes, j);
    if j == i + 1 {
        assert(phase_after(Phase::Idle, offline, outcomes, (i + 1) as nat) == Phase::Staging);
    } else {
        lemma_failed_add_stops(offline, outcomes, i, j - 1);
        lemma_run_step(Phase::Idle, offline, outcomes, j - 1);
        let p = phase_after(Phase::Idle, offline, outcomes, (j - 1) as nat);
        assert(transition(p, offline, outcomes[j - 1]).1 == Action::Abort(JournalError::AddFailed));
        assert(phase_after(Phase::Idle, offline, outcomes, j as nat) == Phase::Failed(
            JournalError::AddFailed,
        ));
    }
}

} // verus!
