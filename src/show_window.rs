use vstd::prelude::*;
use vstd::string::StringExecFns;

verus! {

/// The reply of the command when showing the window failed with `cause`.
pub open spec fn show_failure(cause: Seq<char>) -> Seq<char> {
    "Failed to show window: "@ + cause
}

/// The reply of the command when focusing the window failed with `cause`.
pub open spec fn focus_failure(cause: Seq<char>) -> Seq<char> {
    "Failed to set focus: "@ + cause
}

/// Builds the message reported when showing the window failed.
pub fn show_failure_message(cause: &str) -> (r: String)
    ensures
        r@ == show_failure(cause@),
{
    String::from_str("Failed to show window: ").concat(cause)
}

/// Builds the message reported when focusing the window failed.
pub fn focus_failure_message(cause: &str) -> (r: String)
    ensures
        r@ == focus_failure(cause@),
{
    String::from_str("Failed to set focus: ").concat(cause)
}

/// Where a run of the command stands: waiting for the outcome of showing the
/// window, waiting for the outcome of focusing it, or done.
#[derive(Clone, Copy, Debug, PartialEq, Eq, Structural)]
pub enum Stage {
    Showing,
    Focusing,
    Finished,
}

/// What the host is asked to do next: show the window, focus it, or hand the
/// reply back to the caller of the command.
#[derive(Debug, PartialEq, Eq)]
pub enum Action {
    Show,
    SetFocus,
    Reply(Result<(), String>),
}

/// An [`Action`] with its text seen as a sequence of characters.
pub enum ActionView {
    Show,
    SetFocus,
    Reply(Result<(), Seq<char>>),
}

/// The outcome of a window call, or a reply, with its text seen as characters.
pub open spec fn outcome_view(o: Result<(), String>) -> Result<(), Seq<char>> {
    match o {
        Ok(()) => Ok(()),
        Err(e) => Err(e@),
    }
}

impl View for Action {
    type V = ActionView;

    open spec fn view(&self) -> ActionView {
        match self {
            Action::Show => ActionView::Show,
            Action::SetFocus => ActionView::SetFocus,
            Action::Reply(o) => ActionView::Reply(outcome_view(*o)),
        }
    }
}

/// The stage and action that follow when a run at `stage` learns `outcome` of
/// the call it asked for. Only a run that is not finished takes an outcome.
pub open spec fn transition(stage: Stage, outcome: Result<(), Seq<char>>) -> (Stage, ActionView)
    recommends
        stage != Stage::Finished,
{
    match stage {
        Stage::Showing => match outcome {
            Ok(()) => (Stage::Focusing, ActionView::SetFocus),
            Err(cause) => (Stage::Finished, ActionView::Reply(Err(show_failure(cause)))),
        },
        Stage::Focusing => match outcome {
            Ok(()) => (Stage::Finished, ActionView::Reply(Ok(()))),
            Err(cause) => (Stage::Finished, ActionView::Reply(Err(focus_failure(cause)))),
        },
        Stage::Finished => vstd::pervasive::arbitrary(),
    }
}

/// The reply of a whole run in which showing gave `shown` and, where it was
/// asked for, focusing gave `focused`.
pub open spec fn command_reply(
    shown: Result<(), Seq<char>>,
    focused: Result<(), Seq<char>>,
) -> Result<(), Seq<char>> {
    match shown {
        Err(cause) => Err(show_failure(cause)),
        Ok(()) => match focused {
            Ok(()) => Ok(()),
            Err(cause) => Err(focus_failure(cause)),
        },
    }
}

impl Stage {
    /// Starts a run: the window is to be shown first.
    pub fn begin() -> (r: (Stage, Action))
        ensures
            r.0 == Stage::Showing,
            r.1@ == ActionView::Show,
    {
        (Stage::Showing, Action::Show)
    }

    /// Takes the outcome of the call that this stage asked for and gives the
    /// next stage and action. A failed call ends the run with a reply that
    /// names the step and carries the cause's text.
    pub fn step(self, outcome: Result<(), String>) -> (r: (Stage, Action))
        requires
            self != Stage::Finished,
        ensures
            (r.0, r.1@) == transition(self, outcome_view(outcome)),
    {
        match self {
            Stage::Showing => match outcome {
                Ok(()) => (Stage::Focusing, Action::SetFocus),
                Err(cause) => (Stage::Finished, Action::Reply(Err(show_failure_message(cause.as_str())))),
            },
            Stage::Focusing => match outcome {
                Ok(()) => (Stage::Finished, Action::Reply(Ok(()))),
                Err(cause) => (Stage::Finished, Action::Reply(Err(focus_failure_message(cause.as_str())))),
            },
            Stage::Finished => (Stage::Finished, Action::Reply(Ok(()))),
        }
    }
}

/// A run goes show, then focus. Where showing fails, the run ends at once with
/// the show failure and focusing is never asked for. Where showing succeeds,
/// focusing is asked for, and its outcome ends the run: success where it
/// succeeds, the focus failure where it fails.
pub proof fn lemma_run_replies(shown: Result<(), Seq<char>>, focused: Result<(), Seq<char>>)
    ensures
        shown is Err ==> transition(Stage::Showing, shown) == (
            Stage::Finished,
            ActionView::Reply(command_reply(shown, focused)),
        ),
        shown is Ok ==> transition(Stage::Showing, shown) == (Stage::Focusing, ActionView::SetFocus),
        shown is Ok ==> transition(Stage::Focusing, focused) == (
            Stage::Finished,
            ActionView::Reply(command_reply(shown, focused)),
        ),
        command_reply(shown, focused) is Ok <==> (shown is Ok && focused is Ok),
{
}

/// A failure reply begins with the text that names the failed step, and ends
/// with the cause's own text, unchanged.
pub proof fn lemma_failure_text(cause: Seq<char>)
    ensures
        show_failure(cause).subrange(0, "Failed to show window"@.len() as int)
            == "Failed to show window"@,
        show_failure(cause).subrange(
            show_failure(cause).len() - cause.len(),
            show_failure(cause).len() as int,
        ) == cause,
        focus_failure(cause).subrange(0, "Failed to set focus"@.len() as int)
            == "Failed to set focus"@,
        focus_failure(cause).subrange(
            focus_failure(cause).len() - cause.len(),
            focus_failure(cause).len() as int,
        ) == cause,
{
    reveal_strlit("Failed to show window: ");
    reveal_strlit("Failed to show window");
    reveal_strlit("Failed to set focus: ");
    reveal_strlit("Failed to set focus");
    assert(show_failure(cause).subrange(0, "Failed to show window"@.len() as int)
        =~= "Failed to show window"@);
    assert(show_failure(cause).subrange(
        show_failure(cause).len() - cause.len(),
        show_failure(cause).len() as int,
    ) =~= cause);
    assert(focus_failure(cause).subrange(0, "Failed to set focus"@.len() as int)
        =~= "Failed to set focus"@);
    assert(focus_failure(cause).subrange(
        focus_failure(cause).len() - cause.len(),
        focus_failure(cause).len() as int,
    ) =~= cause);
}

} // verus!
