use vstd::prelude::*;

use crate::git::RepoError;

verus! {

/// A key press, reduced to what the picker distinguishes.
#[derive(Clone, Copy, Debug, PartialEq, Eq, Structural)]
pub enum Key {
    Up,
    Down,
    Enter,
    Char(char),
    Other,
}

/// The key that ends the session.
pub open spec fn is_quit(k: Key) -> bool {
    k == Key::Char('q')
}

/// The model of an optional branch name.
pub open spec fn name_view(n: Option<String>) -> Option<Seq<char>> {
    match n {
        Some(s) => Some(s@),
        None => None,
    }
}

/// The picker's state: the branch list, the selection, the branch HEAD was
/// last seen on, and the outcome of the last action.
pub struct AppState {
    pub branches: Vec<String>,
    pub selected_index: usize,
    pub current_branch: Option<String>,
    pub message: String,
}

/// The mathematical model of `AppState`.
pub struct AppView {
    pub branches: Seq<Seq<char>>,
    pub selected: nat,
    pub current: Option<Seq<char>>,
    pub message: Seq<char>,
}

impl View for AppState {
    type V = AppView;

    open spec fn view(&self) -> AppView {
        AppView {
            branches: self.branches@.map_values(|s: String| s@),
            selected: self.selected_index as nat,
            current: name_view(self.current_branch),
            message: self.message@,
        }
    }
}

/// What the caller has to do after an event was handled.
pub enum Step {
    /// Nothing: draw the new state and wait for the next key.
    Continue,
    /// Leave the session.
    Exit,
    /// Check out the named branch, then report with `checkout_finished`.
    Checkout(String),
}

/// The model of `Step`.
pub enum StepView {
    Continue,
    Exit,
    Checkout(Seq<char>),
}

impl View for Step {
    type V = StepView;

    open spec fn view(&self) -> StepView {
        match self {
            Step::Continue => StepView::Continue,
            Step::Exit => StepView::Exit,
            Step::Checkout(b) => StepView::Checkout(b@),
        }
    }
}

impl AppView {
    /// The selection points into the list, or is 0 when the list is empty.
    pub open spec fn wf(&self) -> bool {
        self.selected == 0 || self.selected < self.branches.len()
    }

    /// The branch under the selection, when the list is not empty.
    pub open spec fn selected_branch(&self) -> Seq<char> {
        self.branches[self.selected as int]
    }

    /// The selection is the branch that HEAD was last seen on.
    pub open spec fn on_selected(&self) -> bool {
        self.current == Some(self.selected_branch())
    }
}

/// The message for confirming the branch that is already checked out.
pub open spec fn already_message(b: Seq<char>) -> Seq<char> {
    "already on this branch: "@ + b
}

/// The message for a checkout that moved HEAD to branch `b`.
pub open spec fn changed_message(b: Seq<char>) -> Seq<char> {
    "Branch was changed to: "@ + b
}

/// The message for a checkout of `target` that the backend refused.
pub open spec fn failed_message(target: Seq<char>, reason: Seq<char>) -> Seq<char> {
    "Failed to checkout branch "@ + target + ": "@ + reason
}

/// The message for a checkout of `target` after which HEAD names no branch.
pub open spec fn unknown_head_message(target: Seq<char>) -> Seq<char> {
    "Checked out "@ + target + ", but HEAD does not name a branch"@
}

/// The selection after a key: up and down move by one and stop at the ends.
pub open spec fn index_after(len: nat, i: nat, k: Key) -> nat {
    match k {
        Key::Up => if i > 0 { (i - 1) as nat } else { i },
        Key::Down => if i + 1 < len { i + 1 } else { i },
        _ => i,
    }
}

/// The state after a key.
pub open spec fn after_key(v: AppView, k: Key) -> AppView {
    match k {
        Key::Up | Key::Down => AppView {
            selected: index_after(v.branches.len(), v.selected, k),
            ..v
        },
        Key::Enter => if v.branches.len() > 0 && v.on_selected() {
            AppView { message: already_message(v.selected_branch()), ..v }
        } else {
            v
        },
        _ => v,
    }
}

/// What a key asks of the caller.
pub open spec fn step_for(v: AppView, k: Key) -> StepView {
    if is_quit(k) {
        StepView::Exit
    } else if k == Key::Enter && v.branches.len() > 0 && !v.on_selected() {
        StepView::Checkout(v.selected_branch())
    } else {
        StepView::Continue
    }
}

/// The state after the backend answered a checkout of `target`:
/// unchanged on success, a failure message otherwise.
pub open spec fn after_checkout(v: AppView, target: Seq<char>, failure: Option<Seq<char>>) -> AppView {
    match failure {
        None => v,
        Some(reason) => AppView { message: failed_message(target, reason), ..v },
    }
}

/// The state after HEAD was queried following a successful checkout of
/// `target`: the branch HEAD names becomes current, else only the message
/// changes.
pub open spec fn after_head_query(v: AppView, target: Seq<char>, head: Option<Seq<char>>) -> AppView {
    match head {
        Some(b) => AppView { current: Some(b), message: changed_message(b), ..v },
        None => AppView { message: unknown_head_message(target), ..v },
    }
}

/// The model of a checkout's answer: `None` on success, else its reason.
pub open spec fn failure_of(r: Result<(), RepoError>) -> Option<Seq<char>> {
    match r {
        Ok(()) => None,
        Err(e) => Some(e.reason_view()),
    }
}

/// The model of a HEAD query's answer: the branch it names, if any.
pub open spec fn head_of(r: Result<String, RepoError>) -> Option<Seq<char>> {
    match r {
        Ok(b) => Some(b@),
        Err(_) => None,
    }
}

impl AppState {
    pub open spec fn wf(&self) -> bool {
        self@.wf()
    }

    /// A fresh session: the selection on the first branch, no message.
    pub fn new(branches: Vec<String>, current_branch: Option<String>) -> (r: AppState)
        ensures
            r.wf(),
            r@.branches == branches@.map_values(|s: String| s@),
            r@.selected == 0,
            r@.current == name_view(current_branch),
            r@.message.len() == 0,
    {
        AppState { branches, selected_index: 0, current_branch, message: String::new() }
    }
}

fn concat2(a: &str, b: &str) -> (r: String)
    ensures
        r@ == a@ + b@,
{
    let mut r = String::from_str(a);
    r.append(b);
    r
}

/// Handles one key: moves the selection, answers a confirm of the current
/// branch itself, and says whether a checkout is needed or the session ends.
pub fn process_event(state: &mut AppState, key: Key) -> (r: Step)
    requires
        old(state).wf(),
    ensures
        final(state).wf(),
        final(state)@ == after_key(old(state)@, key),
        r@ == step_for(old(state)@, key),
{
    let ghost v = state@;
    let len = state.branches.len();
    match key {
        Key::Char('q') => Step::Exit,
        Key::Up => {
            if state.selected_index > 0 {
                state.selected_index = state.selected_index - 1;
            }
            assert(state@ =~= after_key(v, key));
            Step::Continue
        },
        Key::Down => {
            if state.selected_index + 1 < len {
                state.selected_index = state.selected_index + 1;
            }
            assert(state@ =~= after_key(v, key));
            Step::Continue
        },
        Key::Enter => {
            if len == 0 {
                return Step::Continue;
            }
            let i = state.selected_index;
            assert(v.selected_branch() == state.branches@[i as int]@);
            let same = match &state.current_branch {
                Some(c) => *c == state.branches[i],
                None => false,
            };
            if same {
                state.message = concat2("already on this branch: ", state.branches[i].as_str());
                assert(state@ =~= after_key(v, key));
                Step::Continue
            } else {
                Step::Checkout(state.branches[i].clone())
            }
        },
        _ => Step::Continue,
    }
}

/// Records the backend's answer to a checkout of `target`. Returns whether
/// HEAD must now be queried (and the answer given to `head_queried`).
pub fn checkout_finished(state: &mut AppState, target: &str, outcome: Result<(), RepoError>) -> (query_head: bool)
    requires
        old(state).wf(),
    ensures
        final(state).wf(),
        final(state)@ == after_checkout(old(state)@, target@, failure_of(outcome)),
        query_head == outcome is Ok,
{
    match outcome {
        Ok(()) => true,
        Err(e) => {
            let reason = e.reason();
            let mut m = concat2("Failed to checkout branch ", target);
            m.append(": ");
            m.append(reason.as_str());
            state.message = m;
            false
        },
    }
}

/// Records which branch HEAD names after a successful checkout of `target`.
/// A HEAD that names no branch leaves the current branch as it was.
pub fn head_queried(state: &mut AppState, target: &str, head: Result<String, RepoError>)
    requires
        old(state).wf(),
    ensures
        final(state).wf(),
        final(state)@ == after_head_query(old(state)@, target@, head_of(head)),
{
    match head {
        Ok(b) => {
            state.message = concat2("Branch was changed to: ", b.as_str());
            state.current_branch = Some(b);
        },
        Err(_) => {
            let mut m = concat2("Checked out ", target);
            m.append(", but HEAD does not name a branch");
            state.message = m;
        },
    }
}

} // verus!
