use vstd::prelude::*;

use crate::git::RepoError;
use crate::input::{
    after_checkout, after_head_query, after_key, already_message, failed_message, failure_of,
    step_for, AppView, Key, StepView,
};

verus! {

/// The state after a sequence of keys, handled one at a time in order.
pub open spec fn after_keys(v: AppView, keys: Seq<Key>) -> AppView
    decreases keys.len(),
{
    if keys.len() == 0 {
        v
    } else {
        after_key(after_keys(v, keys.drop_last()), keys.last())
    }
}

/// Whatever keys arrive, the selection stays inside the branch list (or at 0
/// for an empty list), and the list itself is never changed by a key.
pub proof fn navigation_stays_in_bounds(v: AppView, keys: Seq<Key>)
    requires
        v.wf(),
    ensures
        after_keys(v, keys).wf(),
        after_keys(v, keys).branches == v.branches,
        v.branches.len() > 0 ==> after_keys(v, keys).selected < v.branches.len(),
    decreases keys.len(),
{
    if keys.len() > 0 {
        navigation_stays_in_bounds(v, keys.drop_last());
    }
}

/// Moving down from the last row and moving up from the first row change
/// nothing.
pub proof fn moves_stop_at_the_ends(v: AppView)
    requires
        v.wf(),
        v.branches.len() > 0,
    ensures
        v.selected + 1 == v.branches.len() ==> after_key(v, Key::Down) == v,
        v.selected == 0 ==> after_key(v, Key::Up) == v,
{
}

/// Confirming the branch that is already current, any number of times, asks
/// for no checkout and always leaves the same "already on this branch"
/// message.
pub proof fn confirming_current_is_idempotent(v: AppView, keys: Seq<Key>)
    requires
        v.wf(),
        v.branches.len() > 0,
        v.on_selected(),
        keys.len() > 0,
        forall|i: int| 0 <= i < keys.len() ==> keys[i] == Key::Enter,
    ensures
        after_keys(v, keys) == after_key(v, Key::Enter),
        after_keys(v, keys).message == already_message(v.selected_branch()),
        forall|i: int| 0 <= i < keys.len() ==> step_for(#[trigger] after_keys(v, keys.take(i)), Key::Enter) == StepView::Continue,
    decreases keys.len(),
{
    let w = after_key(v, Key::Enter);
    assert(after_keys(v, seq![]) == v);
    if keys.len() == 1 {
        assert(keys.drop_last() =~= seq![]);
        assert(keys.take(0) =~= seq![]);
    } else {
        let front = keys.drop_last();
        confirming_current_is_idempotent(v, front);
        assert forall|i: int| 0 <= i < keys.len() implies step_for(#[trigger] after_keys(v, keys.take(i)), Key::Enter) == StepView::Continue by {
            if i < front.len() {
                assert(keys.take(i) =~= front.take(i));
            } else {
                assert(keys.take(i) =~= front);
            }
            if i == 0 {
                assert(keys.take(0) =~= seq![]);
            }
        };
    }
}

/// A successful checkout of `target` followed by a HEAD query that names
/// `target` makes `target` the current branch.
pub proof fn checkout_round_trip(v: AppView, target: Seq<char>)
    ensures
        after_head_query(after_checkout(v, target, failure_of(Ok(()))), target, Some(target)).current == Some(target),
{
}

/// A refused checkout leaves the current branch, the list and the selection
/// as they were, and its message carries the backend's reason verbatim.
pub proof fn checkout_failure_is_isolated(v: AppView, target: Seq<char>, reason: String)
    ensures
        ({
            let w = after_checkout(v, target, failure_of(Err(RepoError::CheckoutFailed(reason))));
            &&& w.current == v.current
            &&& w.branches == v.branches
            &&& w.selected == v.selected
            &&& w.message == failed_message(target, reason@)
            &&& exists|k: int| 0 <= k && k + reason@.len() <= w.message.len()
                && #[trigger] w.message.subrange(k, k + reason@.len()) == reason@
        }),
{
    let w = after_checkout(v, target, failure_of(Err(RepoError::CheckoutFailed(reason))));
    let k = w.message.len() - reason@.len();
    assert(w.message.subrange(k, k + reason@.len()) =~= reason@);
}

/// On three branches, starting on the first: down, down, up leaves the
/// selection on the second branch, and confirming then asks to check it out
/// unless it is already current.
pub proof fn down_down_up_then_confirm(v: AppView)
    requires
        v.branches.len() == 3,
        v.selected == 0,
        v.current != Some(v.branches[1]),
    ensures
        after_keys(v, seq![Key::Down, Key::Down, Key::Up]).selected == 1,
        step_for(after_keys(v, seq![Key::Down, Key::Down, Key::Up]), Key::Enter) == StepView::Checkout(v.branches[1]),
{
    let k1 = seq![Key::Down];
    let k2 = seq![Key::Down, Key::Down];
    let k3 = seq![Key::Down, Key::Down, Key::Up];
    assert(k1.drop_last() =~= seq![]);
    assert(k2.drop_last() =~= k1);
    assert(k3.drop_last() =~= k2);
    assert(after_keys(v, k1.drop_last()) == v);
    assert(k1.last() == Key::Down && k2.last() == Key::Down && k3.last() == Key::Up);
    let v1 = after_keys(v, k1);
    assert(v1 == after_key(v, Key::Down));
    assert(v1.selected == 1);
    let v2 = after_keys(v, k2);
    assert(v2.selected == 2);
    let v3 = after_keys(v, k3);
    assert(v3.selected == 1);
    assert(v3.branches == v.branches && v3.current == v.current);
}

} // verus!
