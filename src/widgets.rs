use vstd::prelude::*;

use crate::input::name_view;

verus! {

/// One row of the branch list as it is shown.
pub struct BranchEntry {
    /// The branch name, marked with `* ` when it is the current branch.
    pub label: String,
    /// The row is under the selection.
    pub highlighted: bool,
}

/// The label of a branch: the current branch carries a `* ` mark.
pub open spec fn label_of(b: Seq<char>, current: Option<Seq<char>>) -> Seq<char> {
    if current == Some(b) {
        "* "@ + b
    } else {
        b
    }
}

/// The text of the help line.
pub open spec fn help_view() -> Seq<char> {
    "Press 'q' to exit."@
}

/// The rows of the branch list: one per branch, in order, with the current
/// branch marked and the selected row highlighted.
pub fn branch_entries(branches: &Vec<String>, current_branch: &Option<String>, selected_index: usize) -> (r: Vec<BranchEntry>)
    ensures
        r.len() == branches.len(),
        forall|i: int| 0 <= i < r.len() ==> {
            &&& (#[trigger] r[i]).label@ == label_of(branches[i]@, name_view(*current_branch))
            &&& r[i].highlighted == (i == selected_index)
        },
{
    let mut r: Vec<BranchEntry> = Vec::new();
    let mut i: usize = 0;
    while i < branches.len()
        invariant
            i <= branches.len(),
            r.len() == i,
            forall|j: int| 0 <= j < i ==> {
                &&& (#[trigger] r[j]).label@ == label_of(branches[j]@, name_view(*current_branch))
                &&& r[j].highlighted == (j == selected_index)
            },
        decreases branches.len() - i,
    {
        let b = &branches[i];
        let is_current = match current_branch {
            Some(c) => *c == *b,
            None => false,
        };
        let label = if is_current {
            let mut l = String::from_str("* ");
            l.append(b.as_str());
            l
        } else {
            b.clone()
        };
        let ghost before = r@;
        r.push(BranchEntry { label, highlighted: i == selected_index });
        assert(forall|j: int| 0 <= j < i ==> r@[j] == before[j]);
        i = i + 1;
    }
    r
}

/// The help line shown under the message.
pub fn help_text() -> (r: String)
    ensures
        r@ == help_view(),
{
    String::from_str("Press 'q' to exit.")
}

} // verus!
