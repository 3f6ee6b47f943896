use vstd::prelude::*;

verus! {

/// What can go wrong when the repository is asked something.
pub enum RepoError {
    /// The location is not a repository, or it could not be opened.
    RepoUnavailable(String),
    /// HEAD does not name a local branch (for example, it is detached).
    DetachedOrUnknown,
    /// A checkout could not be applied; the reason is the backend's own text.
    CheckoutFailed(String),
}

/// The text shown for a HEAD that names no branch.
pub open spec fn detached_text() -> Seq<char> {
    "HEAD does not name a branch"@
}

impl RepoError {
    /// The human-readable reason carried by this error.
    pub open spec fn reason_view(&self) -> Seq<char> {
        match self {
            RepoError::RepoUnavailable(s) => s@,
            RepoError::DetachedOrUnknown => detached_text(),
            RepoError::CheckoutFailed(s) => s@,
        }
    }

    /// The reason as a string, verbatim for the errors that carry one.
    pub fn reason(&self) -> (r: String)
        ensures
            r@ == self.reason_view(),
    {
        match self {
            RepoError::RepoUnavailable(s) => s.clone(),
            RepoError::DetachedOrUnknown => String::from_str("HEAD does not name a branch"),
            RepoError::CheckoutFailed(s) => s.clone(),
        }
    }
}

/// The branch names among a listing, in the listing's order; entries whose
/// name could not be read are left out.
pub open spec fn named(entries: Seq<Option<Seq<char>>>) -> Seq<Seq<char>>
    decreases entries.len(),
{
    if entries.len() == 0 {
        Seq::empty()
    } else {
        let rest = named(entries.drop_last());
        match entries.last() {
            Some(n) => rest.push(n),
            None => rest,
        }
    }
}

/// The model of a listing as handed over by the backend.
pub open spec fn entries_view(entries: Seq<Option<String>>) -> Seq<Option<Seq<char>>> {
    entries.map_values(|e: Option<String>| match e {
        Some(s) => Some(s@),
        None => None,
    })
}

/// Keeps the readable branch names of a local-branch listing, in order.
pub fn local_branch_names(entries: Vec<Option<String>>) -> (r: Vec<String>)
    ensures
        r@.map_values(|s: String| s@) == named(entries_view(entries@)),
{
    let mut r: Vec<String> = Vec::new();
    let mut i: usize = 0;
    while i < entries.len()
        invariant
            i <= entries.len(),
            r@.map_values(|s: String| s@) == named(entries_view(entries@.take(i as int))),
        decreases entries.len() - i,
    {
        let ghost before = entries@.take(i as int);
        assert(entries_view(entries@.take(i + 1)).drop_last() =~= entries_view(before));
        match &entries[i] {
            Some(n) => {
                r.push(n.clone());
            },
            None => {},
        }
        i = i + 1;
        assert(r@.map_values(|s: String| s@) =~= named(entries_view(entries@.take(i as int))));
    }
    assert(entries@.take(entries.len() as int) =~= entries@);
    r
}

/// The branch HEAD names: its short name when HEAD is a branch reference.
pub fn current_branch_name(is_branch: bool, shorthand: Option<String>) -> (r: Result<String, RepoError>)
    ensures
        is_branch && shorthand is Some ==> (r matches Ok(b) && b@ == shorthand->Some_0@),
        !(is_branch && shorthand is Some) ==> r matches Err(RepoError::DetachedOrUnknown),
{
    match shorthand {
        Some(s) => if is_branch {
            Ok(s)
        } else {
            Err(RepoError::DetachedOrUnknown)
        },
        None => Err(RepoError::DetachedOrUnknown),
    }
}

/// How HEAD is moved once a checkout target's tree is in place.
pub enum HeadUpdate {
    /// Point HEAD at the named reference, so that commits advance it.
    Attach(String),
    /// Detach HEAD at the resolved object.
    Detach,
}

/// Picks the HEAD update for a resolved target: attach to its reference
/// when resolution found one, else detach at the object.
pub fn head_update(reference_name: Option<String>) -> (r: HeadUpdate)
    ensures
        reference_name is Some ==> (r matches HeadUpdate::Attach(n) && n@ == reference_name->Some_0@),
        reference_name is None ==> r is Detach,
{
    match reference_name {
        Some(n) => HeadUpdate::Attach(n),
        None => HeadUpdate::Detach,
    }
}

} // verus!
