//! The single source of truth for the last observed channel name, and the
//! reconcile step both detectors run against it.

use vstd::prelude::*;

verus! {

/// The one value both detectors agree on: the last confirmed channel name.
/// `None` means the channel has no name or nothing was observed yet.
///
/// The surrounding process keeps exactly one `SharedState` behind a lock and
/// hands both detectors the same handle; every reconciliation runs through
/// `observe` while the lock is held, which is what makes the compare-and-update
/// atomic.
pub struct SharedState {
    name: Option<String>,
}

/// The stored name after a reconciliation: the observation always wins.
pub open spec fn next_name(cur: Option<Seq<char>>, new: Option<Seq<char>>) -> Option<Seq<char>> {
    new
}

/// The alert a reconciliation raises: a present name that differs from the
/// stored one fires an alert carrying exactly that name; anything else fires
/// nothing. In particular a transition into the absent name never alerts.
pub open spec fn alert_of(cur: Option<Seq<char>>, new: Option<Seq<char>>) -> Option<Seq<char>> {
    if new != cur && new is Some {
        new
    } else {
        None
    }
}

impl View for SharedState {
    type V = Option<Seq<char>>;

    closed spec fn view(&self) -> Option<Seq<char>> {
        self.name.deep_view()
    }
}

/// Exact equality of two optional names, the comparison both detectors use.
fn name_eq(a: &Option<String>, b: &Option<String>) -> (r: bool)
    ensures
        r == (a.deep_view() == b.deep_view()),
{
    match (a, b) {
        (Option::None, Option::None) => true,
        (Option::Some(x), Option::Some(y)) => x.eq(y),
        _ => false,
    }
}

fn clone_name(a: &Option<String>) -> (r: Option<String>)
    ensures
        r.deep_view() == a.deep_view(),
{
    match a {
        Option::None => Option::None,
        Option::Some(x) => Option::Some(x.clone()),
    }
}

impl SharedState {
    /// An empty state, as the process starts with.
    pub fn new() -> (s: SharedState)
        ensures
            s@ == Option::<Seq<char>>::None,
    {
        SharedState { name: Option::None }
    }

    /// Overwrite the stored name without raising any alert: the bootstrap
    /// fetch installs the initial name this way.
    pub fn set(&mut self, name: Option<String>)
        ensures
            final(self)@ == name.deep_view(),
    {
        self.name = name;
    }

    /// A snapshot of the stored name.
    pub fn read(&self) -> (r: Option<String>)
        ensures
            r.deep_view() == self@,
    {
        clone_name(&self.name)
    }

    /// One reconciliation: install the observation and report whether it
    /// changed the stored name, and which alert, if any, it raises. Run under
    /// the lock, this is the atomic compare-and-update: of two racing
    /// observers of the same name, only the first sees `changed` and an alert.
    pub fn observe(&mut self, new_name: Option<String>) -> (r: (bool, Option<String>))
        ensures
            final(self)@ == next_name(old(self)@, new_name.deep_view()),
            r.0 == (new_name.deep_view() != old(self)@),
            r.1.deep_view() == alert_of(old(self)@, new_name.deep_view()),
    {
        if name_eq(&self.name, &new_name) {
            (false, Option::None)
        } else {
            let alert = if new_name.is_some() {
                clone_name(&new_name)
            } else {
                Option::None
            };
            self.name = new_name;
            (true, alert)
        }
    }
}

/// The stored name after a whole run of reconciliations, oldest first.
pub open spec fn run_observations(
    init: Option<Seq<char>>,
    obs: Seq<Option<Seq<char>>>,
) -> Option<Seq<char>>
    decreases obs.len(),
{
    if obs.len() == 0 {
        init
    } else {
        run_observations(next_name(init, obs[0]), obs.drop_first())
    }
}

/// However the observations arrived and in whatever interleaving the two
/// detectors confirmed them, the stored name ends up equal to the most
/// recently confirmed one.
pub proof fn lemma_final_name_is_last_observed(
    init: Option<Seq<char>>,
    obs: Seq<Option<Seq<char>>>,
)
    requires
        obs.len() > 0,
    ensures
        run_observations(init, obs) == obs.last(),
    decreases obs.len(),
{
    if obs.len() == 1 {
        assert(run_observations(init, obs) == obs[0]);
    } else {
        lemma_final_name_is_last_observed(next_name(init, obs[0]), obs.drop_first());
        assert(obs.drop_first().last() == obs.last());
    }
}

/// Observing the same name twice in a row alerts at most once: after the
/// first reconciliation installed the name, the second is a no-op.
pub proof fn lemma_repeat_observation_is_silent(cur: Option<Seq<char>>, new: Option<Seq<char>>)
    ensures
        alert_of(next_name(cur, new), new) == Option::<Seq<char>>::None,
{
}

/// An alert needs a present, different name: no alert fires for a transition
/// into the absent name, and any alert that fires carries a name that is
/// present and differs from the stored one.
pub proof fn lemma_alert_needs_present_change(cur: Option<Seq<char>>, new: Option<Seq<char>>)
    ensures
        new is None ==> alert_of(cur, new) is None,
        alert_of(cur, new) is Some ==> new is Some && new != cur && alert_of(cur, new) == new,
{
}

/// How many of two reconciliation outcomes raised an alert.
pub open spec fn alerts_raised(a: Option<Seq<char>>, b: Option<Seq<char>>) -> int {
    (if a is Some {
        1int
    } else {
        0int
    }) + (if b is Some {
        1int
    } else {
        0int
    })
}

/// If both detectors observe the same new name at nearly the same time, the
/// compare-and-update serializes them: whichever runs first raises the one
/// alert for that change, and the later one raises none — exactly one alert
/// in either order.
pub proof fn lemma_racing_observers_alert_once(cur: Option<Seq<char>>, new: Option<Seq<char>>)
    requires
        new is Some,
        new != cur,
    ensures
        alert_of(cur, new) is Some,
        alert_of(next_name(cur, new), new) is None,
        alerts_raised(alert_of(cur, new), alert_of(next_name(cur, new), new)) == 1,
{
}

} // verus!
