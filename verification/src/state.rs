//! What is held for one user between requests: the last list of resolved
//! pull requests, and whether a scan for a new one is under way.

use crate::model::{pr_views, Pr, PrView};
use vstd::prelude::*;

verus! {

/// The state held for one user.
#[derive(Debug, PartialEq, Eq)]
pub struct UserState {
    /// The list that the last completed scan gave, if one has completed.
    pub prs: Option<Vec<Pr>>,
    /// Whether a scan is under way.
    pub in_flight: bool,
}

/// What can happen to the state of a user.
#[derive(Clone, Copy, Debug, PartialEq, Eq, Structural)]
pub enum UserEvent {
    /// A new list is asked for.
    Refresh,
    /// The scan under way has ended, with a list or without.
    Finished,
}

/// Whether a scan is under way after `event`.
pub open spec fn in_flight_after(in_flight: bool, event: UserEvent) -> bool {
    match event {
        UserEvent::Refresh => true,
        UserEvent::Finished => false,
    }
}

/// Whether `event` starts a scan: a new list is asked for while none is being
/// made.
pub open spec fn starts_scan(in_flight: bool, event: UserEvent) -> bool {
    event is Refresh && !in_flight
}

/// Whether `event` ends a scan.
pub open spec fn ends_scan(in_flight: bool, event: UserEvent) -> bool {
    event is Finished && in_flight
}

/// How many scans are started while `events` happen, one after another.
pub open spec fn scans_started(in_flight: bool, events: Seq<UserEvent>) -> int
    decreases events.len(),
{
    if events.len() == 0 {
        0
    } else {
        (if starts_scan(in_flight, events[0]) {
            1int
        } else {
            0int
        }) + scans_started(in_flight_after(in_flight, events[0]), events.drop_first())
    }
}

/// How many scans end while `events` happen, one after another.
pub open spec fn scans_ended(in_flight: bool, events: Seq<UserEvent>) -> int
    decreases events.len(),
{
    if events.len() == 0 {
        0
    } else {
        (if ends_scan(in_flight, events[0]) {
            1int
        } else {
            0int
        }) + scans_ended(in_flight_after(in_flight, events[0]), events.drop_first())
    }
}

/// Whether a scan is under way after all of `events`.
pub open spec fn in_flight_after_all(in_flight: bool, events: Seq<UserEvent>) -> bool
    decreases events.len(),
{
    if events.len() == 0 {
        in_flight
    } else {
        in_flight_after_all(in_flight_after(in_flight, events[0]), events.drop_first())
    }
}

/// The view of a list that may be missing.
pub open spec fn option_prs_view(prs: Option<Vec<Pr>>) -> Option<Seq<PrView>> {
    match prs {
        Some(list) => Some(pr_views(list@)),
        None => None,
    }
}

/// A copy of every pull request in `prs`, in order.
pub fn clone_prs(prs: &Vec<Pr>) -> (r: Vec<Pr>)
    ensures
        pr_views(r@) == pr_views(prs@),
{
    let mut r: Vec<Pr> = Vec::new();
    let mut i: usize = 0;
    while i < prs.len()
        invariant
            i <= prs.len(),
            r@.len() == i,
            forall|j: int| 0 <= j < i ==> (#[trigger] r@[j])@ == prs@[j]@,
        decreases prs.len() - i,
    {
        r.push(prs[i].clone());
        i = i + 1;
    }
    proof {
        assert(pr_views(r@) =~= pr_views(prs@));
    }
    r
}

impl UserState {
    /// The list to serve: that of the last completed scan, or the empty list
    /// if none has completed.
    pub open spec fn served(&self) -> Seq<PrView> {
        match self.prs {
            Some(list) => pr_views(list@),
            None => Seq::empty(),
        }
    }

    /// The state of a user of whom nothing is known yet.
    pub fn new() -> (state: Self)
        ensures
            state.prs is None,
            !state.in_flight,
    {
        UserState { prs: None, in_flight: false }
    }

    /// Whether a reader has to wait: the first scan is under way, so there is
    /// no list yet, and there will be one.
    pub open spec fn awaits_first_scan(&self) -> bool {
        self.in_flight && self.prs is None
    }

    /// The list to serve, or `None` where the reader has to wait for the scan
    /// under way. A user for whom no scan has ever been started, or whose only
    /// scans have failed, is served the empty list.
    pub fn get_state_instantly(&self) -> (prs: Option<Vec<Pr>>)
        ensures
            prs is None <==> self.awaits_first_scan(),
            prs matches Some(list) ==> pr_views(list@) == self.served(),
    {
        match &self.prs {
            Some(list) => Some(clone_prs(list)),
            None => {
                if self.in_flight {
                    None
                } else {
                    let prs: Vec<Pr> = Vec::new();
                    proof {
                        assert(pr_views(prs@) =~= Seq::<PrView>::empty());
                    }
                    Some(prs)
                }
            },
        }
    }

    /// Whether a reader has to wait for the scan under way: there is one, and
    /// no scan has completed before. This is when `get_state_instantly` has
    /// no list to give.
    pub fn must_wait(&self) -> (b: bool)
        ensures
            b == self.awaits_first_scan(),
    {
        self.in_flight && self.prs.is_none()
    }

    /// Asks for a new list. Returns whether the caller is to start a scan:
    /// it is, unless one is under way already. The list to serve stays.
    pub fn trigger_refresh(&mut self) -> (start: bool)
        ensures
            start == starts_scan(old(self).in_flight, UserEvent::Refresh),
            start == !old(self).in_flight,
            final(self).in_flight,
            final(self).prs == old(self).prs,
            final(self).awaits_first_scan() <==> old(self).prs is None,
    {
        let start = !self.in_flight;
        self.in_flight = true;
        start
    }

    /// Ends the scan under way with the list it gave, which is the list to
    /// serve from now on.
    pub fn complete(&mut self, prs: Vec<Pr>)
        ensures
            final(self).prs == Some(prs),
            final(self).served() == pr_views(prs@),
            !final(self).in_flight,
            !final(self).awaits_first_scan(),
    {
        self.prs = Some(prs);
        self.in_flight = false;
    }

    /// Ends the scan under way without a list: the list to serve stays.
    pub fn abandon(&mut self)
        ensures
            final(self).prs == old(self).prs,
            !final(self).in_flight,
            !final(self).awaits_first_scan(),
    {
        self.in_flight = false;
    }
}

/// Scans for one user never overlap: whatever happens, the scans started and
/// not yet ended are as many as are under way at the end, less the one under
/// way at the start; so there is never more than one.
pub proof fn lemma_scans_never_overlap(in_flight: bool, events: Seq<UserEvent>)
    ensures
        scans_started(in_flight, events) - scans_ended(in_flight, events) == (if in_flight_after_all(
            in_flight,
            events,
        ) {
            1int
        } else {
            0int
        }) - (if in_flight {
            1int
        } else {
            0int
        }),
        !in_flight ==> 0 <= scans_started(in_flight, events) - scans_ended(in_flight, events) <= 1,
    decreases events.len(),
{
    if events.len() > 0 {
        lemma_scans_never_overlap(in_flight_after(in_flight, events[0]), events.drop_first());
    }
}

} // verus!
