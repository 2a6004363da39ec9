//! The dialer's decisions: which candidate addresses are tried and in what
//! order, when a failed attempt moves on to the next address, and when the
//! whole dial stops.
//!
//! The network work of an attempt (transport, handshake, validation,
//! multiplexing, negotiation) is done by the caller, which reports each
//! outcome back to the plan and follows the step the plan returns.

use vstd::prelude::*;

use crate::error::ConnectionManagerError;

verus! {

/// The views of a list of strings.
pub open spec fn views(v: Seq<String>) -> Seq<Seq<char>> {
    v.map_values(|s: String| s@)
}

/// The candidates that are not excluded, in their order.
pub open spec fn filter_excluded(
    candidates: Seq<Seq<char>>,
    exclusions: Seq<Seq<char>>,
) -> Seq<Seq<char>>
    decreases candidates.len(),
{
    if candidates.len() == 0 {
        Seq::empty()
    } else {
        let rest = filter_excluded(candidates.drop_last(), exclusions);
        if exclusions.contains(candidates.last()) {
            rest
        } else {
            rest.push(candidates.last())
        }
    }
}

/// Whether `list` holds `a`.
fn contains_address(list: &Vec<String>, a: &String) -> (r: bool)
    ensures
        r == views(list@).contains(a@),
{
    let mut i: usize = 0;
    while i < list.len()
        invariant
            i <= list.len(),
            forall|j: int| 0 <= j < i ==> views(list@)[j] != a@,
        decreases list.len() - i,
    {
        if list[i] == *a {
            assert(views(list@)[i as int] == a@);
            return true;
        }
        i += 1;
    }
    false
}

/// The candidate addresses that no exclusion names, in the candidates' order.
pub fn filter_addresses(candidates: &Vec<String>, exclusions: &Vec<String>) -> (r: Vec<String>)
    ensures
        views(r@) == filter_excluded(views(candidates@), views(exclusions@)),
{
    let mut r: Vec<String> = Vec::new();
    let mut i: usize = 0;
    while i < candidates.len()
        invariant
            i <= candidates.len(),
            views(r@) == filter_excluded(views(candidates@).subrange(0, i as int), views(exclusions@)),
        decreases candidates.len() - i,
    {
        let ghost prefix = views(candidates@).subrange(0, i as int + 1);
        assert(prefix.drop_last() =~= views(candidates@).subrange(0, i as int));
        assert(prefix.last() == candidates@[i as int]@);
        if !contains_address(exclusions, &candidates[i]) {
            let a = candidates[i].clone();
            let ghost before = r@;
            r.push(a);
            assert(views(r@) =~= views(before).push(a@));
        }
        i += 1;
    }
    assert(views(candidates@).subrange(0, i as int) =~= views(candidates@));
    r
}

/// Whether a failure ends the whole dial rather than only the current attempt:
/// a banned peer, a peer that authenticated to an unexpected key, and a
/// cancelled dial are not retried on other addresses.
pub open spec fn is_fatal_for_dial(e: ConnectionManagerError) -> bool {
    match e {
        ConnectionManagerError::PeerBanned => true,
        ConnectionManagerError::DialedPublicKeyMismatch { .. } => true,
        ConnectionManagerError::DialCancelled => true,
        _ => false,
    }
}

/// Executable form of [`is_fatal_for_dial`].
pub fn fatal_for_dial(e: &ConnectionManagerError) -> (r: bool)
    ensures
        r == is_fatal_for_dial(*e),
{
    match e {
        ConnectionManagerError::PeerBanned => true,
        ConnectionManagerError::DialedPublicKeyMismatch { .. } => true,
        ConnectionManagerError::DialCancelled => true,
        _ => false,
    }
}

/// The time a phase may take: its own limit, cut down to what is left of the
/// dial's deadline (nothing once the deadline has passed). Times share one unit.
pub fn phase_budget(phase_limit: u64, now: u64, deadline: u64) -> (r: u64)
    ensures
        now >= deadline ==> r == 0,
        now < deadline ==> r == if phase_limit <= deadline - now {
            phase_limit
        } else {
            (deadline - now) as u64
        },
{
    if now >= deadline {
        return 0;
    }
    let left = deadline - now;
    if phase_limit <= left {
        phase_limit
    } else {
        left
    }
}

/// What the caller reports after running a phase of an attempt.
#[derive(Debug)]
pub enum AttemptOutcome {
    /// The handshake completed; the peer authenticated to this static public key.
    Authenticated(String),
    /// A phase of the attempt failed.
    Failed(ConnectionManagerError),
    /// The dial's cancellation signal fired; the attempt's resources must be released.
    Cancelled,
}

/// What the caller does next.
#[derive(Debug)]
pub enum DialStep {
    /// The peer's identity is accepted: go on with the remaining phases.
    Proceed,
    /// Release this attempt's resources and try the next address.
    TryNext,
    /// Release this attempt's resources and end the dial with this error.
    Abort(ConnectionManagerError),
}

/// One outbound dial: its filtered candidate addresses, the number of
/// attempts made so far, and the identity the peer must authenticate to.
pub struct DialPlan {
    node_id: String,
    addresses: Vec<String>,
    attempts: usize,
    max_attempts: usize,
    expected_public_key: Option<String>,
}

pub struct DialPlanView {
    pub node_id: Seq<char>,
    pub addresses: Seq<Seq<char>>,
    pub attempts: nat,
    pub max_attempts: nat,
    pub expected_public_key: Option<Seq<char>>,
}

impl View for DialPlan {
    type V = DialPlanView;

    closed spec fn view(&self) -> DialPlanView {
        DialPlanView {
            node_id: self.node_id@,
            addresses: views(self.addresses@),
            attempts: self.attempts as nat,
            max_attempts: self.max_attempts as nat,
            expected_public_key: match self.expected_public_key {
                Some(k) => Some(k@),
                None => None,
            },
        }
    }
}

/// The result of asking a plan for the next address to try.
pub open spec fn next_result(p: DialPlanView) -> Result<Seq<char>, ConnectionManagerError> {
    if p.attempts >= p.addresses.len() {
        Err(ConnectionManagerError::DialConnectFailedAllAddresses)
    } else if p.attempts >= p.max_attempts {
        Err(ConnectionManagerError::ConnectFailedMaximumAttemptsReached)
    } else {
        Ok(p.addresses[p.attempts as int])
    }
}

/// The plan after it handed out an address.
pub open spec fn advance(p: DialPlanView) -> DialPlanView {
    DialPlanView { attempts: p.attempts + 1, ..p }
}

/// What `k` successive requests for an address return when every attempt
/// fails in a way that moves on to the next address.
pub open spec fn attempt_results(p: DialPlanView, k: nat) -> Seq<
    Result<Seq<char>, ConnectionManagerError>,
>
    decreases k,
{
    if k == 0 {
        Seq::empty()
    } else {
        let next = if next_result(p) is Ok {
            advance(p)
        } else {
            p
        };
        seq![next_result(p)] + attempt_results(next, (k - 1) as nat)
    }
}

impl DialPlan {
    pub open spec fn wf(&self) -> bool {
        self@.attempts <= self@.addresses.len() && self@.addresses.len() > 0
    }

    /// Starts a dial of `node_id`. The excluded addresses are removed first; a
    /// dial with no candidate at all, or with every candidate excluded, fails
    /// at once without any attempt.
    pub fn new(
        node_id: String,
        candidates: &Vec<String>,
        exclusions: &Vec<String>,
        expected_public_key: Option<String>,
        max_attempts: usize,
    ) -> (r: Result<DialPlan, ConnectionManagerError>)
        ensures
            candidates@.len() == 0 ==> r == Err::<DialPlan, ConnectionManagerError>(
                ConnectionManagerError::NoContactableAddressesForPeer(node_id),
            ),
            candidates@.len() > 0 && filter_excluded(views(candidates@), views(exclusions@)).len()
                == 0 ==> r == Err::<DialPlan, ConnectionManagerError>(
                ConnectionManagerError::AllPeerAddressesAreExcluded(node_id),
            ),
            filter_excluded(views(candidates@), views(exclusions@)).len() > 0 ==> (r matches Ok(p)
                && p.wf() && p@ == (DialPlanView {
                node_id: node_id@,
                addresses: filter_excluded(views(candidates@), views(exclusions@)),
                attempts: 0,
                max_attempts: max_attempts as nat,
                expected_public_key: match expected_public_key {
                    Some(k) => Some(k@),
                    None => None,
                },
            })),
    {
        if candidates.len() == 0 {
            return Err(ConnectionManagerError::NoContactableAddressesForPeer(node_id));
        }
        let addresses = filter_addresses(candidates, exclusions);
        if addresses.len() == 0 {
            return Err(ConnectionManagerError::AllPeerAddressesAreExcluded(node_id));
        }
        Ok(DialPlan { node_id, addresses, attempts: 0, max_attempts, expected_public_key })
    }

    /// The next address to try, in the order of the filtered candidates; each
    /// is handed out once. Fails once every address was tried, or once the
    /// attempt limit is reached.
    pub fn next_address(&mut self) -> (r: Result<String, ConnectionManagerError>)
        requires
            old(self).wf(),
        ensures
            final(self).wf(),
            match r {
                Ok(a) => next_result(old(self)@) == Ok::<Seq<char>, ConnectionManagerError>(a@)
                    && final(self)@ == advance(old(self)@),
                Err(e) => next_result(old(self)@) == Err::<Seq<char>, ConnectionManagerError>(e)
                    && final(self)@ == old(self)@,
            },
    {
        if self.attempts >= self.addresses.len() {
            return Err(ConnectionManagerError::DialConnectFailedAllAddresses);
        }
        if self.attempts >= self.max_attempts {
            return Err(ConnectionManagerError::ConnectFailedMaximumAttemptsReached);
        }
        let a = self.addresses[self.attempts].clone();
        self.attempts = self.attempts + 1;
        Ok(a)
    }

    /// Decides on an outcome reported by the caller. An authenticated key is
    /// accepted unless the dial expected another one; a failure moves on to the
    /// next address unless it is fatal for the dial; a cancellation ends the dial.
    pub fn on_outcome(&self, outcome: AttemptOutcome) -> (r: DialStep)
        ensures
            match outcome {
                AttemptOutcome::Authenticated(pk) => match self@.expected_public_key {
                    Some(k) if k != pk@ => r matches DialStep::Abort(
                        ConnectionManagerError::DialedPublicKeyMismatch { authenticated_pk, expected_pk },
                    ) && authenticated_pk@ == pk@ && expected_pk@ == k,
                    _ => r is Proceed,
                },
                AttemptOutcome::Failed(e) => if is_fatal_for_dial(e) {
                    r == DialStep::Abort(e)
                } else {
                    r is TryNext
                },
                AttemptOutcome::Cancelled => r == DialStep::Abort(ConnectionManagerError::DialCancelled),
            },
    {
        match outcome {
            AttemptOutcome::Authenticated(pk) => match &self.expected_public_key {
                Some(k) => {
                    if *k == pk {
                        DialStep::Proceed
                    } else {
                        DialStep::Abort(
                            ConnectionManagerError::DialedPublicKeyMismatch {
                                authenticated_pk: pk,
                                expected_pk: k.clone(),
                            },
                        )
                    }
                },
                None => DialStep::Proceed,
            },
            AttemptOutcome::Failed(e) => {
                if fatal_for_dial(&e) {
                    DialStep::Abort(e)
                } else {
                    DialStep::TryNext
                }
            },
            AttemptOutcome::Cancelled => DialStep::Abort(ConnectionManagerError::DialCancelled),
        }
    }

    /// The node this plan dials.
    pub fn node_id(&self) -> (r: &String)
        ensures
            r@ == self@.node_id,
    {
        &self.node_id
    }
}

/// Every address of a fresh plan, as the candidates order them.
pub open spec fn all_tried(addresses: Seq<Seq<char>>) -> Seq<Result<Seq<char>, ConnectionManagerError>> {
    addresses.map_values(|a: Seq<char>| Ok::<Seq<char>, ConnectionManagerError>(a)).push(
        Err(ConnectionManagerError::DialConnectFailedAllAddresses),
    )
}

/// A dial whose every attempt fails in the transport phase tries each
/// candidate address exactly once, in order, and then ends with the
/// all-addresses-failed error, provided the attempt limit does not cut it short.
pub proof fn lemma_every_address_tried_once(p: DialPlanView)
    requires
        p.attempts == 0,
        p.addresses.len() <= p.max_attempts,
    ensures
        attempt_results(p, p.addresses.len() + 1) == all_tried(p.addresses),
        forall|e: ConnectionManagerError|
            e is TransportError ==> !is_fatal_for_dial(e),
{
    lemma_remaining_attempts(p);
    assert(p.addresses.subrange(0, p.addresses.len() as int) =~= p.addresses);
}

proof fn lemma_remaining_attempts(p: DialPlanView)
    requires
        p.attempts <= p.addresses.len() <= p.max_attempts,
    ensures
        attempt_results(p, (p.addresses.len() - p.attempts + 1) as nat) == all_tried(
            p.addresses.subrange(p.attempts as int, p.addresses.len() as int),
        ),
    decreases p.addresses.len() - p.attempts,
{
    let rest = p.addresses.subrange(p.attempts as int, p.addresses.len() as int);
    if p.attempts == p.addresses.len() {
        assert(attempt_results(p, 0) == Seq::<Result<Seq<char>, ConnectionManagerError>>::empty());
        assert(all_tried(rest) =~= seq![
            Err::<Seq<char>, ConnectionManagerError>(ConnectionManagerError::DialConnectFailedAllAddresses),
        ]);
        assert(attempt_results(p, 1) =~= all_tried(rest));
    } else {
        let q = advance(p);
        lemma_remaining_attempts(q);
        let tail = q.addresses.subrange(q.attempts as int, q.addresses.len() as int);
        assert(rest =~= seq![p.addresses[p.attempts as int]] + tail);
        assert(all_tried(rest) =~= seq![Ok::<Seq<char>, ConnectionManagerError>(p.addresses[p.attempts as int])] + all_tried(tail));
        assert(attempt_results(p, (p.addresses.len() - p.attempts + 1) as nat) =~= all_tried(rest));
    }
}

} // verus!
