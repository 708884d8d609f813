//! One outbound route and its rate-limit state.
//!
//! An endpoint is either available or cooling down until some instant. A
//! dispatch through it has two halves with the network in between:
//! [`Proxy::begin_post`] decides whether anything may be sent at all, and
//! [`Proxy::finish_post`] digests what came back. The caller performs the
//! request between the two and reports it as an [`Exchange`].

use crate::counter::{count_after, count_of, counter_get, counter_inc, counter_new, counter_reset};
use crate::header::{parse_seconds, seconds_of, HeaderField};
use crate::Error;
use atomic_counter::RelaxedCounter;
use vstd::prelude::*;

verus! {

/// Where a health check connects to when the caller names no target.
pub const CHECK_URL: &'static str = "https://google.com/";

/// The status with which the remote signals a rate limit.
pub const TOO_MANY_REQUESTS: u16 = 429;

/// Nanoseconds in one second.
pub const NANOS_PER_SEC: u128 = 1_000_000_000;

/// An instant, as the time elapsed since the Unix epoch.
#[derive(Clone, Copy, Debug)]
pub struct Timestamp {
    /// Whole seconds since the epoch.
    pub secs: u64,
    /// The nanoseconds beyond the last whole second.
    pub subsec_nanos: u32,
}

impl View for Timestamp {
    type V = nat;

    /// The instant in nanoseconds since the epoch.
    open spec fn view(&self) -> nat {
        self.secs as nat * 1_000_000_000 + self.subsec_nanos as nat
    }
}

impl Timestamp {
    /// The instant `secs` whole seconds after the epoch.
    pub fn from_secs(secs: u64) -> (at: Timestamp)
        ensures
            at.secs == secs,
            at.subsec_nanos == 0,
    {
        Timestamp { secs, subsec_nanos: 0 }
    }

    /// The instant in nanoseconds since the epoch.
    pub fn as_nanos(&self) -> (nanos: u128)
        ensures
            nanos == self@,
    {
        self.secs as u128 * NANOS_PER_SEC + self.subsec_nanos as u128
    }
}

/// How one request through an endpoint ended, as far as the endpoint's
/// bookkeeping cares.
#[derive(Debug)]
pub enum Exchange {
    /// No response arrived. Carries the transport's description of why.
    Failed(String),
    /// A response arrived.
    Replied {
        /// Its status code.
        status: u16,
        /// Its `Retry-After` header.
        retry_after: HeaderField,
    },
}

/// The delay a `Retry-After` header asks for, if it is there and
/// well-formed.
pub open spec fn retry_delay(field: HeaderField) -> Option<u64> {
    match field {
        HeaderField::Text(text) => seconds_of(text@),
        _ => None,
    }
}

/// What an endpoint is, for the purpose of every contract in this crate.
pub struct ProxyView {
    /// The route descriptor.
    pub url: Seq<char>,
    /// Responses received since the last reset.
    pub requests: usize,
    /// The instant the cooldown ends, in nanoseconds since the epoch, while
    /// one is recorded.
    pub cooldown: Option<nat>,
}

impl ProxyView {
    /// Whether the endpoint refuses traffic at `now`: a cooldown is recorded
    /// and has not run out yet.
    pub open spec fn cooling_at(self, now: nat) -> bool {
        self.cooldown matches Some(until) && now < until
    }

    /// The endpoint after a dispatch was asked for at `now`. A cooldown that
    /// has run out is forgotten; one that still holds stays as it is.
    pub open spec fn begun(self, now: nat) -> ProxyView {
        if self.cooling_at(now) {
            self
        } else {
            ProxyView { cooldown: None, ..self }
        }
    }

    /// The endpoint after `exchange` was reported at `now`.
    ///
    /// A failed transport changes nothing. Any response counts as one
    /// request. A 429 with a readable delay starts a cooldown that lasts
    /// that many seconds from `now`; no other response touches the cooldown.
    pub open spec fn finished(self, exchange: Exchange, now: nat) -> ProxyView {
        match exchange {
            Exchange::Failed(_) => self,
            Exchange::Replied { status, retry_after } => {
                let counted = ProxyView { requests: count_after(self.requests), ..self };
                if status == TOO_MANY_REQUESTS {
                    match retry_delay(retry_after) {
                        Some(delay) => ProxyView {
                            cooldown: Some(now + delay as nat * 1_000_000_000),
                            ..counted
                        },
                        None => counted,
                    }
                } else {
                    counted
                }
            },
        }
    }
}

/// Whether `verdict` is what reporting `exchange` must return.
pub open spec fn verdict_of(exchange: Exchange, verdict: Result<(), Error>) -> bool {
    match exchange {
        Exchange::Failed(reason) => verdict matches Err(Error::Request(detail)) && detail@
            == reason@,
        Exchange::Replied { status, retry_after } => {
            if status != TOO_MANY_REQUESTS {
                verdict is Ok
            } else {
                match retry_after {
                    HeaderField::Missing => verdict matches Err(Error::Other(detail)) && detail@
                        == "rate limited without a Retry-After header"@,
                    HeaderField::Unreadable => verdict matches Err(Error::Other(detail))
                        && detail@ == "rate limited with an unreadable Retry-After header"@,
                    HeaderField::Text(text) => {
                        if seconds_of(text@) is Some {
                            verdict matches Err(Error::RateLimited)
                        } else {
                            verdict matches Err(Error::Other(detail)) && detail@
                                == "rate limited with a Retry-After that is not a number of seconds"@
                        }
                    },
                }
            }
        },
    }
}

/// One outbound route with its request counter and cooldown.
#[derive(Debug)]
pub struct Proxy {
    /// The route descriptor.
    url: String,
    /// Responses received through this route since the last reset.
    requests: RelaxedCounter,
    /// When the cooldown ends, in nanoseconds since the epoch.
    cooldown: Option<u128>,
}

impl View for Proxy {
    type V = ProxyView;

    closed spec fn view(&self) -> ProxyView {
        ProxyView {
            url: self.url@,
            requests: count_of(self.requests),
            cooldown: match self.cooldown {
                Some(until) => Some(until as nat),
                None => None,
            },
        }
    }
}

impl Default for Proxy {
    /// An available endpoint with an empty route that has seen no requests.
    fn default() -> (proxy: Proxy)
        ensures
            proxy@ == (ProxyView { url: Seq::empty(), requests: 0, cooldown: None }),
    {
        Proxy::new(String::new())
    }
}

impl Proxy {
    /// An available endpoint for the route `url` that has seen no requests.
    pub fn new(url: String) -> (proxy: Proxy)
        ensures
            proxy@ == (ProxyView { url: url@, requests: 0, cooldown: None }),
    {
        Proxy { url, requests: counter_new(0), cooldown: None }
    }

    /// The route descriptor.
    pub fn url(&self) -> (url: &String)
        ensures
            url@ == self@.url,
    {
        &self.url
    }

    /// Responses received since the last reset.
    pub fn requests(&self) -> (count: usize)
        ensures
            count == self@.requests,
    {
        counter_get(&self.requests)
    }

    /// The end of the recorded cooldown, in nanoseconds since the epoch.
    pub fn cooldown(&self) -> (until: Option<u128>)
        ensures
            until is Some <==> self@.cooldown is Some,
            until matches Some(nanos) ==> self@.cooldown == Some(nanos as nat),
    {
        self.cooldown
    }

    /// Whether the endpoint refuses traffic at `now`.
    pub fn is_cooling(&self, now: Timestamp) -> (cooling: bool)
        ensures
            cooling == self@.cooling_at(now@),
    {
        match self.cooldown {
            Some(until) => now.as_nanos() < until,
            None => false,
        }
    }

    /// Starts a new rate window: the request counter goes back to zero.
    /// The route and the cooldown are untouched.
    pub fn reset(&mut self)
        ensures
            final(self)@ == (ProxyView { requests: 0, ..old(self)@ }),
    {
        counter_reset(&mut self.requests);
    }

    /// The first half of a dispatch, at the instant `now`.
    ///
    /// While the endpoint is cooling this fails with `OnCooldown` and leaves
    /// the endpoint exactly as it was; the caller must send nothing.
    /// Otherwise the endpoint is available, any cooldown that ran out is
    /// forgotten, and the caller may send.
    pub fn begin_post(&mut self, now: Timestamp) -> (verdict: Result<(), Error>)
        ensures
            final(self)@ == old(self)@.begun(now@),
            old(self)@.cooling_at(now@) ==> verdict matches Err(Error::OnCooldown),
            !old(self)@.cooling_at(now@) ==> verdict is Ok,
    {
        if self.is_cooling(now) {
            Err(Error::OnCooldown)
        } else {
            self.cooldown = None;
            Ok(())
        }
    }

    /// The second half of a dispatch: digests `exchange`, reported at the
    /// instant `now`.
    ///
    /// A failed transport is handed on as `Request` and changes nothing.
    /// Every response is counted. A response other than 429 succeeds. A 429
    /// whose `Retry-After` gives a delay in seconds starts a cooldown of
    /// that length and fails with `RateLimited`. A 429 without a usable
    /// `Retry-After` fails with `Other` and sets no cooldown, since any
    /// guessed delay would be wrong.
    pub fn finish_post(&mut self, exchange: Exchange, now: Timestamp) -> (verdict: Result<(), Error>)
        ensures
            final(self)@ == old(self)@.finished(exchange, now@),
            verdict_of(exchange, verdict),
    {
        match exchange {
            Exchange::Failed(reason) => Err(Error::Request(reason)),
            Exchange::Replied { status, retry_after } => {
                counter_inc(&mut self.requests);
                if status != TOO_MANY_REQUESTS {
                    return Ok(());
                }
                match retry_after {
                    HeaderField::Missing => Err(
                        Error::Other("rate limited without a Retry-After header".to_owned()),
                    ),
                    HeaderField::Unreadable => Err(
                        Error::Other(
                            "rate limited with an unreadable Retry-After header".to_owned(),
                        ),
                    ),
                    HeaderField::Text(text) => match parse_seconds(text.as_str()) {
                        Some(delay) => {
                            let pause: u128 = delay as u128 * NANOS_PER_SEC;
                            self.cooldown = Some(now.as_nanos() + pause);
                            Err(Error::RateLimited)
                        },
                        None => Err(
                            Error::Other(
                                "rate limited with a Retry-After that is not a number of seconds".to_owned(),
                            ),
                        ),
                    },
                }
            },
        }
    }
}

/// The target of a health check: the caller's choice, or `CHECK_URL`.
pub fn check_target<'a>(check_url: Option<&'a str>) -> (target: &'a str)
    ensures
        target@ == match check_url {
            Some(url) => url@,
            None => CHECK_URL@,
        },
{
    match check_url {
        Some(url) => url,
        None => CHECK_URL,
    }
}

/// Whether a health check found the route usable. A check that connected
/// says so with `Ok(true)`. A check that could not connect, and one that
/// could not even be set up, both mean the route is not usable.
pub open spec fn is_reachable(outcome: Result<bool, String>) -> bool {
    outcome matches Ok(connected) && connected
}

/// Reads the result of a health check: whether the route is usable. A
/// check that failed is an ordinary "no", never an error.
pub fn reachable(outcome: &Result<bool, String>) -> (usable: bool)
    ensures
        usable == is_reachable(*outcome),
{
    match outcome {
        Ok(connected) => *connected,
        Err(_) => false,
    }
}

/// The text of each string of `v`, in order.
pub open spec fn texts(v: Seq<String>) -> Seq<Seq<char>> {
    Seq::new(v.len(), |i: int| v[i]@)
}

/// Each probe of `probes` as the route it tested and whether that route
/// was found usable.
pub open spec fn findings(probes: Seq<(String, Result<bool, String>)>) -> Seq<(Seq<char>, bool)> {
    Seq::new(probes.len(), |i: int| (probes[i].0@, is_reachable(probes[i].1)))
}

/// The usable routes among `found`, each once, in the order in which each
/// was first found usable.
pub open spec fn working_routes(found: Seq<(Seq<char>, bool)>) -> Seq<Seq<char>>
    decreases found.len(),
{
    if found.len() == 0 {
        Seq::empty()
    } else {
        let earlier = working_routes(found.drop_last());
        let (route, usable) = found.last();
        if usable && !earlier.contains(route) {
            earlier.push(route)
        } else {
            earlier
        }
    }
}

/// `working_routes` lists exactly the routes that some probe found usable,
/// and lists none of them twice.
pub proof fn lemma_working_routes(found: Seq<(Seq<char>, bool)>)
    ensures
        working_routes(found).no_duplicates(),
        forall|route: Seq<char>| #[trigger]
            working_routes(found).contains(route) <==> found.contains((route, true)),
    decreases found.len(),
{
    if found.len() > 0 {
        let front = found.drop_last();
        let earlier = working_routes(front);
        let last_route = found.last().0;
        lemma_working_routes(front);
        assert forall|route: Seq<char>| #[trigger]
            working_routes(found).contains(route) <==> found.contains((route, true)) by {
            if found.contains((route, true)) {
                let i = choose|i: int| 0 <= i < found.len() && found[i] == (route, true);
                if i < front.len() {
                    assert(front[i] == (route, true));
                }
                if found.last().1 && !earlier.contains(last_route) {
                    if earlier.contains(route) {
                        let j = choose|j: int| 0 <= j < earlier.len() && earlier[j] == route;
                        assert(earlier.push(last_route)[j] == route);
                    } else {
                        assert(earlier.push(last_route)[earlier.len() as int] == route);
                    }
                }
            }
            if working_routes(found).contains(route) {
                let j = choose|j: int|
                    0 <= j < working_routes(found).len() && working_routes(found)[j] == route;
                if j < earlier.len() {
                    assert(earlier.contains(route));
                    let i = choose|i: int| 0 <= i < front.len() && front[i] == (route, true);
                    assert(found[i] == (route, true));
                } else {
                    assert(found.last() == (route, true));
                }
            }
        }
    }
}

/// Whether some string of `list` reads `wanted`.
fn lists(list: &Vec<String>, wanted: &String) -> (found: bool)
    ensures
        found == texts(list@).contains(wanted@),
{
    let mut i: usize = 0;
    while i < list.len()
        invariant
            i <= list.len(),
            forall|j: int| 0 <= j < i ==> texts(list@)[j] != wanted@,
        decreases list.len() - i,
    {
        if list[i] == *wanted {
            assert(texts(list@)[i as int] == wanted@);
            return true;
        }
        i += 1;
    }
    false
}

/// Picks the working routes out of a round of health checks.
///
/// Each probe pairs a route with what its check reported. The result holds
/// exactly the routes that some check found usable, each once, in the order
/// in which each was first found usable. A route whose check failed is left
/// out like one that answered `false`; nothing here fails.
pub fn check_proxies(probes: Vec<(String, Result<bool, String>)>) -> (working: Vec<String>)
    ensures
        texts(working@) == working_routes(findings(probes@)),
        texts(working@).no_duplicates(),
        forall|route: Seq<char>| #[trigger]
            texts(working@).contains(route) <==> exists|i: int|
                0 <= i < probes.len() && probes[i].0@ == route && is_reachable(probes[i].1),
{
    let mut working: Vec<String> = Vec::new();
    let mut i: usize = 0;
    while i < probes.len()
        invariant
            i <= probes.len(),
            texts(working@) == working_routes(findings(probes@).subrange(0, i as int)),
        decreases probes.len() - i,
    {
        assert(findings(probes@).subrange(0, i + 1).drop_last() =~= findings(probes@).subrange(
            0,
            i as int,
        ));
        if reachable(&probes[i].1) && !lists(&working, &probes[i].0) {
            let ghost before = texts(working@);
            working.push(probes[i].0.clone());
            assert(texts(working@) =~= before.push(probes[i as int].0@));
        }
        i += 1;
    }
    proof {
        let found = findings(probes@);
        assert(found.subrange(0, probes.len() as int) =~= found);
        lemma_working_routes(found);
        assert forall|route: Seq<char>| #[trigger]
            texts(working@).contains(route) <==> exists|i: int|
                0 <= i < probes.len() && probes[i].0@ == route && is_reachable(
                    probes[i].1,
                ) by {
            if found.contains((route, true)) {
                let i = choose|i: int| 0 <= i < found.len() && found[i] == (route, true);
                assert(probes[i].0@ == route && is_reachable(probes[i].1));
            }
            if exists|i: int|
                0 <= i < probes.len() && probes[i].0@ == route && is_reachable(probes[i].1) {
                let i = choose|i: int|
                    0 <= i < probes.len() && probes[i].0@ == route && is_reachable(probes[i].1);
                assert(found[i] == (route, true));
            }
        }
    }
    working
}

/// A cooling endpoint turns every dispatch away and is not changed by the
/// attempt, at every instant before its cooldown ends.
pub proof fn law_cooling_endpoint_turns_dispatch_away(endpoint: ProxyView, until: nat, now: nat)
    requires
        endpoint.cooldown == Some(until),
        now < until,
    ensures
        endpoint.cooling_at(now),
        endpoint.begun(now) == endpoint,
{
}

/// Once its cooldown has run out, or when it never had one, an endpoint
/// lets a dispatch through and is available afterwards.
pub proof fn law_rested_endpoint_lets_dispatch_through(endpoint: ProxyView, now: nat)
    requires
        !endpoint.cooling_at(now),
    ensures
        endpoint.begun(now).cooldown is None,
        endpoint.begun(now).requests == endpoint.requests,
        endpoint.begun(now).url == endpoint.url,
{
}

/// Every response is counted exactly once, whatever it says, and none
/// changes the route. A response other than 429 leaves the cooldown as it
/// was. A 429 that gives a delay sets the end of the cooldown to the instant
/// of the report plus that delay. A 429 that gives none sets no cooldown.
pub proof fn law_response_is_counted_once(
    endpoint: ProxyView,
    status: u16,
    retry_after: HeaderField,
    now: nat,
)
    ensures
        ({
            let after = endpoint.finished(Exchange::Replied { status, retry_after }, now);
            &&& after.url == endpoint.url
            &&& after.requests == count_after(endpoint.requests)
            &&& endpoint.requests < usize::MAX ==> after.requests == endpoint.requests + 1
            &&& status != TOO_MANY_REQUESTS ==> after.cooldown == endpoint.cooldown
            &&& status == TOO_MANY_REQUESTS ==> match retry_delay(retry_after) {
                Some(delay) => after.cooldown == Some(now + delay as nat * 1_000_000_000),
                None => after.cooldown == endpoint.cooldown,
            }
        }),
{
}

/// A request that got no response is not counted and starts no cooldown.
pub proof fn law_failed_transport_changes_nothing(endpoint: ProxyView, reason: String, now: nat)
    ensures
        endpoint.finished(Exchange::Failed(reason), now) == endpoint,
{
}

/// An endpoint that was told at `reported` to wait `delay` seconds is
/// cooling at exactly the instants before `reported` plus `delay` seconds:
/// a dispatch at such an instant is turned away, and a dispatch at any
/// later instant goes through and finds the endpoint available.
pub proof fn law_cooldown_lasts_as_long_as_asked(
    endpoint: ProxyView,
    retry_after: HeaderField,
    delay: u64,
    reported: nat,
    now: nat,
)
    requires
        retry_delay(retry_after) == Some(delay),
    ensures
        ({
            let limited = endpoint.finished(
                Exchange::Replied { status: TOO_MANY_REQUESTS, retry_after },
                reported,
            );
            let end = reported + delay as nat * 1_000_000_000;
            &&& limited.cooling_at(now) <==> now < end
            &&& now < end ==> limited.begun(now) == limited
            &&& now >= end ==> limited.begun(now).cooldown is None
        }),
{
}

/// Which routes are found working depends only on which findings were
/// made, not on their order and not on how often each was made: two rounds
/// of checks with the same findings give the same set of routes, and
/// equally many.
pub proof fn law_working_routes_ignore_order(
    first: Seq<(Seq<char>, bool)>,
    second: Seq<(Seq<char>, bool)>,
)
    requires
        forall|finding: (Seq<char>, bool)|
            first.contains(finding) <==> second.contains(finding),
    ensures
        working_routes(first).to_set() == working_routes(second).to_set(),
        working_routes(first).len() == working_routes(second).len(),
{
    lemma_working_routes(first);
    lemma_working_routes(second);
    assert forall|route: Seq<char>|
        working_routes(first).to_set().contains(route) <==> working_routes(
            second,
        ).to_set().contains(route) by {
        assert(working_routes(first).contains(route) <==> first.contains((route, true)));
        assert(working_routes(second).contains(route) <==> second.contains((route, true)));
    }
    assert(working_routes(first).to_set() =~= working_routes(second).to_set());
    working_routes(first).unique_seq_to_set();
    working_routes(second).unique_seq_to_set();
}

/// When no route was probed twice, the working routes are the probed
/// routes that were found usable, in the order probed: as many as there are
/// usable findings.
pub proof fn law_distinct_routes_are_filtered(found: Seq<(Seq<char>, bool)>)
    requires
        forall|i: int, j: int|
            0 <= i < j < found.len() ==> (#[trigger] found[i]).0 != (#[trigger] found[j]).0,
    ensures
        working_routes(found) == found.filter(|finding: (Seq<char>, bool)| finding.1).map_values(
            |finding: (Seq<char>, bool)| finding.0,
        ),
    decreases found.len(),
{
    let usable = |finding: (Seq<char>, bool)| finding.1;
    let route_of = |finding: (Seq<char>, bool)| finding.0;
    reveal(Seq::filter);
    if found.len() > 0 {
        let front = found.drop_last();
        law_distinct_routes_are_filtered(front);
        lemma_working_routes(front);
        if found.last().1 {
            if working_routes(front).contains(found.last().0) {
                let i = choose|i: int| 0 <= i < front.len() && front[i] == (found.last().0, true);
                assert(found[i].0 == found[found.len() - 1].0);
            }
            assert(found.filter(usable).map_values(route_of) =~= front.filter(usable).map_values(
                route_of,
            ).push(found.last().0));
        }
    }
}

} // verus!
