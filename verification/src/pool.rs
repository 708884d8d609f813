//! The endpoints a process sends through, in a fixed order.
//!
//! A pool is built once from route descriptors and keeps its membership for
//! good: health checks report on routes and never reach into a pool, and
//! nothing here adds or removes an endpoint afterwards.

use crate::proxy::{texts, verdict_of, working_routes, Exchange, Proxy, ProxyView, Timestamp};
use crate::Error;
use vstd::prelude::*;

verus! {

/// The routes of `routes`, each once, in the order of first mention.
pub open spec fn distinct(routes: Seq<Seq<char>>) -> Seq<Seq<char>> {
    working_routes(routes.map_values(|route: Seq<char>| (route, true)))
}

/// An endpoint for `url` that has seen no traffic.
pub open spec fn fresh(url: Seq<char>) -> ProxyView {
    ProxyView { url, requests: 0, cooldown: None }
}

/// An ordered collection of endpoints.
#[derive(Debug)]
pub struct ProxyPool {
    endpoints: Vec<Proxy>,
}

impl View for ProxyPool {
    type V = Seq<ProxyView>;

    closed spec fn view(&self) -> Seq<ProxyView> {
        Seq::new(self.endpoints@.len(), |i: int| self.endpoints@[i]@)
    }
}

impl ProxyPool {
    /// The routes of the pool's endpoints, in the pool's order.
    pub open spec fn routes(self) -> Seq<Seq<char>> {
        self@.map_values(|endpoint: ProxyView| endpoint.url)
    }

    /// A pool with one fresh endpoint for each route of `routes`. A route
    /// that is listed again is skipped, so no two endpoints share a route.
    pub fn new(routes: Vec<String>) -> (pool: ProxyPool)
        ensures
            pool.routes() == distinct(texts(routes@)),
            forall|i: int| 0 <= i < pool@.len() ==> #[trigger] pool@[i] == fresh(pool.routes()[i]),
    {
        let mut endpoints: Vec<Proxy> = Vec::new();
        let mut i: usize = 0;
        let ghost listed = texts(routes@).map_values(|route: Seq<char>| (route, true));
        while i < routes.len()
            invariant
                i <= routes.len(),
                listed == texts(routes@).map_values(|route: Seq<char>| (route, true)),
                urls_of(endpoints@) == working_routes(listed.subrange(0, i as int)),
                forall|k: int|
                    0 <= k < endpoints@.len() ==> (#[trigger] endpoints@[k])@ == fresh(
                        endpoints@[k]@.url,
                    ),
            decreases routes.len() - i,
        {
            assert(listed.subrange(0, i + 1).drop_last() =~= listed.subrange(0, i as int));
            if !has_route(&endpoints, &routes[i]) {
                let ghost before = urls_of(endpoints@);
                endpoints.push(Proxy::new(routes[i].clone()));
                assert(urls_of(endpoints@) =~= before.push(routes@[i as int]@));
            }
            i += 1;
        }
        assert(listed.subrange(0, routes.len() as int) =~= listed);
        ProxyPool { endpoints }
    }

    /// How many endpoints the pool holds.
    pub fn len(&self) -> (count: usize)
        ensures
            count == self@.len(),
    {
        self.endpoints.len()
    }

    /// The endpoint at `index`.
    pub fn endpoint(&self, index: usize) -> (endpoint: &Proxy)
        requires
            index < self@.len(),
        ensures
            endpoint@ == self@[index as int],
    {
        &self.endpoints[index]
    }

    /// Starts a new rate window on every endpoint: all request counters go
    /// back to zero. Routes and cooldowns are untouched.
    pub fn reset(&mut self)
        ensures
            final(self)@.len() == old(self)@.len(),
            forall|i: int|
                0 <= i < old(self)@.len() ==> #[trigger] final(self)@[i] == (ProxyView {
                    requests: 0,
                    ..old(self)@[i]
                }),
    {
        let mut i: usize = 0;
        while i < self.endpoints.len()
            invariant
                i <= self.endpoints@.len(),
                self.endpoints@.len() == old(self).endpoints@.len(),
                forall|k: int|
                    0 <= k < i ==> (#[trigger] self.endpoints@[k])@ == (ProxyView {
                        requests: 0,
                        ..old(self).endpoints@[k]@
                    }),
                forall|k: int|
                    i <= k < self.endpoints@.len() ==> #[trigger] self.endpoints@[k] == old(
                        self,
                    ).endpoints@[k],
            decreases self.endpoints@.len() - i,
        {
            self.endpoints[i].reset();
            i += 1;
        }
    }

    /// Picks the endpoint for the next dispatch: the first in the pool's
    /// order that is not cooling at `now`. `None` means every endpoint is
    /// cooling.
    pub fn select(&self, now: Timestamp) -> (choice: Option<usize>)
        ensures
            match choice {
                Some(index) => {
                    &&& index < self@.len()
                    &&& !self@[index as int].cooling_at(now@)
                    &&& forall|j: int| 0 <= j < index ==> (#[trigger] self@[j]).cooling_at(now@)
                },
                None => forall|j: int| 0 <= j < self@.len() ==> (#[trigger] self@[j]).cooling_at(
                    now@,
                ),
            },
    {
        self.select_from(0, now)
    }

    /// Picks the endpoint to switch to when those before `start` have been
    /// tried: the first at or after `start` that is not cooling at `now`.
    /// `None` means every endpoint from `start` on is cooling, or there is
    /// none.
    pub fn select_from(&self, start: usize, now: Timestamp) -> (choice: Option<usize>)
        ensures
            match choice {
                Some(index) => {
                    &&& start <= index < self@.len()
                    &&& !self@[index as int].cooling_at(now@)
                    &&& forall|j: int|
                        start <= j < index ==> (#[trigger] self@[j]).cooling_at(now@)
                },
                None => forall|j: int|
                    start <= j < self@.len() ==> (#[trigger] self@[j]).cooling_at(now@),
            },
    {
        let mut i: usize = start;
        while i < self.endpoints.len()
            invariant
                start <= i,
                forall|j: int|
                    start <= j < i && j < self@.len() ==> (#[trigger] self@[j]).cooling_at(now@),
            decreases self.endpoints@.len() - i,
        {
            if !self.endpoints[i].is_cooling(now) {
                return Some(i);
            }
            i += 1;
        }
        None
    }

    /// The first half of a dispatch through the endpoint at `index`, as
    /// `Proxy::begin_post` defines it. No other endpoint changes.
    pub fn begin_post(&mut self, index: usize, now: Timestamp) -> (verdict: Result<(), Error>)
        requires
            index < old(self)@.len(),
        ensures
            final(self)@ == old(self)@.update(index as int, old(self)@[index as int].begun(now@)),
            old(self)@[index as int].cooling_at(now@) ==> verdict matches Err(Error::OnCooldown),
            !old(self)@[index as int].cooling_at(now@) ==> verdict is Ok,
    {
        self.endpoints[index].begin_post(now)
    }

    /// The second half of a dispatch through the endpoint at `index`, as
    /// `Proxy::finish_post` defines it. No other endpoint changes.
    pub fn finish_post(&mut self, index: usize, exchange: Exchange, now: Timestamp) -> (verdict:
        Result<(), Error>)
        requires
            index < old(self)@.len(),
        ensures
            final(self)@ == old(self)@.update(
                index as int,
                old(self)@[index as int].finished(exchange, now@),
            ),
            verdict_of(exchange, verdict),
    {
        let verdict = self.endpoints[index].finish_post(exchange, now);
        assert(self@ =~= old(self)@.update(
            index as int,
            old(self)@[index as int].finished(exchange, now@),
        ));
        verdict
    }
}

/// The route of each endpoint of `endpoints`, in order.
spec fn urls_of(endpoints: Seq<Proxy>) -> Seq<Seq<char>> {
    Seq::new(endpoints.len(), |k: int| endpoints[k]@.url)
}

/// Whether some endpoint of `endpoints` has the route `route`.
fn has_route(endpoints: &Vec<Proxy>, route: &String) -> (found: bool)
    ensures
        found == urls_of(endpoints@).contains(route@),
{
    let mut i: usize = 0;
    while i < endpoints.len()
        invariant
            i <= endpoints@.len(),
            forall|j: int| 0 <= j < i ==> urls_of(endpoints@)[j] != route@,
        decreases endpoints@.len() - i,
    {
        if *endpoints[i].url() == *route {
            assert(urls_of(endpoints@)[i as int] == route@);
            return true;
        }
        i += 1;
    }
    false
}

} // verus!
