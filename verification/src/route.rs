//! The route table: each route name leads to one upstream target.

use vstd::prelude::*;
use crate::keyed::{cached, distinct_keys, holds, lemma_position, position};
use crate::message::{copy_headers, headers_view, Header, Method, StagedRequest, StagedView};

verus! {

/// An upstream target: where a route forwards to, how, and with which fixed
/// headers.
#[derive(Clone, Debug, PartialEq, Eq)]
pub struct ConfigRedirect {
    pub url: String,
    pub headers: Vec<Header>,
    pub method: Method,
}

impl ConfigRedirect {
    /// The request that forwarding starts from: the route's method, URL and
    /// fixed headers.
    pub open spec fn staged(&self) -> StagedView {
        StagedView { method: self.method, url: self.url@, headers: headers_view(self.headers@) }
    }

    /// Stages the request that forwarding starts from.
    pub fn stage(&self) -> (request: StagedRequest)
        ensures
            request@ == self.staged(),
    {
        StagedRequest {
            method: self.method,
            url: self.url.clone(),
            headers: copy_headers(&self.headers),
        }
    }
}

/// A route under its name.
struct NamedRoute {
    name: String,
    route: ConfigRedirect,
}

/// The routes after `route` is entered under `name`: it takes the place of a
/// route of that name, or joins at the end.
pub open spec fn with_route(
    routes: Seq<(Seq<char>, ConfigRedirect)>,
    name: Seq<char>,
    route: ConfigRedirect,
) -> Seq<(Seq<char>, ConfigRedirect)> {
    if holds(routes, name) {
        routes.update(position(routes, name), (name, route))
    } else {
        routes.push((name, route))
    }
}

/// The routes of a gateway, each under a name of its own.
pub struct RouteTable {
    routes: Vec<NamedRoute>,
}

impl View for RouteTable {
    type V = Seq<(Seq<char>, ConfigRedirect)>;

    closed spec fn view(&self) -> Seq<(Seq<char>, ConfigRedirect)> {
        self.routes@.map_values(|r: NamedRoute| (r.name@, r.route))
    }
}

impl RouteTable {
    /// The invariant: no name leads to two routes.
    pub open spec fn wf(&self) -> bool {
        distinct_keys(self@)
    }

    /// A table without routes.
    pub fn new() -> (table: RouteTable)
        ensures
            table.wf(),
            table@ == Seq::<(Seq<char>, ConfigRedirect)>::empty(),
    {
        let table = RouteTable { routes: Vec::new() };
        assert(table@ =~= Seq::<(Seq<char>, ConfigRedirect)>::empty());
        table
    }

    /// How many routes the table has.
    pub fn len(&self) -> (len: usize)
        ensures
            len == self@.len(),
    {
        self.routes.len()
    }

    /// The place of the route named `name`.
    fn find(&self, name: &String) -> (place: Option<usize>)
        requires
            self.wf(),
        ensures
            place is Some <==> holds(self@, name@),
            place is Some ==> place->0 < self@.len() && place->0 == position(self@, name@),
    {
        let mut i: usize = 0;
        while i < self.routes.len()
            invariant
                self.wf(),
                0 <= i <= self.routes@.len(),
                self@.len() == self.routes@.len(),
                forall|j: int| 0 <= j < i ==> (#[trigger] self@[j]).0 != name@,
            decreases self.routes@.len() - i,
        {
            if self.routes[i].name == *name {
                proof {
                    assert(self@[i as int].0 == name@);
                    lemma_position(self@, name@, i as int);
                }
                return Some(i);
            }
            i += 1;
        }
        None
    }

    /// Enters `route` under `name`: see [`with_route`].
    pub fn insert(&mut self, name: String, route: ConfigRedirect)
        requires
            old(self).wf(),
        ensures
            final(self).wf(),
            final(self)@ == with_route(old(self)@, name@, route),
    {
        let ghost before = self@;
        let ghost n = name@;
        match self.find(&name) {
            Some(i) => {
                self.routes.set(i, NamedRoute { name, route });
                assert(self@ =~= before.update(i as int, (n, route)));
            },
            None => {
                self.routes.push(NamedRoute { name, route });
                assert(self@ =~= before.push((n, route)));
            },
        }
        proof {
            law_insert_then_lookup(before, n, route);
        }
    }

    /// The route named `name`, if the table has one.
    pub fn lookup(&self, name: &String) -> (route: Option<&ConfigRedirect>)
        requires
            self.wf(),
        ensures
            match route {
                Some(r) => cached(self@, name@) == Some(*r),
                None => cached(self@, name@) is None,
            },
    {
        match self.find(name) {
            Some(i) => Some(&self.routes[i].route),
            None => None,
        }
    }
}

/// A route entered under a name is the one a lookup of that name finds, and
/// the names stay distinct.
pub proof fn law_insert_then_lookup(
    routes: Seq<(Seq<char>, ConfigRedirect)>,
    name: Seq<char>,
    route: ConfigRedirect,
)
    requires
        distinct_keys(routes),
    ensures
        distinct_keys(with_route(routes, name, route)),
        cached(with_route(routes, name, route), name) == Some(route),
{
    let after = with_route(routes, name, route);
    let p = if holds(routes, name) {
        position(routes, name)
    } else {
        routes.len() as int
    };
    assert forall|i: int, j: int| 0 <= i < j < after.len() implies (#[trigger] after[i]).0 != (
    #[trigger] after[j]).0 by {
        if j < routes.len() {
            assert(routes[i].0 != routes[j].0);
        }
        if holds(routes, name) {
            assert(routes[p].0 == name);
        } else {
            assert(routes[i].0 != name);
        }
    }
    lemma_position(after, name, p);
}

/// How responses are cached.
#[derive(Clone, Copy, Debug, PartialEq, Eq)]
pub enum CachePolicy {
    /// Caching is left to the HTTP client; upstream headers pass through.
    PassThrough,
    /// Responses are kept in the gateway's own bounded cache, one partition
    /// per caller identity; callers name their partition in a header, and
    /// upstream replies must be JSON.
    Manual,
}

/// What a gateway is set up with.
pub struct Config {
    pub clear_cache_interval_in_seconds: u64,
    pub cache_policy: CachePolicy,
    pub redirects: RouteTable,
}

} // verus!
