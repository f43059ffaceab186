//! The ordered trial of routes for one request: each matching route's
//! handler either answers, which ends the request, or forwards it on.
use vstd::prelude::*;
use crate::incoming::IncomingRoute;
use crate::route::{route_matches, Route, RouteView};

verus! {

/// What a handler gives: a response, or a forward to the next matching route.
pub enum Outcome<T> {
    Response(T),
    Forward,
}

/// Where the dispatch of one request stands: the handler of route `i` is to
/// be run, route `i` answered, or no route is left.
#[derive(Debug, PartialEq, Eq, Structural, Clone, Copy)]
pub enum DispatchState {
    Trying(usize),
    Responded(usize),
    Exhausted,
}

/// The first route at index `from` or later that matches.
pub open spec fn first_match_from(
    routes: Seq<RouteView>,
    method: Seq<char>,
    path: Seq<Seq<char>>,
    from: int,
) -> Option<int>
    decreases routes.len() - from,
{
    if from < 0 || from >= routes.len() {
        None
    } else if route_matches(routes[from], method, path) {
        Some(from)
    } else {
        first_match_from(routes, method, path, from + 1)
    }
}

/// The state that trying from index `from` leads to.
pub open spec fn trying_from(
    routes: Seq<RouteView>,
    method: Seq<char>,
    path: Seq<Seq<char>>,
    from: int,
) -> DispatchState {
    match first_match_from(routes, method, path, from) {
        Some(k) => DispatchState::Trying(k as usize),
        None => DispatchState::Exhausted,
    }
}

/// The routes of an application, in the order they were registered.
pub struct RouteTable {
    routes: Vec<Route>,
}

impl View for RouteTable {
    type V = Seq<RouteView>;

    closed spec fn view(&self) -> Seq<RouteView> {
        self.routes@.map_values(|r: Route| r@)
    }
}

impl RouteTable {
    /// A table without routes.
    pub fn new() -> (r: Self)
        ensures
            r@ == Seq::<RouteView>::empty(),
    {
        let r = RouteTable { routes: Vec::new() };
        assert(r@ =~= Seq::<RouteView>::empty());
        r
    }

    /// Registers a route after the others.
    pub fn push(&mut self, route: Route)
        ensures
            final(self)@ == old(self)@.push(route@),
    {
        self.routes.push(route);
        assert(self@ =~= old(self)@.push(route@));
    }

    /// The number of routes.
    pub fn len(&self) -> (r: usize)
        ensures
            r == self@.len(),
    {
        self.routes.len()
    }

    /// The route at `index`.
    pub fn get(&self, index: usize) -> (r: &Route)
        requires
            index < self@.len(),
        ensures
            r@ == self@[index as int],
    {
        &self.routes[index]
    }

    /// The first route at `from` or later that matches the incoming route.
    pub fn next_match(&self, incoming: &IncomingRoute, from: usize) -> (r: Option<usize>)
        ensures
            r matches Some(k) ==> first_match_from(self@, incoming.method@, incoming.uri@, from as int)
                == Some(k as int),
            r is None ==> first_match_from(self@, incoming.method@, incoming.uri@, from as int) is None,
    {
        let mut i: usize = from;
        while i < self.routes.len()
            invariant
                from <= i,
                self@.len() == self.routes@.len(),
                first_match_from(self@, incoming.method@, incoming.uri@, from as int)
                    == first_match_from(self@, incoming.method@, incoming.uri@, i as int),
            decreases self.routes@.len() - i,
        {
            assert(self@[i as int] == self.routes@[i as int]@);
            if self.routes[i].matches(incoming) {
                return Some(i);
            }
            i = i + 1;
        }
        None
    }

    /// Where dispatch begins: the first matching route, or none.
    pub fn start(&self, incoming: &IncomingRoute) -> (r: DispatchState)
        ensures
            r == trying_from(self@, incoming.method@, incoming.uri@, 0),
    {
        match self.next_match(incoming, 0) {
            Some(k) => DispatchState::Trying(k),
            None => DispatchState::Exhausted,
        }
    }

    /// The next state once the handler of the route being tried has given
    /// `outcome`: a response ends dispatch at that route, a forward moves on
    /// to the next matching route. An ended dispatch stays as it is.
    pub fn advance<T>(&self, incoming: &IncomingRoute, state: DispatchState, outcome: &Outcome<T>) -> (r: DispatchState)
        ensures
            state matches DispatchState::Trying(k) ==> (match outcome {
                Outcome::Response(_) => r == DispatchState::Responded(k),
                Outcome::Forward => r == trying_from(self@, incoming.method@, incoming.uri@, k + 1),
            }),
            !(state is Trying) ==> r == state,
    {
        match state {
            DispatchState::Trying(k) => match outcome {
                Outcome::Response(_) => DispatchState::Responded(k),
                Outcome::Forward => {
                    if k == usize::MAX {
                        let n = self.routes.len();
                        assert(self@.len() == n);
                        return DispatchState::Exhausted;
                    }
                    match self.next_match(incoming, k + 1) {
                        Some(j) => DispatchState::Trying(j),
                        None => DispatchState::Exhausted,
                    }
                },
            },
            _ => state,
        }
    }
}

} // verus!
