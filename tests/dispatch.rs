use aws_oxide_api::guards::path_i32;
use aws_oxide_api::guards::path_text;
use aws_oxide_api::{
    method_not_found, DispatchState, GuardOutcome, IncomingRoute, Outcome, ParameterBindings, Route,
    RouteTable,
};

/// Runs the dispatch of one request: `handlers[i]` stands for the handler of
/// route `i`; returns the status answered and the handlers run, in order.
fn run(table: &RouteTable, handlers: &[&dyn Fn(&ParameterBindings) -> Outcome<u16>], incoming: &IncomingRoute) -> (u16, Vec<usize>) {
    let mut invoked = Vec::new();
    let mut state = table.start(incoming);
    let mut answer = None;
    loop {
        match state {
            DispatchState::Trying(i) => {
                invoked.push(i);
                let bindings = table.get(i).mapped_param_value(incoming);
                let outcome = handlers[i](&bindings);
                if let Outcome::Response(status) = &outcome {
                    answer = Some(*status);
                }
                state = table.advance(incoming, state, &outcome);
            },
            DispatchState::Responded(_) => return (answer.unwrap(), invoked),
            DispatchState::Exhausted => return (method_not_found().status, invoked),
        }
    }
}

fn always_204(_: &ParameterBindings) -> Outcome<u16> {
    Outcome::Response(204)
}

fn always_forward(_: &ParameterBindings) -> Outcome<u16> {
    Outcome::Forward
}

fn two_route_table() -> RouteTable {
    let mut table = RouteTable::new();
    table.push(Route::new("GET", "/foo/bar").unwrap());
    table.push(Route::new("GET", "/bar/baz").unwrap());
    table
}

#[test]
fn test_builder() {
    let mut table = RouteTable::new();
    table.push(Route::new("GET", "/").unwrap());
    table.push(Route::new("GET", "/foo").unwrap());
    table.push(Route::new("GET", "/foo/bar/baz").unwrap());
    assert_eq!(table.len(), 3);
}

#[test]
fn test_handler() {
    let table = two_route_table();
    let handlers: [&dyn Fn(&ParameterBindings) -> Outcome<u16>; 2] = [&always_204, &always_forward];
    let incoming = IncomingRoute::new("GET", "/foo/bar");
    let (status, invoked) = run(&table, &handlers, &incoming);
    assert_eq!(status, 204);
    assert_eq!(invoked, vec![0]);
    assert_eq!(table.len(), 2);
}

#[test]
fn test_handler_default() {
    let table = two_route_table();
    let handlers: [&dyn Fn(&ParameterBindings) -> Outcome<u16>; 2] = [&always_204, &always_forward];
    let incoming = IncomingRoute::new("GET", "/bar/baz");
    let (status, invoked) = run(&table, &handlers, &incoming);
    assert_eq!(status, 405);
    assert_eq!(invoked, vec![1]);
    assert_eq!(table.len(), 2);
}

#[test]
fn always_200_route_answers_and_forwarding_route_gives_405() {
    let table = two_route_table();
    let always_200 = |_: &ParameterBindings| Outcome::Response(200u16);
    let handlers: [&dyn Fn(&ParameterBindings) -> Outcome<u16>; 2] = [&always_200, &always_forward];
    let (status, invoked) = run(&table, &handlers, &IncomingRoute::new("GET", "/foo/bar"));
    assert_eq!(status, 200);
    assert_eq!(invoked, vec![0]);
    let (status, invoked) = run(&table, &handlers, &IncomingRoute::new("GET", "/bar/baz"));
    assert_eq!(status, 405);
    assert_eq!(invoked, vec![1]);
}

#[test]
fn no_matching_route_gives_405() {
    let table = two_route_table();
    let handlers: [&dyn Fn(&ParameterBindings) -> Outcome<u16>; 2] = [&always_204, &always_204];
    let (status, invoked) = run(&table, &handlers, &IncomingRoute::new("POST", "/foo/bar"));
    assert_eq!(status, 405);
    assert!(invoked.is_empty());
    assert_eq!(table.start(&IncomingRoute::new("GET", "/nothing")), DispatchState::Exhausted);
}

fn integer_handler(b: &ParameterBindings) -> Outcome<u16> {
    match path_i32(b, "id") {
        GuardOutcome::Value(_) => Outcome::Response(201),
        GuardOutcome::Error(e) => Outcome::Response(e.status),
        GuardOutcome::Forward => Outcome::Forward,
    }
}

fn text_handler(b: &ParameterBindings) -> Outcome<u16> {
    match path_text(b, "id") {
        GuardOutcome::Value(_) => Outcome::Response(202),
        GuardOutcome::Error(e) => Outcome::Response(e.status),
        GuardOutcome::Forward => Outcome::Forward,
    }
}

#[test]
fn typed_path_parameters_overload_one_template() {
    let mut table = RouteTable::new();
    table.push(Route::new("GET", "/items/:id").unwrap());
    table.push(Route::new("GET", "/items/:id").unwrap());
    let handlers: [&dyn Fn(&ParameterBindings) -> Outcome<u16>; 2] = [&integer_handler, &text_handler];
    let (status, invoked) = run(&table, &handlers, &IncomingRoute::new("GET", "/items/12345"));
    assert_eq!(status, 201);
    assert_eq!(invoked, vec![0]);
    let (status, invoked) = run(&table, &handlers, &IncomingRoute::new("GET", "/items/abc"));
    assert_eq!(status, 202);
    assert_eq!(invoked, vec![0, 1]);
}

#[test]
fn responded_state_is_final() {
    let table = two_route_table();
    let incoming = IncomingRoute::new("GET", "/foo/bar");
    let done = DispatchState::Responded(0);
    assert_eq!(table.advance(&incoming, done, &Outcome::<u16>::Forward), done);
    assert_eq!(table.advance(&incoming, DispatchState::Exhausted, &Outcome::Response(1u16)), DispatchState::Exhausted);
    assert_eq!(table.next_match(&incoming, 1), None);
    assert_eq!(table.next_match(&incoming, 0), Some(0));
}
