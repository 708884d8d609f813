use limited_sniper::proxy::{check_proxies, check_target, reachable, CHECK_URL};

fn probe(route: &str, outcome: Result<bool, &str>) -> (String, Result<bool, String>) {
    (route.to_string(), outcome.map_err(|reason| reason.to_string()))
}

#[test]
fn default_target() {
    assert_eq!(CHECK_URL, "https://google.com/");
    assert_eq!(check_target(None), "https://google.com/");
    assert_eq!(check_target(Some("https://example.org/")), "https://example.org/");
    assert_eq!(check_target(Some("")), "");
}

#[test]
fn no_probes_no_routes() {
    assert_eq!(check_proxies(vec![]), Vec::<String>::new());
}

#[test]
fn keeps_exactly_the_reachable_routes() {
    let working = check_proxies(vec![
        probe("a", Ok(true)),
        probe("b", Ok(false)),
        probe("c", Err("bad scheme")),
        probe("d", Ok(true)),
        probe("e", Ok(true)),
    ]);
    assert_eq!(working, vec!["a", "d", "e"]);
}

#[test]
fn unreachable_routes_are_not_an_error() {
    let working = check_proxies(vec![
        probe("a", Ok(false)),
        probe("b", Err("refused")),
        probe("c", Err("timed out")),
    ]);
    assert!(working.is_empty());
}

#[test]
fn a_route_listed_twice_comes_out_once() {
    let working = check_proxies(vec![
        probe("a", Ok(true)),
        probe("b", Ok(true)),
        probe("a", Ok(true)),
        probe("a", Ok(true)),
        probe("b", Ok(true)),
    ]);
    assert_eq!(working, vec!["a", "b"]);
}

#[test]
fn a_route_counts_as_working_if_any_check_of_it_passed() {
    let working = check_proxies(vec![
        probe("a", Ok(false)),
        probe("b", Err("refused")),
        probe("a", Ok(true)),
        probe("b", Ok(false)),
    ]);
    assert_eq!(working, vec!["a"]);
}

#[test]
fn the_set_of_working_routes_ignores_input_order() {
    let probes = vec![
        probe("a", Ok(true)),
        probe("b", Ok(false)),
        probe("c", Ok(true)),
        probe("d", Err("refused")),
        probe("e", Ok(true)),
    ];
    let mut forwards = check_proxies(probes.clone());
    let mut reversed_input = probes.clone();
    reversed_input.reverse();
    let mut backwards = check_proxies(reversed_input);
    let mut rotated_input = probes.clone();
    rotated_input.rotate_left(2);
    let mut rotated = check_proxies(rotated_input);

    assert_eq!(forwards.len(), 3);
    forwards.sort();
    backwards.sort();
    rotated.sort();
    assert_eq!(forwards, vec!["a", "c", "e"]);
    assert_eq!(backwards, forwards);
    assert_eq!(rotated, forwards);
}

#[test]
fn routes_that_differ_in_case_or_space_are_different() {
    let working = check_proxies(vec![
        probe("http://p", Ok(true)),
        probe("HTTP://P", Ok(true)),
        probe("http://p ", Ok(true)),
    ]);
    assert_eq!(working, vec!["http://p", "HTTP://P", "http://p "]);
}

#[test]
fn only_a_check_that_connected_counts() {
    assert!(reachable(&Ok(true)));
    assert!(!reachable(&Ok(false)));
    assert!(!reachable(&Err("proxy scheme not supported".to_string())));
    assert!(!reachable(&Err(String::new())));
}
