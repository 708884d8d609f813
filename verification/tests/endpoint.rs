use limited_sniper::header::HeaderField;
use limited_sniper::proxy::{Exchange, Proxy, Timestamp, NANOS_PER_SEC, TOO_MANY_REQUESTS};
use limited_sniper::Error;

fn reply(status: u16) -> Exchange {
    Exchange::Replied { status, retry_after: HeaderField::Missing }
}

fn rate_limit(retry_after: &str) -> Exchange {
    Exchange::Replied {
        status: 429,
        retry_after: HeaderField::Text(retry_after.to_string()),
    }
}

#[test]
fn new_endpoint_is_available_and_idle() {
    let proxy = Proxy::new("http://10.0.0.1:8080".to_string());
    assert_eq!(proxy.url(), "http://10.0.0.1:8080");
    assert_eq!(proxy.requests(), 0);
    assert_eq!(proxy.cooldown(), None);
    assert!(!proxy.is_cooling(Timestamp::from_secs(0)));
    assert!(!proxy.is_cooling(Timestamp::from_secs(u64::MAX)));
}

#[test]
fn timestamp_in_nanoseconds() {
    assert_eq!(Timestamp::from_secs(0).as_nanos(), 0);
    assert_eq!(Timestamp::from_secs(5).as_nanos(), 5_000_000_000);
    assert_eq!(Timestamp { secs: 5, subsec_nanos: 250 }.as_nanos(), 5_000_000_250);
    assert_eq!(
        Timestamp { secs: u64::MAX, subsec_nanos: u32::MAX }.as_nanos(),
        18_446_744_073_709_551_615u128 * 1_000_000_000 + 4_294_967_295
    );
    assert_eq!(NANOS_PER_SEC, 1_000_000_000);
    assert_eq!(TOO_MANY_REQUESTS, 429);
}

#[test]
fn rate_limit_starts_a_cooldown_that_ends_on_time() {
    let t0 = 1_700_000_000u64;
    let mut proxy = Proxy::new("http://p".to_string());

    assert!(proxy.begin_post(Timestamp::from_secs(t0)).is_ok());
    let verdict = proxy.finish_post(rate_limit("30"), Timestamp::from_secs(t0));
    assert!(matches!(verdict, Err(Error::RateLimited)));
    assert_eq!(proxy.cooldown(), Some((t0 as u128 + 30) * 1_000_000_000));
    assert_eq!(proxy.requests(), 1);

    let early = proxy.begin_post(Timestamp::from_secs(t0 + 10));
    assert!(matches!(early, Err(Error::OnCooldown)));
    assert_eq!(proxy.cooldown(), Some((t0 as u128 + 30) * 1_000_000_000));
    assert_eq!(proxy.requests(), 1);

    let late = proxy.begin_post(Timestamp::from_secs(t0 + 31));
    assert!(late.is_ok());
    assert_eq!(proxy.cooldown(), None);
    assert!(proxy.finish_post(reply(200), Timestamp::from_secs(t0 + 31)).is_ok());
    assert_eq!(proxy.requests(), 2);
    assert_eq!(proxy.cooldown(), None);
}

#[test]
fn cooldown_ends_at_its_last_instant_not_before() {
    let mut proxy = Proxy::new("http://p".to_string());
    let _ = proxy.finish_post(rate_limit("30"), Timestamp { secs: 100, subsec_nanos: 500 });
    assert_eq!(proxy.cooldown(), Some(130_000_000_500));

    assert!(proxy.is_cooling(Timestamp { secs: 130, subsec_nanos: 499 }));
    assert!(matches!(
        proxy.begin_post(Timestamp { secs: 130, subsec_nanos: 499 }),
        Err(Error::OnCooldown)
    ));
    assert!(!proxy.is_cooling(Timestamp { secs: 130, subsec_nanos: 500 }));
    assert!(proxy.begin_post(Timestamp { secs: 130, subsec_nanos: 500 }).is_ok());
    assert_eq!(proxy.cooldown(), None);
}

#[test]
fn refusal_on_cooldown_changes_nothing() {
    let mut proxy = Proxy::new("http://p".to_string());
    let _ = proxy.finish_post(rate_limit("5"), Timestamp::from_secs(10));
    for second in 10..15 {
        let verdict = proxy.begin_post(Timestamp::from_secs(second));
        assert!(matches!(verdict, Err(Error::OnCooldown)));
        assert_eq!(proxy.requests(), 1);
        assert_eq!(proxy.cooldown(), Some(15_000_000_000));
        assert_eq!(proxy.url(), "http://p");
    }
}

#[test]
fn every_response_counts_once() {
    let mut proxy = Proxy::new("http://p".to_string());
    let now = Timestamp::from_secs(1);
    for (n, status) in [200u16, 201, 204, 302, 400, 403, 404, 500, 503].iter().enumerate() {
        assert!(proxy.begin_post(now).is_ok());
        assert!(proxy.finish_post(reply(*status), now).is_ok());
        assert_eq!(proxy.requests(), n + 1);
        assert_eq!(proxy.cooldown(), None);
    }
}

#[test]
fn response_other_than_rate_limit_ignores_retry_after() {
    let mut proxy = Proxy::new("http://p".to_string());
    let exchange = Exchange::Replied {
        status: 503,
        retry_after: HeaderField::Text("120".to_string()),
    };
    assert!(proxy.finish_post(exchange, Timestamp::from_secs(1)).is_ok());
    assert_eq!(proxy.cooldown(), None);
    assert_eq!(proxy.requests(), 1);
}

#[test]
fn failed_transport_is_not_counted() {
    let mut proxy = Proxy::new("http://p".to_string());
    let verdict = proxy.finish_post(
        Exchange::Failed("connection reset".to_string()),
        Timestamp::from_secs(1),
    );
    match verdict {
        Err(Error::Request(detail)) => assert_eq!(detail, "connection reset"),
        other => panic!("unexpected verdict {:?}", other),
    }
    assert_eq!(proxy.requests(), 0);
    assert_eq!(proxy.cooldown(), None);
}

#[test]
fn failed_transport_keeps_a_running_cooldown() {
    let mut proxy = Proxy::new("http://p".to_string());
    let _ = proxy.finish_post(rate_limit("60"), Timestamp::from_secs(0));
    let _ = proxy.finish_post(Exchange::Failed("timed out".to_string()), Timestamp::from_secs(1));
    assert_eq!(proxy.cooldown(), Some(60_000_000_000));
    assert_eq!(proxy.requests(), 1);
}

#[test]
fn rate_limit_without_retry_after_sets_no_cooldown() {
    let mut proxy = Proxy::new("http://p".to_string());
    let verdict = proxy.finish_post(reply(429), Timestamp::from_secs(1));
    match verdict {
        Err(Error::Other(detail)) => {
            assert_eq!(detail, "rate limited without a Retry-After header")
        }
        other => panic!("unexpected verdict {:?}", other),
    }
    assert_eq!(proxy.cooldown(), None);
    assert_eq!(proxy.requests(), 1);
}

#[test]
fn rate_limit_with_unreadable_retry_after_sets_no_cooldown() {
    let mut proxy = Proxy::new("http://p".to_string());
    let exchange = Exchange::Replied { status: 429, retry_after: HeaderField::Unreadable };
    let verdict = proxy.finish_post(exchange, Timestamp::from_secs(1));
    match verdict {
        Err(Error::Other(detail)) => {
            assert_eq!(detail, "rate limited with an unreadable Retry-After header")
        }
        other => panic!("unexpected verdict {:?}", other),
    }
    assert_eq!(proxy.cooldown(), None);
    assert_eq!(proxy.requests(), 1);
}

#[test]
fn rate_limit_with_a_date_sets_no_cooldown() {
    let mut proxy = Proxy::new("http://p".to_string());
    let verdict =
        proxy.finish_post(rate_limit("Wed, 21 Oct 2015 07:28:00 GMT"), Timestamp::from_secs(1));
    match verdict {
        Err(Error::Other(detail)) => assert_eq!(
            detail,
            "rate limited with a Retry-After that is not a number of seconds"
        ),
        other => panic!("unexpected verdict {:?}", other),
    }
    assert_eq!(proxy.cooldown(), None);
    assert_eq!(proxy.requests(), 1);
}

#[test]
fn rate_limit_of_zero_seconds_is_over_at_once() {
    let mut proxy = Proxy::new("http://p".to_string());
    let now = Timestamp::from_secs(9);
    assert!(matches!(proxy.finish_post(rate_limit("0"), now), Err(Error::RateLimited)));
    assert_eq!(proxy.cooldown(), Some(9_000_000_000));
    assert!(!proxy.is_cooling(now));
    assert!(proxy.begin_post(now).is_ok());
}

#[test]
fn longest_possible_cooldown_is_kept_exactly() {
    let mut proxy = Proxy::new("http://p".to_string());
    let now = Timestamp { secs: u64::MAX, subsec_nanos: 999_999_999 };
    let verdict = proxy.finish_post(rate_limit("18446744073709551615"), now);
    assert!(matches!(verdict, Err(Error::RateLimited)));
    let expected = (u64::MAX as u128) * 1_000_000_000 * 2 + 999_999_999;
    assert_eq!(proxy.cooldown(), Some(expected));
    assert!(proxy.is_cooling(now));
}

#[test]
fn a_second_rate_limit_replaces_the_cooldown() {
    let mut proxy = Proxy::new("http://p".to_string());
    let _ = proxy.finish_post(rate_limit("100"), Timestamp::from_secs(0));
    let _ = proxy.finish_post(rate_limit("5"), Timestamp::from_secs(1));
    assert_eq!(proxy.cooldown(), Some(6_000_000_000));
    assert_eq!(proxy.requests(), 2);
}

#[test]
fn reset_clears_the_counter_only() {
    let mut proxy = Proxy::new("http://p".to_string());
    let _ = proxy.finish_post(reply(200), Timestamp::from_secs(0));
    let _ = proxy.finish_post(rate_limit("40"), Timestamp::from_secs(0));
    assert_eq!(proxy.requests(), 2);
    proxy.reset();
    assert_eq!(proxy.requests(), 0);
    assert_eq!(proxy.cooldown(), Some(40_000_000_000));
    assert_eq!(proxy.url(), "http://p");
    proxy.reset();
    assert_eq!(proxy.requests(), 0);
}

#[test]
fn error_messages() {
    assert_eq!(Error::Request("dns failure".to_string()).message(), "dns failure");
    assert_eq!(Error::MissingCSRF.message(), "missing x-csrf-token from headers");
    assert_eq!(Error::RateLimited.message(), "rate limited");
    assert_eq!(Error::OnCooldown.message(), "on cooldown");
    assert_eq!(Error::Broke.message(), "cannot afford item");
    assert_eq!(Error::Other("detail".to_string()).message(), "an unknown error occured");
}

#[test]
fn which_failures_another_endpoint_may_cure() {
    assert!(Error::Request("reset".to_string()).recoverable());
    assert!(Error::RateLimited.recoverable());
    assert!(Error::OnCooldown.recoverable());
    assert!(!Error::MissingCSRF.recoverable());
    assert!(!Error::Broke.recoverable());
    assert!(!Error::Other("garbled".to_string()).recoverable());
}

#[test]
fn default_endpoint_is_idle_with_no_route() {
    let proxy = Proxy::default();
    assert_eq!(proxy.url(), "");
    assert_eq!(proxy.requests(), 0);
    assert_eq!(proxy.cooldown(), None);
}
