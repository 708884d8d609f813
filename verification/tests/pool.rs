use limited_sniper::header::HeaderField;
use limited_sniper::pool::ProxyPool;
use limited_sniper::proxy::{Exchange, Timestamp};
use limited_sniper::Error;

fn routes(names: &[&str]) -> Vec<String> {
    names.iter().map(|name| name.to_string()).collect()
}

fn rate_limit(seconds: &str) -> Exchange {
    Exchange::Replied { status: 429, retry_after: HeaderField::Text(seconds.to_string()) }
}

fn ok() -> Exchange {
    Exchange::Replied { status: 200, retry_after: HeaderField::Missing }
}

#[test]
fn pool_has_one_fresh_endpoint_per_route() {
    let pool = ProxyPool::new(routes(&["a", "b", "c"]));
    assert_eq!(pool.len(), 3);
    for (i, name) in ["a", "b", "c"].iter().enumerate() {
        assert_eq!(pool.endpoint(i).url(), name);
        assert_eq!(pool.endpoint(i).requests(), 0);
        assert_eq!(pool.endpoint(i).cooldown(), None);
    }
}

#[test]
fn pool_skips_routes_listed_again() {
    let pool = ProxyPool::new(routes(&["a", "b", "a", "c", "b", "a"]));
    assert_eq!(pool.len(), 3);
    assert_eq!(pool.endpoint(0).url(), "a");
    assert_eq!(pool.endpoint(1).url(), "b");
    assert_eq!(pool.endpoint(2).url(), "c");
}

#[test]
fn empty_pool_has_nothing_to_select() {
    let pool = ProxyPool::new(vec![]);
    assert_eq!(pool.len(), 0);
    assert_eq!(pool.select(Timestamp::from_secs(0)), None);
}

#[test]
fn selection_skips_cooling_endpoints() {
    let mut pool = ProxyPool::new(routes(&["a", "b", "c"]));
    let t0 = Timestamp::from_secs(100);
    assert_eq!(pool.select(t0), Some(0));

    assert!(pool.begin_post(0, t0).is_ok());
    assert!(matches!(pool.finish_post(0, rate_limit("30"), t0), Err(Error::RateLimited)));
    assert_eq!(pool.select(t0), Some(1));

    assert!(pool.begin_post(1, t0).is_ok());
    assert!(matches!(pool.finish_post(1, rate_limit("10"), t0), Err(Error::RateLimited)));
    assert_eq!(pool.select(t0), Some(2));

    assert!(pool.begin_post(2, t0).is_ok());
    assert!(matches!(pool.finish_post(2, rate_limit("20"), t0), Err(Error::RateLimited)));
    assert_eq!(pool.select(t0), None);
    assert_eq!(pool.select(Timestamp::from_secs(109)), None);

    assert_eq!(pool.select(Timestamp::from_secs(110)), Some(1));
    assert_eq!(pool.select(Timestamp::from_secs(120)), Some(1));
    assert_eq!(pool.select(Timestamp::from_secs(130)), Some(0));
}

#[test]
fn dispatch_through_one_endpoint_leaves_the_others() {
    let mut pool = ProxyPool::new(routes(&["a", "b"]));
    let now = Timestamp::from_secs(5);
    assert!(pool.begin_post(1, now).is_ok());
    assert!(pool.finish_post(1, ok(), now).is_ok());
    assert!(pool.finish_post(1, ok(), now).is_ok());
    assert_eq!(pool.endpoint(0).requests(), 0);
    assert_eq!(pool.endpoint(1).requests(), 2);
    assert_eq!(pool.endpoint(0).cooldown(), None);
    assert_eq!(pool.endpoint(1).cooldown(), None);

    let failed = pool.finish_post(0, Exchange::Failed("down".to_string()), now);
    assert!(matches!(failed, Err(Error::Request(_))));
    assert_eq!(pool.endpoint(0).requests(), 0);
}

#[test]
fn cooling_endpoint_in_a_pool_turns_dispatch_away() {
    let mut pool = ProxyPool::new(routes(&["a"]));
    let _ = pool.finish_post(0, rate_limit("30"), Timestamp::from_secs(0));
    assert!(matches!(pool.begin_post(0, Timestamp::from_secs(29)), Err(Error::OnCooldown)));
    assert_eq!(pool.endpoint(0).cooldown(), Some(30_000_000_000));
    assert!(pool.begin_post(0, Timestamp::from_secs(30)).is_ok());
    assert_eq!(pool.endpoint(0).cooldown(), None);
}

#[test]
fn pool_reset_starts_a_new_window_everywhere() {
    let mut pool = ProxyPool::new(routes(&["a", "b", "c"]));
    let now = Timestamp::from_secs(1);
    let _ = pool.finish_post(0, ok(), now);
    let _ = pool.finish_post(1, rate_limit("50"), now);
    let _ = pool.finish_post(1, ok(), now);
    pool.reset();
    assert_eq!(pool.len(), 3);
    for i in 0..3 {
        assert_eq!(pool.endpoint(i).requests(), 0);
    }
    assert_eq!(pool.endpoint(0).url(), "a");
    assert_eq!(pool.endpoint(1).url(), "b");
    assert_eq!(pool.endpoint(2).url(), "c");
    assert_eq!(pool.endpoint(0).cooldown(), None);
    assert_eq!(pool.endpoint(1).cooldown(), Some(51_000_000_000));
    assert_eq!(pool.endpoint(2).cooldown(), None);
}
