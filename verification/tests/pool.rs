use ztunnel::identity::Identity;
use ztunnel::net::{IpAddr, SocketAddr};
use ztunnel::proxy::error::Error;
use ztunnel::proxy::pool::{
    check_status, Checkout, ConnectStep, Key, Lease, Pool, Pooled, Stream, POOL_REQUESTS_PER_CONN,
    POOL_TIMEOUT,
};

fn identity(name: &str) -> Identity {
    Identity {
        trust_domain: "td".to_string(),
        namespace: "ns".to_string(),
        service_account: name.to_string(),
    }
}

fn key(source: u32) -> Key {
    Key {
        src_id: identity("src"),
        dst_id: vec![identity("dst")],
        dst: SocketAddr { ip: IpAddr::V4(1), port: 15008 },
        src: IpAddr::V4(source),
    }
}

fn ready(c: Checkout<&'static str>) -> Lease<&'static str> {
    match c {
        Checkout::Ready(lease) => lease,
        Checkout::Waiting => panic!("should use pooled connection, not wait"),
        Checkout::Connect => panic!("should use pooled connection, not connect"),
    }
}

#[test]
fn pooled_connection_is_reused() {
    let mut pool: Pool<&'static str, u32> = Pool::new();
    let k = key(2);
    assert!(matches!(pool.connect(&k, 0, 0), ConnectStep::Dial));
    assert_eq!(pool.num_connecting(&k), 1);
    let added = pool.dialed::<()>(&k, Ok("conn")).unwrap();
    assert_eq!(added.lease.value, "conn");
    assert!(added.served.is_empty());
    assert_eq!(pool.num_connecting(&k), 0);
    let lease = ready(pool.checkout(&k, 1, 0));
    assert_eq!(lease.value, "conn");
    assert_eq!(lease.id, added.lease.id);
}

#[test]
fn a_connection_carries_five_requests() {
    assert_eq!(POOL_REQUESTS_PER_CONN, 5);
    let mut pool: Pool<&'static str, u32> = Pool::new();
    let k = key(2);
    pool.connecting(&k);
    let added = pool.add_to_pool(&k, "conn");
    for i in 1..5 {
        ready(pool.checkout(&k, i, 0));
    }
    assert!(matches!(pool.checkout(&k, 5, 0), Checkout::Connect));
    pool.release(&k, added.lease.id);
    ready(pool.checkout(&k, 6, 0));
    assert!(matches!(pool.checkout(&k, 7, 0), Checkout::Connect));
}

#[test]
fn release_gives_the_request_back() {
    let mut pool: Pool<&'static str, u32> = Pool::new();
    let k = key(2);
    pool.connecting(&k);
    let added = pool.add_to_pool(&k, "conn");
    for _ in 0..100 {
        let lease = ready(pool.checkout(&k, 1, 0));
        pool.release(&k, lease.id);
    }
    pool.release(&key(3), added.lease.id);
    pool.release(&k, 17);
    for _ in 1..5 {
        ready(pool.checkout(&k, 1, 0));
    }
    assert!(matches!(pool.checkout(&k, 1, 0), Checkout::Connect));
}

#[test]
fn waiters_are_served_first_come_first() {
    let mut pool: Pool<&'static str, u32> = Pool::new();
    let k = key(2);
    assert!(matches!(pool.connect(&k, 0, 0), ConnectStep::Dial));
    for w in 1..=5 {
        assert!(matches!(pool.connect(&k, w, 0), ConnectStep::Wait));
    }
    // The connection under way fits no more; another one is opened.
    assert!(matches!(pool.connect(&k, 6, 0), ConnectStep::Dial));
    let added = pool.add_to_pool(&k, "first");
    let served: Vec<u32> = added.served.iter().map(|s| s.0).collect();
    assert_eq!(served, vec![1, 2, 3, 4]);
    for s in &added.served {
        assert_eq!(s.1.id, added.lease.id);
        assert_eq!(s.1.value, "first");
    }
    let next = pool.add_to_pool(&k, "second");
    let served: Vec<u32> = next.served.iter().map(|s| s.0).collect();
    assert_eq!(served, vec![5]);
    let lease = ready(pool.checkout(&k, 7, 0));
    assert_eq!(lease.id, next.lease.id);
}

#[test]
fn keys_do_not_share() {
    let mut pool: Pool<&'static str, u32> = Pool::new();
    pool.connecting(&key(2));
    pool.add_to_pool(&key(2), "conn");
    assert!(matches!(pool.checkout(&key(3), 1, 0), Checkout::Connect));
    let mut other = key(2);
    other.dst_id.push(identity("more"));
    assert!(matches!(pool.checkout(&other, 1, 0), Checkout::Connect));
    ready(pool.checkout(&key(2).clone(), 1, 0));
}

#[test]
fn a_failed_dial_leaves_no_mark() {
    let mut pool: Pool<&'static str, u32> = Pool::new();
    let k = key(2);
    assert!(matches!(pool.connect(&k, 0, 0), ConnectStep::Dial));
    assert_eq!(pool.num_connecting(&k), 1);
    assert_eq!(pool.dialed(&k, Err("refused")).err(), Some("refused"));
    assert_eq!(pool.num_connecting(&k), 0);
    // Nobody starts to wait for a connection that nobody opens.
    assert!(matches!(pool.checkout(&k, 1, 0), Checkout::Connect));
}

#[test]
fn those_who_wait_when_a_dial_fails_wait_on() {
    let mut pool: Pool<&'static str, u32> = Pool::new();
    let k = key(2);
    pool.connecting(&k);
    pool.connecting(&k);
    for w in 1..=7 {
        assert!(matches!(pool.checkout(&k, w, 0), Checkout::Waiting));
    }
    assert_eq!(pool.dialed(&k, Err("refused")).err(), Some("refused"));
    assert_eq!(pool.num_connecting(&k), 1);
    assert_eq!(pool.dialed(&k, Err("refused")).err(), Some("refused"));
    assert_eq!(pool.num_connecting(&k), 0);
    // The next connections serve them, in the order in which they came.
    assert!(matches!(pool.connect(&k, 8, 0), ConnectStep::Dial));
    let added = pool.dialed::<()>(&k, Ok("first")).unwrap();
    let served: Vec<u32> = added.served.iter().map(|(w, _)| *w).collect();
    assert_eq!(served, vec![1, 2, 3, 4]);
    assert!(matches!(pool.connect(&k, 9, 0), ConnectStep::Dial));
    let added = pool.dialed::<()>(&k, Ok("second")).unwrap();
    let served: Vec<u32> = added.served.iter().map(|(w, _)| *w).collect();
    assert_eq!(served, vec![5, 6, 7]);
}

#[test]
fn only_carried_requests_are_given_back() {
    let mut pool: Pool<&'static str, u32> = Pool::new();
    let k = key(2);
    pool.connecting(&k);
    assert!(pool.can_add());
    let id = pool.add_to_pool(&k, "conn").lease.id;
    assert!(pool.can_release(&k, id));
    pool.release(&k, id);
    assert!(!pool.can_release(&k, id));
    assert!(pool.can_release(&k, id + 1));
    assert!(pool.can_release(&key(3), id));
}

#[test]
fn a_wait_ends_with_a_connection_or_a_dial() {
    let mut pool: Pool<&'static str, u32> = Pool::new();
    let k = key(2);
    let lease = Lease { id: 3, value: "conn" };
    match pool.resume(&k, Some(lease)) {
        ConnectStep::Send(l) => assert_eq!((l.id, l.value), (3, "conn")),
        _ => panic!("should send"),
    }
    assert_eq!(pool.num_connecting(&k), 0);
    assert!(matches!(pool.resume(&k, None), ConnectStep::Dial));
    assert_eq!(pool.num_connecting(&k), 1);
}

#[test]
fn idle_connections_time_out() {
    let mut c = Pooled { id: 0, value: "conn", active: 0, idle_at: None };
    assert!(!c.is_idle(u128::MAX));
    c.idle_at = Some(1);
    assert!(!c.is_idle(0));
    assert!(!c.is_idle(1 + POOL_TIMEOUT));
    assert!(c.is_idle(2 + POOL_TIMEOUT));
    assert_eq!(POOL_TIMEOUT, 5_000_000_000);
    assert!(c.is_usable());
    c.active = 5;
    assert!(!c.is_usable());
}

#[test]
fn only_status_200_opens_a_stream() {
    assert_eq!(check_status(200), Ok(()));
    assert_eq!(check_status(201), Err(Error::HttpStatus(201)));
    assert_eq!(check_status(503), Err(Error::HttpStatus(503)));
    let mut s = Stream::new(vec![1u8], key(2), &Lease { id: 9, value: "conn" });
    s.as_mut().push(2);
    assert_eq!(s.stream, vec![1, 2]);
    assert_eq!(s.id, 9);
}
