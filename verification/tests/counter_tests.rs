use conn_server::counter::Counter;

#[test]
fn counter_tracks_permits() {
    let mut c = Counter::new(3);
    assert_eq!(c.total(), 0);
    assert!(c.available());

    c.get();
    c.get();
    assert_eq!(c.total(), 2);
    assert!(c.available());

    c.get();
    assert_eq!(c.total(), 3);
    assert!(!c.available());

    c.put();
    assert_eq!(c.total(), 2);
    assert!(c.available());
}

#[test]
fn maxconn_one_serializes_connections() {
    let mut c = Counter::new(1);
    assert!(c.available());

    c.get();
    assert!(!c.available());
    assert_eq!(c.total(), 1);

    c.put();
    assert!(c.available());
    assert_eq!(c.total(), 0);
}

#[test]
fn counter_never_exceeds_capacity() {
    let mut c = Counter::new(3);
    let mut granted: usize = 0;
    for _ in 0..12 {
        if c.available() {
            c.get();
            granted += 1;
        }
    }
    assert_eq!(granted, 3);
    assert_eq!(c.total(), 3);
    assert!(!c.available());
}

#[test]
fn zero_capacity_grants_nothing() {
    let c = Counter::new(0);
    assert!(!c.available());
    assert_eq!(c.total(), 0);
}
