use ztunnel::connection::Connection;
use ztunnel::connection_manager::ConnectionManager;
use ztunnel::identity::Identity;
use ztunnel::net::{IpAddr, SocketAddr};

fn id(namespace: &str, account: &str) -> Identity {
    Identity::new("cluster.local".to_string(), namespace.to_string(), account.to_string())
}

fn conn(last: u8, port: u16) -> Connection {
    Connection {
        src_identity: Some(id("app", "client")),
        src: SocketAddr::new(IpAddr::V4(10, 0, 0, last), port),
        dst_network: "default".to_string(),
        dst: SocketAddr::new(IpAddr::V4(10, 0, 0, 5), 8080),
    }
}

#[test]
fn new_manager_is_empty() {
    let m: ConnectionManager<u32> = ConnectionManager::new();
    assert_eq!(m.len(), 0);
    assert!(m.connections().is_empty());
    assert_eq!(m.track(&conn(9, 1000)), None);
}

#[test]
fn register_track_release_round_trip() {
    let mut m: ConnectionManager<u32> = ConnectionManager::new();
    m.register(&conn(1, 1000), 11);
    let c = conn(9, 1000);
    assert_eq!(m.register(&c, 7), None);
    assert_eq!(m.len(), 2);
    assert_eq!(m.track(&c), Some(&7));
    assert_eq!(m.release(&c), Some(7));
    assert_eq!(m.len(), 1);
    assert_eq!(m.track(&c), None);
    assert_eq!(m.track(&conn(1, 1000)), Some(&11));
    // a second release does nothing
    assert_eq!(m.release(&c), None);
    assert_eq!(m.len(), 1);
    assert_eq!(m.track(&conn(1, 1000)), Some(&11));
}

#[test]
fn register_is_idempotent() {
    let mut m: ConnectionManager<u32> = ConnectionManager::new();
    let c = conn(9, 1000);
    assert_eq!(m.register(&c, 1), None);
    assert_eq!(m.register(&c, 2), Some(2));
    assert_eq!(m.len(), 1);
    assert_eq!(m.track(&c), Some(&1));
}

#[test]
fn connections_differ_by_each_field() {
    let mut m: ConnectionManager<u32> = ConnectionManager::new();
    let base = conn(9, 1000);
    m.register(&base, 0);
    let mut other_port = conn(9, 1000);
    other_port.dst = SocketAddr::new(IpAddr::V4(10, 0, 0, 5), 8081);
    let mut other_net = conn(9, 1000);
    other_net.dst_network = "remote".to_string();
    let mut other_id = conn(9, 1000);
    other_id.src_identity = Some(id("app", "other"));
    let mut no_id = conn(9, 1000);
    no_id.src_identity = None;
    let other_src = conn(9, 1001);
    for (i, c) in [other_port, other_net, other_id, no_id, other_src].iter().enumerate() {
        assert_eq!(m.track(c), None);
        assert_eq!(m.register(c, i as u32 + 1), None);
    }
    assert_eq!(m.len(), 6);
    assert_eq!(m.track(&base), Some(&0));
}

#[test]
fn connections_lists_in_order_of_registration() {
    let mut m: ConnectionManager<u32> = ConnectionManager::new();
    m.register(&conn(1, 1), 1);
    m.register(&conn(2, 2), 2);
    m.register(&conn(3, 3), 3);
    m.release(&conn(2, 2));
    let all = m.connections();
    assert_eq!(all.len(), 2);
    assert!(all[0].same(&conn(1, 1)));
    assert!(all[1].same(&conn(3, 3)));
}

#[test]
fn revoke_removes_exactly_the_denied() {
    let mut m: ConnectionManager<u32> = ConnectionManager::new();
    m.register(&conn(1, 1), 10);
    m.register(&conn(2, 2), 20);
    m.register(&conn(3, 3), 30);
    // one denied twice, one that was never registered
    let denied = vec![conn(3, 3), conn(1, 1), conn(3, 3), conn(7, 7)];
    let mut raised = m.revoke(&denied);
    raised.sort();
    assert_eq!(raised, vec![10, 30]);
    assert_eq!(m.len(), 1);
    assert_eq!(m.track(&conn(2, 2)), Some(&20));
    assert_eq!(m.track(&conn(1, 1)), None);
    assert_eq!(m.track(&conn(3, 3)), None);
    // the task of a revoked flow still releases: nothing happens
    assert_eq!(m.release(&conn(1, 1)), None);
    assert_eq!(m.len(), 1);
}

#[test]
fn revoke_nothing_changes_nothing() {
    let mut m: ConnectionManager<u32> = ConnectionManager::new();
    m.register(&conn(1, 1), 10);
    let raised = m.revoke(&Vec::new());
    assert!(raised.is_empty());
    assert_eq!(m.track(&conn(1, 1)), Some(&10));
}

#[test]
fn identity_same_compares_all_parts() {
    let a = id("app", "web");
    assert!(a.same(&a.duplicate()));
    assert!(!a.same(&id("app", "client")));
    assert!(!a.same(&id("other", "web")));
    assert!(!a.same(&Identity::new("x".to_string(), "app".to_string(), "web".to_string())));
    assert!(ztunnel::identity::same_identity(&None, &None));
    assert!(!ztunnel::identity::same_identity(&Some(id("a", "b")), &None));
    assert!(ztunnel::identity::same_identity(&Some(id("a", "b")), &Some(id("a", "b"))));
}

#[test]
fn duplicate_is_the_same_connection() {
    let c = conn(4, 4);
    let d = c.duplicate();
    assert!(c.same(&d));
    assert_eq!(d.dst_network, "default");
    assert_eq!(d.src, SocketAddr::new(IpAddr::V4(10, 0, 0, 4), 4));
}
