use fn_containers::{
    begin_cleanup, begin_fetch_logs, begin_provision, extract_endpoint, select_image,
    topology_of, Action, EngineEvent, EngineFailure, FunctionSpec, HostBinding, LifecycleError,
    NetworkConfig, Outcome, PortEntry, Session, Stage, Topology,
};

const SOCKET: &str = "unix:///var/run/docker.sock";
const REMOTE: &str = "tcp://10.0.0.5:2375";

fn binding(ip: &str, port: &str) -> HostBinding {
    HostBinding { host_ip: Some(ip.to_string()), host_port: Some(port.to_string()) }
}

fn config(ip: Option<&str>, key: &str, bindings: Option<Vec<HostBinding>>) -> NetworkConfig {
    NetworkConfig {
        ip_address: ip.map(|s| s.to_string()),
        ports: vec![PortEntry { key: key.to_string(), bindings }],
    }
}

fn function(image: &str) -> FunctionSpec {
    FunctionSpec {
        name: "hello".to_string(),
        image: image.to_string(),
        archive: "hello.tar.gz".to_string(),
        main_file: "index.js".to_string(),
    }
}

fn failure(status: Option<u16>, message: &str) -> EngineEvent {
    EngineEvent::Failed(EngineFailure { status, message: message.to_string() })
}

fn pair(h: &str, p: &str) -> Option<(String, String)> {
    Some((h.to_string(), p.to_string()))
}

#[test]
fn supported_image_resolves() {
    let r = select_image("nodejs").unwrap();
    assert_eq!(r, "node:lts-alpine");
    assert!(!r.is_empty());
}

#[test]
fn unsupported_image_is_rejected() {
    match select_image("cobol") {
        Err(LifecycleError::UnsupportedImage(id)) => assert_eq!(id, "cobol"),
        other => panic!("unexpected {:?}", other),
    }
    let e = select_image("").unwrap_err();
    assert_eq!(e.describe(), "unsupported image: ");
}

#[test]
fn topology_follows_endpoint() {
    assert_eq!(topology_of(SOCKET), Topology::Privileged);
    assert_eq!(topology_of(REMOTE), Topology::Unprivileged);
    assert_eq!(topology_of("unix:///run/user/1000/docker.sock"), Topology::Unprivileged);
}

#[test]
fn privileged_takes_host_binding() {
    let c = config(Some("172.17.0.2"), "8080/tcp", Some(vec![binding("0.0.0.0", "49153")]));
    assert_eq!(extract_endpoint(&c, Topology::Privileged, "8080"), pair("0.0.0.0", "49153"));
}

#[test]
fn privileged_prefers_first_ipv4_binding() {
    let c = config(
        None,
        "8080/tcp",
        Some(vec![binding("::", "49153"), binding("127.0.0.1", "49154"), binding("0.0.0.0", "49155")]),
    );
    assert_eq!(extract_endpoint(&c, Topology::Privileged, "8080"), pair("127.0.0.1", "49154"));
}

#[test]
fn privileged_falls_back_to_ipv6_binding() {
    let incomplete = HostBinding { host_ip: Some("10.1.1.1".to_string()), host_port: None };
    let c = config(None, "8080/tcp", Some(vec![incomplete, binding("::1", "49160")]));
    assert_eq!(extract_endpoint(&c, Topology::Privileged, "8080"), pair("::1", "49160"));
}

#[test]
fn privileged_without_bindings_is_none() {
    let c = config(Some("172.17.0.2"), "8080/tcp", None);
    assert_eq!(extract_endpoint(&c, Topology::Privileged, "8080"), None);
    let c = config(Some("172.17.0.2"), "8080/tcp", Some(vec![]));
    assert_eq!(extract_endpoint(&c, Topology::Privileged, "8080"), None);
}

#[test]
fn unprivileged_takes_container_address_and_port() {
    let c = config(Some("172.17.0.2"), "8080/tcp", Some(vec![binding("0.0.0.0", "49153")]));
    assert_eq!(extract_endpoint(&c, Topology::Unprivileged, "8080"), pair("172.17.0.2", "8080"));
}

#[test]
fn unprivileged_without_address_is_none() {
    let c = config(Some(""), "8080/tcp", None);
    assert_eq!(extract_endpoint(&c, Topology::Unprivileged, "8080"), None);
    let c = config(None, "8080/tcp", None);
    assert_eq!(extract_endpoint(&c, Topology::Unprivileged, "8080"), None);
}

#[test]
fn missing_port_entry_is_none_for_both() {
    let c = config(Some("172.17.0.2"), "9090/tcp", Some(vec![binding("0.0.0.0", "49153")]));
    assert_eq!(extract_endpoint(&c, Topology::Privileged, "8080"), None);
    assert_eq!(extract_endpoint(&c, Topology::Unprivileged, "8080"), None);
    let empty = NetworkConfig { ip_address: Some("172.17.0.2".to_string()), ports: vec![] };
    assert_eq!(extract_endpoint(&empty, Topology::Unprivileged, "8080"), None);
}

#[test]
fn first_entry_for_port_is_used() {
    let c = NetworkConfig {
        ip_address: None,
        ports: vec![
            PortEntry { key: "8080/udp".to_string(), bindings: Some(vec![binding("1.1.1.1", "1")]) },
            PortEntry { key: "8080/tcp".to_string(), bindings: Some(vec![binding("2.2.2.2", "2")]) },
            PortEntry { key: "8080/tcp".to_string(), bindings: Some(vec![binding("3.3.3.3", "3")]) },
        ],
    };
    assert_eq!(extract_endpoint(&c, Topology::Privileged, "8080"), pair("2.2.2.2", "2"));
}

fn drive(session: &mut Session, events: Vec<EngineEvent>) -> Vec<Action> {
    let mut actions = Vec::new();
    for e in events {
        actions.push(session.step(e));
    }
    actions
}

#[test]
fn provision_success_delivers_descriptor_once() {
    let (mut s, first) = begin_provision(&function("nodejs"), "fn-1", SOCKET);
    assert!(matches!(&first, Action::PullImage(i) if i == "node:lts-alpine"));
    let c = config(Some("172.17.0.2"), "8080/tcp", Some(vec![binding("0.0.0.0", "49153")]));
    let actions = drive(
        &mut s,
        vec![EngineEvent::Completed, EngineEvent::Completed, EngineEvent::Completed, EngineEvent::Inspected(c)],
    );
    assert!(matches!(&actions[0], Action::CreateContainer { name, image } if name == "fn-1" && image == "node:lts-alpine"));
    assert!(matches!(&actions[1], Action::StartContainer(n) if n == "fn-1"));
    assert!(matches!(&actions[2], Action::InspectContainer(n) if n == "fn-1"));
    match &actions[3] {
        Action::Deliver(Outcome::Container(d)) => {
            assert_eq!(d.name, "fn-1");
            assert_eq!(d.host, "0.0.0.0");
            assert_eq!(d.port, "49153");
        }
        other => panic!("unexpected {:?}", other),
    }
    let deliveries = actions.iter().filter(|a| matches!(a, Action::Deliver(_))).count();
    assert_eq!(deliveries, 1);
    assert_eq!(s.stage, Stage::Finished);
}

#[test]
fn provision_unprivileged_uses_container_address() {
    let (mut s, _) = begin_provision(&function("nodejs"), "fn-2", REMOTE);
    let c = config(Some("10.88.0.7"), "8080/tcp", Some(vec![binding("0.0.0.0", "40000")]));
    let actions = drive(
        &mut s,
        vec![EngineEvent::Completed, EngineEvent::Completed, EngineEvent::Completed, EngineEvent::Inspected(c)],
    );
    match &actions[3] {
        Action::Deliver(Outcome::Container(d)) => {
            assert_eq!((d.host.as_str(), d.port.as_str()), ("10.88.0.7", "8080"));
        }
        other => panic!("unexpected {:?}", other),
    }
}

#[test]
fn provision_start_failure_delivers_error_without_removal() {
    let (mut s, _) = begin_provision(&function("nodejs"), "fn-3", SOCKET);
    let actions = drive(
        &mut s,
        vec![EngineEvent::Completed, EngineEvent::Completed, failure(Some(500), "cannot start")],
    );
    assert_eq!(actions.len(), 3);
    match &actions[2] {
        Action::Deliver(Outcome::Failed(e)) => assert_eq!(e.describe(), "cannot start"),
        other => panic!("unexpected {:?}", other),
    }
    assert!(!actions
        .iter()
        .any(|a| matches!(a, Action::RemoveContainer(_) | Action::KillContainer(_))));
    assert_eq!(s.stage, Stage::Finished);
}

#[test]
fn provision_pull_failure_short_circuits() {
    let (mut s, _) = begin_provision(&function("nodejs"), "fn-4", SOCKET);
    let a = s.step(failure(None, "registry unreachable"));
    assert!(matches!(a, Action::Deliver(Outcome::Failed(LifecycleError::Engine(m))) if m == "registry unreachable"));
}

#[test]
fn provision_unsupported_image_fails_before_engine() {
    let (s, a) = begin_provision(&function("brainfuck"), "fn-5", SOCKET);
    assert_eq!(s.stage, Stage::Finished);
    match a {
        Action::Deliver(Outcome::Failed(e)) => {
            assert_eq!(e.describe(), "unsupported image: brainfuck");
        }
        other => panic!("unexpected {:?}", other),
    }
}

#[test]
fn provision_without_endpoint_reports_extraction_failure() {
    let (mut s, _) = begin_provision(&function("nodejs"), "fn-6", SOCKET);
    let c = config(Some("172.17.0.2"), "8080/tcp", None);
    let actions = drive(
        &mut s,
        vec![EngineEvent::Completed, EngineEvent::Completed, EngineEvent::Completed, EngineEvent::Inspected(c)],
    );
    match &actions[3] {
        Action::Deliver(Outcome::Failed(e)) => {
            assert!(matches!(e, LifecycleError::EndpointMissing));
            assert_eq!(e.describe(), "Error fetching container network configuration");
        }
        other => panic!("unexpected {:?}", other),
    }
}

#[test]
fn unexpected_reply_finishes_request() {
    let (mut s, _) = begin_provision(&function("nodejs"), "fn-7", SOCKET);
    let a = s.step(EngineEvent::Logs(vec![]));
    match a {
        Action::Deliver(Outcome::Failed(e)) => {
            assert_eq!(e.describe(), "unexpected reply from the container engine")
        }
        other => panic!("unexpected {:?}", other),
    }
}

#[test]
fn cleanup_removes_after_already_stopped_kill() {
    let (mut s, first) = begin_cleanup("fn-8", SOCKET);
    assert!(matches!(&first, Action::KillContainer(n) if n == "fn-8"));
    let a = s.step(failure(Some(409), "Container fn-8 is not running"));
    assert!(matches!(&a, Action::RemoveContainer(n) if n == "fn-8"));
    let b = s.step(EngineEvent::Completed);
    assert!(matches!(b, Action::Deliver(Outcome::Removed)));
}

#[test]
fn cleanup_reports_removal_failure_after_already_stopped_kill() {
    let (mut s, _) = begin_cleanup("fn-9", SOCKET);
    let a = s.step(failure(Some(409), "not running"));
    assert!(matches!(a, Action::RemoveContainer(_)));
    let b = s.step(failure(Some(404), "No such container: fn-9"));
    match b {
        Action::Deliver(Outcome::Failed(e)) => assert_eq!(e.describe(), "No such container: fn-9"),
        other => panic!("unexpected {:?}", other),
    }
}

#[test]
fn cleanup_kill_and_remove_succeed() {
    let (mut s, _) = begin_cleanup("fn-10", REMOTE);
    let actions = drive(&mut s, vec![EngineEvent::Completed, EngineEvent::Completed]);
    assert!(matches!(&actions[0], Action::RemoveContainer(n) if n == "fn-10"));
    assert!(matches!(&actions[1], Action::Deliver(Outcome::Removed)));
}

#[test]
fn cleanup_other_kill_failure_stops() {
    let (mut s, _) = begin_cleanup("fn-11", SOCKET);
    let a = s.step(failure(Some(500), "server error"));
    match a {
        Action::Deliver(Outcome::Failed(e)) => assert_eq!(e.describe(), "server error"),
        other => panic!("unexpected {:?}", other),
    }
    assert_eq!(s.stage, Stage::Finished);
}

#[test]
fn logs_are_delivered_in_order() {
    let (mut s, first) = begin_fetch_logs("fn-12", SOCKET);
    assert!(matches!(&first, Action::FetchLogs(n) if n == "fn-12"));
    let lines = vec!["one".to_string(), "two".to_string(), "three".to_string()];
    let a = s.step(EngineEvent::Logs(lines.clone()));
    match a {
        Action::Deliver(Outcome::Logs(v)) => assert_eq!(v, lines),
        other => panic!("unexpected {:?}", other),
    }
    assert_eq!(s.stage, Stage::Finished);
}

#[test]
fn empty_logs_are_delivered() {
    let (mut s, _) = begin_fetch_logs("fn-13", REMOTE);
    match s.step(EngineEvent::Logs(vec![])) {
        Action::Deliver(Outcome::Logs(v)) => assert!(v.is_empty()),
        other => panic!("unexpected {:?}", other),
    }
}

#[test]
fn logs_failure_is_reported() {
    let (mut s, _) = begin_fetch_logs("fn-14", SOCKET);
    match s.step(failure(Some(404), "No such container: fn-14")) {
        Action::Deliver(Outcome::Failed(e)) => assert_eq!(e.describe(), "No such container: fn-14"),
        other => panic!("unexpected {:?}", other),
    }
}

#[test]
fn interleaved_provisions_stay_independent() {
    let (mut a, _) = begin_provision(&function("nodejs"), "fn-a", SOCKET);
    let (mut b, _) = begin_provision(&function("nodejs"), "fn-b", REMOTE);
    let ca = config(Some("172.17.0.2"), "8080/tcp", Some(vec![binding("0.0.0.0", "49001")]));
    let cb = config(Some("172.17.0.3"), "8080/tcp", Some(vec![binding("0.0.0.0", "49002")]));
    let mut out_a = Vec::new();
    let mut out_b = Vec::new();
    out_a.push(a.step(EngineEvent::Completed));
    out_b.push(b.step(EngineEvent::Completed));
    out_b.push(b.step(EngineEvent::Completed));
    out_a.push(a.step(EngineEvent::Completed));
    out_b.push(b.step(EngineEvent::Completed));
    out_a.push(a.step(EngineEvent::Completed));
    out_a.push(a.step(EngineEvent::Inspected(ca)));
    out_b.push(b.step(EngineEvent::Inspected(cb)));
    match (&out_a[3], &out_b[3]) {
        (Action::Deliver(Outcome::Container(da)), Action::Deliver(Outcome::Container(db))) => {
            assert_eq!((da.name.as_str(), da.host.as_str(), da.port.as_str()), ("fn-a", "0.0.0.0", "49001"));
            assert_eq!((db.name.as_str(), db.host.as_str(), db.port.as_str()), ("fn-b", "172.17.0.3", "8080"));
        }
        other => panic!("unexpected {:?}", other),
    }
}
