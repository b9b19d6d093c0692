use tetron_webui::board_discovery::{
    board_from_health, board_port, cache_is_fresh, members_of, network_boards, networks_to_probe, probe_one, probe_args, sort_boards, Board,
    BoardsByNetwork, HealthReport, DEFAULT_BOARD_PORT,
};
use tetron_webui::command::CommandOutput;
use tetron_webui::ipc::{status_request, DaemonReply, DaemonRequest, NetworkInfo, PeerInfo, ReplyMessage, StatusInfo};

fn board(host: &str, admin: bool) -> Board {
    Board { host: host.to_string(), ip: "10.0.0.9".to_string(), url: "http://10.0.0.9:28088/".to_string(), admin }
}

fn health(service: Option<&str>, network: Option<&str>, admin: Option<bool>) -> HealthReport {
    HealthReport {
        service: service.map(|s| s.to_string()),
        network: network.map(|s| s.to_string()),
        installed_by_coordinator: admin,
    }
}

#[test]
fn port_default_and_override() {
    assert_eq!(board_port(None), DEFAULT_BOARD_PORT);
    assert_eq!(board_port(Some("9000".to_string())), 9000);
    assert_eq!(board_port(Some("x".to_string())), 28088);
}

#[test]
fn members_are_self_then_peers_with_ip_fallback() {
    let net = NetworkInfo {
        network: "home".to_string(),
        role: "member".to_string(),
        my_ip: "10.0.0.1".to_string(),
        my_ipv6: None,
        my_hostname: None,
        network_key: None,
        member_count: 3,
        tun_name: None,
        active: true,
        nuke_proposals: "[]".to_string(),
        peers: vec![
            PeerInfo { endpoint_id: "a".into(), ip: "10.0.0.2".into(), ipv6: None, hostname: Some("laptop".into()), connection: "null".into(), is_coordinator: true },
            PeerInfo { endpoint_id: "b".into(), ip: "10.0.0.3".into(), ipv6: None, hostname: None, connection: "null".into(), is_coordinator: false },
        ],
    };
    let m = members_of(&net);
    assert_eq!(
        m,
        vec![
            ("10.0.0.1".to_string(), "10.0.0.1".to_string()),
            ("10.0.0.2".to_string(), "laptop".to_string()),
            ("10.0.0.3".to_string(), "10.0.0.3".to_string()),
        ]
    );
}

#[test]
fn probe_command() {
    assert_eq!(probe_args("10.0.0.2", 28088), vec!["-fsS", "--max-time", "2", "http://10.0.0.2:28088/health"]);
}

#[test]
fn only_boards_of_the_probed_network_count() {
    let b = board_from_health("10.0.0.2".into(), 28088, "laptop".into(), "home", &health(Some("tetron-messageboard"), Some("home"), Some(true))).unwrap();
    assert_eq!((b.host.as_str(), b.ip.as_str(), b.url.as_str(), b.admin), ("laptop", "10.0.0.2", "http://10.0.0.2:28088/", true));
    let b = board_from_health("10.0.0.2".into(), 1, "h".into(), "home", &health(Some("tetron-messageboard"), Some("home"), None)).unwrap();
    assert!(!b.admin);
    assert!(board_from_health("10.0.0.2".into(), 1, "h".into(), "home", &health(Some("tetron-messageboard"), Some("work"), None)).is_none());
    assert!(board_from_health("10.0.0.2".into(), 1, "h".into(), "home", &health(Some("other"), Some("home"), None)).is_none());
    assert!(board_from_health("10.0.0.2".into(), 1, "h".into(), "home", &health(None, None, None)).is_none());
}

#[test]
fn boards_list_admins_first_then_by_host() {
    let sorted = sort_boards(vec![board("zeta", false), board("beta", true), board("alpha", false), board("alpha", true)]);
    let order: Vec<(&str, bool)> = sorted.iter().map(|b| (b.host.as_str(), b.admin)).collect();
    assert_eq!(order, vec![("alpha", true), ("beta", true), ("alpha", false), ("zeta", false)]);
}

#[test]
fn networks_without_boards_are_left_out() {
    assert!(network_boards(vec![None, None]).is_none());
    let found = network_boards(vec![None, Some(board("b", false)), Some(board("a", false))]).unwrap();
    assert_eq!(found.iter().map(|b| b.host.as_str()).collect::<Vec<_>>(), vec!["a", "b"]);

    let mut map = BoardsByNetwork::new();
    map.record("empty".to_string(), vec![None]);
    map.record("home".to_string(), vec![Some(board("h", true))]);
    let names: Vec<&str> = map.entries().iter().map(|(n, _)| n.as_str()).collect();
    assert_eq!(names, vec!["home"]);
}

#[test]
fn cache_freshness() {
    assert!(cache_is_fresh(59_999, 60_000));
    assert!(!cache_is_fresh(60_000, 60_000));
}

fn network(name: &str) -> NetworkInfo {
    NetworkInfo {
        network: name.to_string(),
        role: "member".to_string(),
        my_ip: "10.0.0.1".to_string(),
        my_ipv6: None,
        my_hostname: None,
        network_key: None,
        member_count: 1,
        tun_name: None,
        active: true,
        nuke_proposals: "[]".to_string(),
        peers: vec![],
    }
}

#[test]
fn networks_come_from_a_status_reply_only() {
    assert!(matches!(status_request(), DaemonRequest::Status));
    let status = StatusInfo {
        endpoint_id: "e".to_string(),
        active: true,
        daemon_version: "1".to_string(),
        networks: vec![network("home"), network("work")],
        packets_rx: 0,
        packets_tx: 0,
        bytes_rx: 0,
        bytes_tx: 0,
        drops: "{}".to_string(),
        fragmented_ipv4: 0,
        fragmented_ipv6: 0,
    };
    let reply = Ok(DaemonReply { message: ReplyMessage::StatusResponse { status }, debug: "StatusResponse".to_string() });
    let names: Vec<String> = networks_to_probe(reply).into_iter().map(|n| n.network).collect();
    assert_eq!(names, vec!["home".to_string(), "work".to_string()]);
    let other = Ok(DaemonReply { message: ReplyMessage::OkMessage { message: "ok".to_string() }, debug: "Ok".to_string() });
    assert!(networks_to_probe(other).is_empty());
    assert!(networks_to_probe(Err("could not reach the tetron daemon".to_string())).is_empty());
}

fn ran(success: bool, stdout: &str) -> Result<CommandOutput, String> {
    Ok(CommandOutput { success, stdout: stdout.as_bytes().to_vec(), stderr: vec![] })
}

fn probe(run: Result<CommandOutput, String>) -> Option<Board> {
    probe_one("10.0.0.2".to_string(), 28088, "laptop".to_string(), "home", run)
}

#[test]
fn probe_reads_the_health_answer() {
    let b = probe(ran(true, r#"{"service":"tetron-messageboard","network":"home","installed_by_coordinator":true}"#))
        .expect("a board");
    assert_eq!((b.host.as_str(), b.ip.as_str(), b.url.as_str(), b.admin), ("laptop", "10.0.0.2", "http://10.0.0.2:28088/", true));
    let b = probe(ran(true, r#"{"service":"tetron-messageboard","network":"home"}"#)).expect("a board");
    assert!(!b.admin);
    let b = probe(ran(true, r#"{"service":"tetron-messageboard","network":"home","installed_by_coordinator":"yes"}"#))
        .expect("a board");
    assert!(!b.admin);
}

#[test]
fn probe_rejects_anything_but_a_board_of_this_network() {
    assert!(probe(ran(true, r#"{"service":"tetron-messageboard","network":"work"}"#)).is_none());
    assert!(probe(ran(true, r#"{"service":"something-else","network":"home"}"#)).is_none());
    assert!(probe(ran(true, r#"{"network":"home"}"#)).is_none());
    assert!(probe(ran(true, r#"["tetron-messageboard","home"]"#)).is_none());
    assert!(probe(ran(true, "not json")).is_none());
    assert!(probe(ran(false, r#"{"service":"tetron-messageboard","network":"home"}"#)).is_none());
    assert!(probe(Err("No such file or directory (os error 2)".to_string())).is_none());
}
