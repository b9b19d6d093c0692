use tetron_webui::api::{
    activate, addon_install, create_network, create_network_request, deactivate, get_status,
    join_network_request, kick_member, leave_network, nuke_network, run_action, sync_receiver_set_port,
    sync_receiver_status, sync_receiver_module_add, ActionResult, CreateReq, JoinReq, KickReq, LeaveReq,
    ModuleAddReq, NukeReq, PortReq, ReplyBody, ResumeStandbyReq, StatusPage,
};
use tetron_webui::ipc::{
    call_expect_ok, DaemonReply, DaemonRequest, GroupMode, NetworkInfo, PeerInfo, ReplyMessage, StatusInfo,
    TransportMode,
};
use tetron_webui::sync_receiver::ReceiverStatus;

fn reply(message: ReplyMessage, debug: &str) -> Result<DaemonReply, String> {
    Ok(DaemonReply { message, debug: debug.to_string() })
}

fn action(r: &ActionResult) -> (bool, Option<String>, Option<String>) {
    (r.is_ok(), r.message(), r.error())
}

#[test]
fn call_expect_ok_tags_ok_and_error() {
    let ok = reply(ReplyMessage::OkMessage { message: "left net".to_string() }, "Ok");
    assert_eq!(call_expect_ok(ok), Ok("left net".to_string()));
    let refused = reply(ReplyMessage::ErrorMessage { message: "permission denied".to_string() }, "Error");
    assert_eq!(call_expect_ok(refused), Err("permission denied".to_string()));
    let other = reply(ReplyMessage::Other, "Pong");
    assert_eq!(call_expect_ok(other), Err("unexpected daemon response: Pong".to_string()));
    assert_eq!(call_expect_ok(Err("could not reach the tetron daemon: x".to_string())), Err("could not reach the tetron daemon: x".to_string()));
}

#[test]
fn action_envelope_has_exactly_one_of_message_and_error() {
    let a = run_action(reply(ReplyMessage::OkMessage { message: "done".to_string() }, "Ok"));
    assert_eq!(action(&a), (true, Some("done".to_string()), None));
    let b = run_action(reply(ReplyMessage::ErrorMessage { message: "no".to_string() }, "Error"));
    assert_eq!(action(&b), (false, None, Some("no".to_string())));
}

#[test]
fn created_reply_is_passed_on_and_refusal_is_200() {
    let created = ReplyMessage::Created {
        network: "home".to_string(),
        network_key: "\"abcdef\"".to_string(),
        my_ip: "\"10.0.0.1\"".to_string(),
        my_ipv6: "null".to_string(),
        warning: "null".to_string(),
        initial_invite_key: "\"k\"".to_string(),
        subnet: "\"10.0.0.0/24\"".to_string(),
    };
    let r = create_network(reply(created, "Created"));
    assert_eq!(r.status, 200);
    assert!(matches!(r.body, ReplyBody::Success(ReplyMessage::Created { .. })));

    let r = create_network(reply(ReplyMessage::ErrorMessage { message: "name taken".to_string() }, "Error"));
    assert_eq!(r.status, 200);
    match r.body {
        ReplyBody::Action(a) => assert_eq!(action(&a), (false, None, Some("name taken".to_string()))),
        _ => panic!("expected an envelope"),
    }

    let r = create_network(reply(ReplyMessage::OkMessage { message: "?".to_string() }, "Ok { message: \"?\" }"));
    match r.body {
        ReplyBody::Action(a) => assert_eq!(a.error(), Some("unexpected daemon response: Ok { message: \"?\" }".to_string())),
        _ => panic!("expected an envelope"),
    }

    let r = create_network(Err("could not reach the tetron daemon: refused".to_string()));
    assert_eq!(r.status, 502);
}

#[test]
fn create_request_is_restricted_and_not_forced() {
    let r = create_network_request(CreateReq {
        network_name: Some("home".to_string()),
        hostname: None,
        subnet: None,
        nuke_consensus: Some(3),
        tor: true,
    });
    match r {
        DaemonRequest::Create { mode, network_name, transport, nuke_consensus, force, .. } => {
            assert_eq!(mode, GroupMode::Restricted);
            assert_eq!(network_name.as_deref(), Some("home"));
            assert_eq!(transport, Some(TransportMode::Tor));
            assert_eq!(nuke_consensus, Some(3));
            assert!(!force);
        }
        _ => panic!("expected Create"),
    }
}

#[test]
fn join_with_a_bad_code_answers_at_once() {
    let r = join_network_request(JoinReq { invite_code: "0".to_string(), alias: None, hostname: None, tor: false });
    match r {
        Err(h) => {
            assert_eq!(h.status, 200);
            match h.body {
                ReplyBody::Action(a) => assert!(a.error().unwrap().starts_with("invalid invite code: ")),
                _ => panic!("expected an envelope"),
            }
        }
        Ok(_) => panic!("a bad code must not reach the daemon"),
    }
}

#[test]
fn join_with_a_good_code_sends_the_hex_key_and_secret() {
    let id = iroh::SecretKey::from([8u8; 32]).public();
    let mut bytes = id.as_bytes().to_vec();
    bytes.extend_from_slice(&[6u8; 16]);
    let code = bs58::encode(&bytes).into_string();
    match join_network_request(JoinReq { invite_code: code, alias: Some("a".to_string()), hostname: None, tor: false }) {
        Ok(DaemonRequest::Join { network_key, alias, invite, force, transport, .. }) => {
            assert_eq!(network_key, id.to_string());
            assert_eq!(alias.as_deref(), Some("a"));
            assert_eq!(invite, Some(vec![6u8; 16]));
            assert!(!force);
            assert_eq!(transport, None);
        }
        _ => panic!("expected Join"),
    }
}

#[test]
fn simple_requests_carry_their_fields() {
    assert!(matches!(leave_network("home".to_string(), LeaveReq { force: true }),
        DaemonRequest::Leave { network, force: true } if network == "home"));
    assert!(matches!(activate(ResumeStandbyReq { hostname: Some("h".to_string()), network: None }),
        DaemonRequest::Resume { hostname: Some(h), network: None } if h == "h"));
    assert!(matches!(deactivate(ResumeStandbyReq { hostname: Some("h".to_string()), network: Some("n".to_string()) }),
        DaemonRequest::Standby { network: Some(n) } if n == "n"));
    assert!(matches!(kick_member("abcdef0123".to_string(), KickReq { peer: "p".to_string() }),
        DaemonRequest::Kick { network_key, endpoint_id } if network_key == "abcdef0123" && endpoint_id == "p"));
    assert!(matches!(nuke_network("k".to_string(), NukeReq { force: false, cancel: true, second: None }),
        DaemonRequest::Nuke { cancel: true, force: false, second: None, .. }));
}

fn sample_status() -> StatusInfo {
    StatusInfo {
        endpoint_id: "0123456789abcdef".to_string(),
        active: true,
        daemon_version: "1.2.3".to_string(),
        networks: vec![NetworkInfo {
            network: "home".to_string(),
            role: "coordinator".to_string(),
            my_ip: "10.0.0.1".to_string(),
            my_ipv6: None,
            my_hostname: Some("me".to_string()),
            network_key: Some("fedcba9876543210".to_string()),
            member_count: 2,
            tun_name: None,
            active: true,
            nuke_proposals: "[]".to_string(),
            peers: vec![PeerInfo {
                endpoint_id: "aaaaaaaaaabbbbbb".to_string(),
                ip: "10.0.0.2".to_string(),
                ipv6: None,
                hostname: None,
                connection: "\"Direct\"".to_string(),
                is_coordinator: false,
            }],
        }],
        packets_rx: 1,
        packets_tx: 2,
        bytes_rx: 3,
        bytes_tx: 4,
        drops: "{}".to_string(),
        fragmented_ipv4: 0,
        fragmented_ipv6: 0,
    }
}

#[test]
fn status_is_shown_with_short_ids_and_roles() {
    match get_status(reply(ReplyMessage::StatusResponse { status: sample_status() }, "StatusResponse")) {
        StatusPage::Reachable { view } => {
            assert_eq!(view.endpoint_short, "0123456789");
            assert_eq!(view.networks[0].short_id.as_deref(), Some("fedcba9876"));
            assert_eq!(view.networks[0].peers[0].short_id, "aaaaaaaaaa");
            assert_eq!(view.networks[0].peers[0].role, "member");
            assert_eq!(view.bytes_tx, 4);
        }
        StatusPage::Unreachable { .. } => panic!("expected a status"),
    }
}

#[test]
fn unreachable_daemon_is_a_normal_status() {
    match get_status(Err("could not reach the tetron daemon: no socket".to_string())) {
        StatusPage::Unreachable { message } => assert_eq!(message, "could not reach the tetron daemon: no socket"),
        _ => panic!("expected unreachable"),
    }
    match get_status(reply(ReplyMessage::ErrorMessage { message: "x".to_string() }, "Error")) {
        StatusPage::Unreachable { message } => assert_eq!(message, "unexpected daemon response"),
        _ => panic!("expected unreachable"),
    }
}

#[test]
fn addon_and_sync_receiver_envelopes() {
    assert_eq!(action(&addon_install(Ok("done".to_string()))), (true, Some("done".to_string()), None));
    assert_eq!(action(&addon_install(Err("no".to_string()))), (false, None, Some("no".to_string())));
    let m = sync_receiver_module_add(&ModuleAddReq { name: "photos".to_string(), path: "/p".to_string() }, Ok(()));
    assert_eq!(m.message(), Some("Module 'photos' saved.".to_string()));
    let p = sync_receiver_set_port(&PortReq { port: 8730 }, Ok(()));
    assert_eq!(p.message(), Some("Port changed to 8730.".to_string()));
    let s = sync_receiver_status(Err("failed to run tetron-sync-receiver: not found".to_string()));
    match s {
        Err(h) => assert_eq!(h.status, 502),
        Ok(_) => panic!("expected 502"),
    }
    let s = sync_receiver_status(Ok(ReceiverStatus { active: true, port: 873, module_count: 1, allow_count: 0 }));
    assert_eq!(s.ok().map(|st| st.port), Some(873));
}
