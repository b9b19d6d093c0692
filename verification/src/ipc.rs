//! The messages exchanged with the tetron daemon over its IPC socket, as
//! this library holds them: the requests the dashboard sends, and the parts
//! of the daemon's replies that the dashboard reads or passes on. Values the
//! dashboard only forwards to the browser unchanged (addresses, invite lists,
//! drop counters and the like) are held as the JSON text the daemon's types
//! serialise to.

use vstd::prelude::*;

verus! {

/// How a new network admits members. The dashboard only ever creates closed
/// (invite-only) networks.
#[derive(PartialEq, Eq, Structural, Clone, Copy, Debug)]
pub enum GroupMode {
    Restricted,
}

/// A transport a network can be told to use instead of relay/direct.
#[derive(PartialEq, Eq, Structural, Clone, Copy, Debug)]
pub enum TransportMode {
    Tor,
}

/// A request to the daemon.
#[derive(Debug)]
#[allow(inconsistent_fields)]
pub enum DaemonRequest {
    Status,
    Create {
        mode: GroupMode,
        network_name: Option<String>,
        hostname: Option<String>,
        transport: Option<TransportMode>,
        subnet: Option<String>,
        nuke_consensus: Option<u32>,
        force: bool,
    },
    Join {
        network_key: String,
        alias: Option<String>,
        hostname: Option<String>,
        transport: Option<TransportMode>,
        invite: Option<Vec<u8>>,
        force: bool,
    },
    Leave { network: String, force: bool },
    Resume { hostname: Option<String>, network: Option<String> },
    Standby { network: Option<String> },
    Sync { network: Option<String> },
    InviteCreate { network: String, expires: Option<String> },
    InviteList { network: String },
    InviteRevoke { network: String, invite_id: String },
    Kick { network_key: String, endpoint_id: String },
    AdminAdd { network: String, peer: String },
    AdminList { network: String },
    Nuke { network_key: String, force: bool, cancel: bool, second: Option<String> },
}

/// The request for the daemon's status.
pub fn status_request() -> (r: DaemonRequest)
    ensures
        r is Status,
{
    DaemonRequest::Status
}

/// One peer of a joined network, as the daemon's status reports it.
#[derive(Debug)]
pub struct PeerInfo {
    /// The peer's endpoint id in its text form.
    pub endpoint_id: String,
    pub ip: String,
    pub ipv6: Option<String>,
    pub hostname: Option<String>,
    /// JSON text of the connection kind (direct / relay / tor and its details).
    pub connection: String,
    pub is_coordinator: bool,
}

/// One joined network, as the daemon's status reports it.
#[derive(Debug)]
pub struct NetworkInfo {
    /// The local display name of the network.
    pub network: String,
    /// The text form of this node's role in the network.
    pub role: String,
    pub my_ip: String,
    pub my_ipv6: Option<String>,
    pub my_hostname: Option<String>,
    /// The network's public key in its text form, where the daemon knows it.
    pub network_key: Option<String>,
    pub member_count: u64,
    pub tun_name: Option<String>,
    pub active: bool,
    /// JSON text of the open nuke proposals.
    pub nuke_proposals: String,
    pub peers: Vec<PeerInfo>,
}

/// The daemon's answer to a status request.
#[derive(Debug)]
pub struct StatusInfo {
    /// This node's endpoint id in its text form.
    pub endpoint_id: String,
    pub active: bool,
    pub daemon_version: String,
    pub networks: Vec<NetworkInfo>,
    pub packets_rx: u64,
    pub packets_tx: u64,
    pub bytes_rx: u64,
    pub bytes_tx: u64,
    /// JSON text of the per-reason drop counters.
    pub drops: String,
    pub fragmented_ipv4: u64,
    pub fragmented_ipv6: u64,
}

/// What a daemon reply says. Fields other than names and messages are the
/// JSON text of the daemon's values, passed on to the browser unchanged.
#[derive(Debug)]
pub enum ReplyMessage {
    /// The request was carried out; a human-readable confirmation.
    OkMessage { message: String },
    /// The daemon understood the request and refused it.
    ErrorMessage { message: String },
    StatusResponse { status: StatusInfo },
    Created {
        network: String,
        network_key: String,
        my_ip: String,
        my_ipv6: String,
        warning: String,
        initial_invite_key: String,
        subnet: String,
    },
    Joined { network: String, my_ip: String, my_ipv6: String, warning: String },
    InviteCreated { invite_key: String, invite_id: String, expires_at: String },
    InviteListResponse { invites: String },
    AdminListResponse { admins: String },
    /// Any other message the daemon may send.
    Other,
}

/// A reply from the daemon, with the text its `Debug` form prints (used to
/// report a reply that does not fit the request).
#[derive(Debug)]
pub struct DaemonReply {
    pub message: ReplyMessage,
    pub debug: String,
}

/// The message for a reply that does not fit the request it answers.
pub open spec fn unexpected_reply_text(debug: Seq<char>) -> Seq<char> {
    "unexpected daemon response: "@ + debug
}

/// What `call_expect_ok` makes of the outcome of a daemon call: the
/// confirmation text of an `Ok` reply, the refusal text of an `Error` reply,
/// the transport error as it came, or a message naming any other reply.
pub open spec fn expected_ok(reply: Result<DaemonReply, String>) -> Result<Seq<char>, Seq<char>> {
    match reply {
        Err(e) => Err(e@),
        Ok(r) => match r.message {
            ReplyMessage::OkMessage { message } => Ok(message@),
            ReplyMessage::ErrorMessage { message } => Err(message@),
            _ => Err(unexpected_reply_text(r.debug@)),
        },
    }
}

/// Collapses the outcome of a daemon call that is expected to come back as a
/// plain `Ok` or `Error` into the message text, tagged with which it was.
/// `reply` is what the transport gave: the daemon's reply, or the text of the
/// failure to reach it.
pub fn call_expect_ok(reply: Result<DaemonReply, String>) -> (r: Result<String, String>)
    ensures
        r matches Ok(m) ==> expected_ok(reply) == Ok::<Seq<char>, Seq<char>>(m@),
        r matches Err(e) ==> expected_ok(reply) == Err::<Seq<char>, Seq<char>>(e@),
        r is Ok <==> expected_ok(reply) is Ok,
{
    match reply {
        Err(e) => Err(e),
        Ok(r) => match r.message {
            ReplyMessage::OkMessage { message } => Ok(message),
            ReplyMessage::ErrorMessage { message } => Err(message),
            _ => {
                let mut m = String::from_str("unexpected daemon response: ");
                m.append(r.debug.as_str());
                Err(m)
            },
        },
    }
}

} // verus!
