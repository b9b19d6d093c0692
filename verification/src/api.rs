//! The browser-facing actions: what each one asks of the daemon, and how the
//! daemon's answer is put to the browser.
//!
//! Reply convention: mutating actions answer with the `ActionResult`
//! envelope, `{"ok": true, "message": ...}` or `{"ok": false, "error": ...}`,
//! also when the daemon understood a request and refused it. An HTTP status
//! other than 200 (502, Bad Gateway) is used only where the daemon or an
//! add-on's CLI could not be reached at all, and only by the actions and
//! reads whose success carries data.

use vstd::prelude::*;
use crate::invite::{decode_invite, hex_lower, invite_decoding};
use crate::sync_receiver::{Module, ReceiverStatus};
use crate::text::{decimal, opt_chars, prefix_chars, push_decimal, result_chars, take_chars};
use crate::ipc::{
    expected_ok, call_expect_ok, unexpected_reply_text, DaemonReply, DaemonRequest, GroupMode,
    NetworkInfo, PeerInfo, ReplyMessage, StatusInfo, TransportMode,
};

verus! {

/// HTTP status of a request the daemon was reached for (also when it refused).
pub const STATUS_OK: u16 = 200;
/// HTTP status of a request for which the daemon could not be reached.
pub const STATUS_BAD_GATEWAY: u16 = 502;

/// The "did it work" envelope of every mutating action: either `ok` with a
/// message and no error, or not `ok` with an error and no message.
#[derive(Debug)]
pub struct ActionResult {
    ok: bool,
    message: Option<String>,
    error: Option<String>,
}

impl ActionResult {
    #[verifier::type_invariant]
    spec fn envelope(self) -> bool {
        ||| self.ok && self.message is Some && self.error is None
        ||| !self.ok && self.message is None && self.error is Some
    }

    /// The outcome the envelope reports: the message, or the error.
    pub closed spec fn outcome(self) -> Result<Seq<char>, Seq<char>> {
        if self.ok {
            Ok(self.message->0@)
        } else {
            Err(self.error->0@)
        }
    }

    /// A successful outcome with its message.
    pub fn ok(message: String) -> (r: Self)
        ensures
            r@ == Ok::<Seq<char>, Seq<char>>(message@),
    {
        ActionResult { ok: true, message: Some(message), error: None }
    }

    /// A failed outcome with its error.
    pub fn err(error: String) -> (r: Self)
        ensures
            r@ == Err::<Seq<char>, Seq<char>>(error@),
    {
        ActionResult { ok: false, message: None, error: Some(error) }
    }

    /// Whether the envelope reports success.
    pub fn is_ok(&self) -> (r: bool)
        ensures
            r == self@ is Ok,
    {
        self.ok
    }

    /// The message: present exactly when the envelope reports success.
    pub fn message(&self) -> (r: Option<String>)
        ensures
            r is Some <==> self@ is Ok,
            r matches Some(m) ==> self@ == Ok::<Seq<char>, Seq<char>>(m@),
    {
        proof {
            use_type_invariant(self);
        }
        match &self.message {
            Some(m) => Some(m.clone()),
            None => None,
        }
    }

    /// The error: present exactly when the envelope reports failure.
    pub fn error(&self) -> (r: Option<String>)
        ensures
            r is Some <==> self@ is Err,
            r matches Some(e) ==> self@ == Err::<Seq<char>, Seq<char>>(e@),
    {
        proof {
            use_type_invariant(self);
        }
        match &self.error {
            Some(e) => Some(e.clone()),
            None => None,
        }
    }
}

impl View for ActionResult {
    type V = Result<Seq<char>, Seq<char>>;

    open spec fn view(&self) -> Result<Seq<char>, Seq<char>> {
        self.outcome()
    }
}

/// The body of an HTTP answer: the action envelope, or `{"ok": true}` with
/// the fields of the daemon's structured success reply.
#[derive(Debug)]
pub enum ReplyBody {
    Action(ActionResult),
    Success(ReplyMessage),
}

/// An HTTP answer to the browser.
#[derive(Debug)]
pub struct HttpReply {
    pub status: u16,
    pub body: ReplyBody,
}

/// Turns the outcome of a plain `Ok`/`Error` daemon call into the envelope
/// (always answered with HTTP 200).
pub fn run_action(reply: Result<DaemonReply, String>) -> (r: ActionResult)
    ensures
        r@ == expected_ok(reply),
{
    match call_expect_ok(reply) {
        Ok(message) => ActionResult::ok(message),
        Err(error) => ActionResult::err(error),
    }
}

} // verus!

verus! {

/// Request body of creating a network.
#[derive(Debug)]
pub struct CreateReq {
    pub network_name: Option<String>,
    pub hostname: Option<String>,
    pub subnet: Option<String>,
    /// Proposer threshold for destroying the network; `None` takes the
    /// daemon's default.
    pub nuke_consensus: Option<u32>,
    /// Route the network's transport over Tor.
    pub tor: bool,
}

/// Request body of joining a network.
#[derive(Debug)]
pub struct JoinReq {
    /// The invite code as pasted by the user.
    pub invite_code: String,
    pub alias: Option<String>,
    pub hostname: Option<String>,
    pub tor: bool,
}

/// Request body of leaving a network.
#[derive(Debug)]
pub struct LeaveReq {
    pub force: bool,
}

/// Request body of resuming or standing by; `network: None` means every
/// joined network.
#[derive(Debug)]
pub struct ResumeStandbyReq {
    pub hostname: Option<String>,
    pub network: Option<String>,
}

/// Request body of a manual sync; `network: None` means every joined network.
#[derive(Debug)]
pub struct SyncReq {
    pub network: Option<String>,
}

/// Request body of creating an invite; `expires` is a duration such as
/// `24h`, read by the daemon.
#[derive(Debug)]
pub struct InviteCreateReq {
    pub expires: Option<String>,
}

/// Request body of removing a member: the member's short or full endpoint id.
#[derive(Debug)]
pub struct KickReq {
    pub peer: String,
}

/// Request body of granting admin rights to a member.
#[derive(Debug)]
pub struct AdminAddReq {
    pub peer: String,
}

/// Request body of destroying a network (or proposing, seconding or
/// cancelling its destruction).
#[derive(Debug)]
pub struct NukeReq {
    pub force: bool,
    pub cancel: bool,
    pub second: Option<String>,
}

/// The transport a request asks for: Tor where the user ticked it.
pub open spec fn transport_for(tor: bool) -> Option<TransportMode> {
    if tor {
        Some(TransportMode::Tor)
    } else {
        None
    }
}

fn transport(tor: bool) -> (r: Option<TransportMode>)
    ensures
        r == transport_for(tor),
{
    if tor {
        Some(TransportMode::Tor)
    } else {
        None
    }
}

/// The daemon request of creating a network: always a closed (invite-only)
/// network, never forced.
pub fn create_network_request(req: CreateReq) -> (r: DaemonRequest)
    ensures
        r == (DaemonRequest::Create {
            mode: GroupMode::Restricted,
            network_name: req.network_name,
            hostname: req.hostname,
            transport: transport_for(req.tor),
            subnet: req.subnet,
            nuke_consensus: req.nuke_consensus,
            force: false,
        }),
{
    DaemonRequest::Create {
        mode: GroupMode::Restricted,
        network_name: req.network_name,
        hostname: req.hostname,
        transport: transport(req.tor),
        subnet: req.subnet,
        nuke_consensus: req.nuke_consensus,
        force: false,
    }
}

/// The daemon request of joining with an invite code, or, where the code
/// does not decode, the answer to give at once (HTTP 200, the decode error;
/// the daemon is not asked).
pub fn join_network_request(req: JoinReq) -> (r: Result<DaemonRequest, HttpReply>)
    ensures
        match invite_decoding(req.invite_code@) {
            Err(m) => {
                &&& r matches Err(h)
                &&& h.status == STATUS_OK
                &&& h.body matches ReplyBody::Action(a)
                &&& a@ == Err::<Seq<char>, Seq<char>>(m)
            },
            Ok((key, secret)) => {
                &&& r matches Ok(DaemonRequest::Join { network_key, alias, hostname, transport, invite, force })
                &&& network_key@ == hex_lower(key)
                &&& alias == req.alias
                &&& hostname == req.hostname
                &&& transport == transport_for(req.tor)
                &&& invite matches Some(s)
                &&& s@ == secret
                &&& !force
            },
        },
{
    match decode_invite(req.invite_code.as_str()) {
        Err(e) => Err(HttpReply { status: STATUS_OK, body: ReplyBody::Action(ActionResult::err(e)) }),
        Ok((key, secret)) => Ok(
            DaemonRequest::Join {
                network_key: key.to_string(),
                alias: req.alias,
                hostname: req.hostname,
                transport: transport(req.tor),
                invite: Some(secret),
                force: false,
            },
        ),
    }
}

/// The daemon request of leaving the network with local display name `name`.
pub fn leave_network(name: String, req: LeaveReq) -> (r: DaemonRequest)
    ensures
        r == (DaemonRequest::Leave { network: name, force: req.force }),
{
    DaemonRequest::Leave { network: name, force: req.force }
}

/// The daemon request of resuming (routing traffic again).
pub fn activate(req: ResumeStandbyReq) -> (r: DaemonRequest)
    ensures
        r == (DaemonRequest::Resume { hostname: req.hostname, network: req.network }),
{
    DaemonRequest::Resume { hostname: req.hostname, network: req.network }
}

/// The daemon request of standing by (staying connected without routing).
pub fn deactivate(req: ResumeStandbyReq) -> (r: DaemonRequest)
    ensures
        r == (DaemonRequest::Standby { network: req.network }),
{
    DaemonRequest::Standby { network: req.network }
}

/// The daemon request of waking the network poller now.
pub fn sync_now(req: SyncReq) -> (r: DaemonRequest)
    ensures
        r == (DaemonRequest::Sync { network: req.network }),
{
    DaemonRequest::Sync { network: req.network }
}

/// The daemon request of creating an invite to the network `name`.
pub fn invite_create_request(name: String, req: InviteCreateReq) -> (r: DaemonRequest)
    ensures
        r == (DaemonRequest::InviteCreate { network: name, expires: req.expires }),
{
    DaemonRequest::InviteCreate { network: name, expires: req.expires }
}

/// The daemon request of listing the invites of the network `name`.
pub fn invite_list_request(name: String) -> (r: DaemonRequest)
    ensures
        r == (DaemonRequest::InviteList { network: name }),
{
    DaemonRequest::InviteList { network: name }
}

/// The daemon request of revoking an invite of the network `name`.
pub fn invite_revoke(name: String, invite_id: String) -> (r: DaemonRequest)
    ensures
        r == (DaemonRequest::InviteRevoke { network: name, invite_id: invite_id }),
{
    DaemonRequest::InviteRevoke { network: name, invite_id }
}

/// The daemon request of removing a member; the network is named by its
/// short id (key prefix), the member by its short or full endpoint id.
pub fn kick_member(net_id: String, req: KickReq) -> (r: DaemonRequest)
    ensures
        r == (DaemonRequest::Kick { network_key: net_id, endpoint_id: req.peer }),
{
    DaemonRequest::Kick { network_key: net_id, endpoint_id: req.peer }
}

/// The daemon request of granting admin rights in the network `name`.
pub fn admin_add(name: String, req: AdminAddReq) -> (r: DaemonRequest)
    ensures
        r == (DaemonRequest::AdminAdd { network: name, peer: req.peer }),
{
    DaemonRequest::AdminAdd { network: name, peer: req.peer }
}

/// The daemon request of listing the admins of the network `name`.
pub fn admin_list_request(name: String) -> (r: DaemonRequest)
    ensures
        r == (DaemonRequest::AdminList { network: name }),
{
    DaemonRequest::AdminList { network: name }
}

/// The daemon request of destroying (or proposing, seconding, cancelling the
/// destruction of) the network with short id `net_id`.
pub fn nuke_network(net_id: String, req: NukeReq) -> (r: DaemonRequest)
    ensures
        r == (DaemonRequest::Nuke {
            network_key: net_id,
            force: req.force,
            cancel: req.cancel,
            second: req.second,
        }),
{
    DaemonRequest::Nuke { network_key: net_id, force: req.force, cancel: req.cancel, second: req.second }
}

} // verus!

verus! {

/// The structured success reply an action expects from the daemon.
#[derive(PartialEq, Eq, Structural, Clone, Copy, Debug)]
pub enum ReplyKind {
    Created,
    Joined,
    InviteCreated,
    InviteList,
    AdminList,
}

/// Whether `m` is the success reply of kind `kind`.
pub open spec fn fits(kind: ReplyKind, m: ReplyMessage) -> bool {
    match kind {
        ReplyKind::Created => m is Created,
        ReplyKind::Joined => m is Joined,
        ReplyKind::InviteCreated => m is InviteCreated,
        ReplyKind::InviteList => m is InviteListResponse,
        ReplyKind::AdminList => m is AdminListResponse,
    }
}

/// The error put to the browser for a reply that is not the expected
/// success: the daemon's refusal text, or a message naming the reply.
pub open spec fn refusal_text(d: DaemonReply) -> Seq<char> {
    match d.message {
        ReplyMessage::ErrorMessage { message } => message@,
        _ => unexpected_reply_text(d.debug@),
    }
}

/// How an action whose success carries data answers the browser: 502 with
/// the transport error where the daemon was not reached; otherwise 200, with
/// the success reply's fields where the reply is the expected one, else the
/// error envelope.
pub open spec fn structured_answer(reply: Result<DaemonReply, String>, kind: ReplyKind, r: HttpReply) -> bool {
    match reply {
        Err(e) => {
            &&& r.status == STATUS_BAD_GATEWAY
            &&& r.body matches ReplyBody::Action(a)
            &&& a@ == Err::<Seq<char>, Seq<char>>(e@)
        },
        Ok(d) => {
            &&& r.status == STATUS_OK
            &&& if fits(kind, d.message) {
                r.body == ReplyBody::Success(d.message)
            } else {
                &&& r.body matches ReplyBody::Action(a)
                &&& a@ == Err::<Seq<char>, Seq<char>>(refusal_text(d))
            }
        },
    }
}

fn fits_kind(kind: ReplyKind, m: &ReplyMessage) -> (r: bool)
    ensures
        r == fits(kind, *m),
{
    match kind {
        ReplyKind::Created => matches!(m, ReplyMessage::Created { .. }),
        ReplyKind::Joined => matches!(m, ReplyMessage::Joined { .. }),
        ReplyKind::InviteCreated => matches!(m, ReplyMessage::InviteCreated { .. }),
        ReplyKind::InviteList => matches!(m, ReplyMessage::InviteListResponse { .. }),
        ReplyKind::AdminList => matches!(m, ReplyMessage::AdminListResponse { .. }),
    }
}

fn structured_reply(reply: Result<DaemonReply, String>, kind: ReplyKind) -> (r: HttpReply)
    ensures
        structured_answer(reply, kind, r),
{
    match reply {
        Err(e) => HttpReply { status: STATUS_BAD_GATEWAY, body: ReplyBody::Action(ActionResult::err(e)) },
        Ok(d) => {
            if fits_kind(kind, &d.message) {
                HttpReply { status: STATUS_OK, body: ReplyBody::Success(d.message) }
            } else {
                let error = match d.message {
                    ReplyMessage::ErrorMessage { message } => message,
                    _ => {
                        let mut m = String::from_str("unexpected daemon response: ");
                        m.append(d.debug.as_str());
                        m
                    },
                };
                HttpReply { status: STATUS_OK, body: ReplyBody::Action(ActionResult::err(error)) }
            }
        },
    }
}

/// The answer to creating a network, from the outcome of the daemon call.
pub fn create_network(reply: Result<DaemonReply, String>) -> (r: HttpReply)
    ensures
        structured_answer(reply, ReplyKind::Created, r),
{
    structured_reply(reply, ReplyKind::Created)
}

/// The answer to joining a network, from the outcome of the daemon call.
pub fn join_network(reply: Result<DaemonReply, String>) -> (r: HttpReply)
    ensures
        structured_answer(reply, ReplyKind::Joined, r),
{
    structured_reply(reply, ReplyKind::Joined)
}

/// The answer to creating an invite, from the outcome of the daemon call.
pub fn invite_create(reply: Result<DaemonReply, String>) -> (r: HttpReply)
    ensures
        structured_answer(reply, ReplyKind::InviteCreated, r),
{
    structured_reply(reply, ReplyKind::InviteCreated)
}

/// The answer to listing invites, from the outcome of the daemon call.
pub fn invite_list(reply: Result<DaemonReply, String>) -> (r: HttpReply)
    ensures
        structured_answer(reply, ReplyKind::InviteList, r),
{
    structured_reply(reply, ReplyKind::InviteList)
}

/// The answer to listing admins, from the outcome of the daemon call.
pub fn admin_list(reply: Result<DaemonReply, String>) -> (r: HttpReply)
    ensures
        structured_answer(reply, ReplyKind::AdminList, r),
{
    structured_reply(reply, ReplyKind::AdminList)
}

} // verus!

verus! {

/// Length, in characters, of the short ids the dashboard shows (the same
/// truncation `tetron status` uses).
pub const SHORT_ID_LEN: usize = 10;

/// The short id of an id's text: its first ten characters.
pub open spec fn short_id(id: Seq<char>) -> Seq<char> {
    prefix_chars(id, SHORT_ID_LEN as nat)
}

/// The role marker shown for a peer.
pub open spec fn role_marker(is_coordinator: bool) -> Seq<char> {
    if is_coordinator {
        "admin"@
    } else {
        "member"@
    }
}

/// A peer as the dashboard shows it.
#[derive(Debug)]
pub struct PeerView {
    pub endpoint_id: String,
    pub short_id: String,
    pub ip: String,
    pub ipv6: Option<String>,
    pub hostname: Option<String>,
    /// JSON text of the connection kind, as the daemon reported it.
    pub connection: String,
    /// `admin` or `member`.
    pub role: String,
}

/// A joined network as the dashboard shows it.
#[derive(Debug)]
pub struct NetworkView {
    pub network: String,
    pub role: String,
    pub my_ip: String,
    pub my_ipv6: Option<String>,
    pub my_hostname: Option<String>,
    pub network_key: Option<String>,
    /// The network key's short id, which kick and nuke address it by.
    pub short_id: Option<String>,
    pub member_count: u64,
    pub tun_name: Option<String>,
    pub active: bool,
    pub nuke_proposals: String,
    pub peers: Vec<PeerView>,
}

/// The node's status as the dashboard shows it.
#[derive(Debug)]
pub struct StatusView {
    pub endpoint_id: String,
    pub endpoint_short: String,
    pub active: bool,
    pub daemon_version: String,
    pub networks: Vec<NetworkView>,
    pub packets_rx: u64,
    pub packets_tx: u64,
    pub bytes_rx: u64,
    pub bytes_tx: u64,
    pub drops: String,
    pub fragmented_ipv4: u64,
    pub fragmented_ipv6: u64,
}

/// What the status poll answers: the daemon could not be reached (a normal
/// state, reported in a 200 answer, never as an HTTP error), or its status.
#[derive(Debug)]
pub enum StatusPage {
    Unreachable { message: String },
    Reachable { view: StatusView },
}

/// `v` shows the peer `p`: the same fields, with the short id of its
/// endpoint id and its role marker.
pub open spec fn peer_shown(p: PeerInfo, v: PeerView) -> bool {
    &&& v.endpoint_id@ == p.endpoint_id@
    &&& v.short_id@ == short_id(p.endpoint_id@)
    &&& v.ip@ == p.ip@
    &&& opt_chars(v.ipv6) == opt_chars(p.ipv6)
    &&& opt_chars(v.hostname) == opt_chars(p.hostname)
    &&& v.connection@ == p.connection@
    &&& v.role@ == role_marker(p.is_coordinator)
}

/// `v` shows the network `n`: the same fields, the short id of its key, and
/// each of its peers shown in order.
pub open spec fn network_shown(n: NetworkInfo, v: NetworkView) -> bool {
    &&& v.network@ == n.network@
    &&& v.role@ == n.role@
    &&& v.my_ip@ == n.my_ip@
    &&& opt_chars(v.my_ipv6) == opt_chars(n.my_ipv6)
    &&& opt_chars(v.my_hostname) == opt_chars(n.my_hostname)
    &&& opt_chars(v.network_key) == opt_chars(n.network_key)
    &&& v.short_id is Some <==> n.network_key is Some
    &&& (n.network_key matches Some(k) ==> v.short_id->0@ == short_id(k@))
    &&& v.member_count == n.member_count
    &&& opt_chars(v.tun_name) == opt_chars(n.tun_name)
    &&& v.active == n.active
    &&& v.nuke_proposals@ == n.nuke_proposals@
    &&& v.peers@.len() == n.peers@.len()
    &&& forall|i: int| 0 <= i < n.peers@.len() ==> peer_shown(#[trigger] n.peers@[i], v.peers@[i])
}

/// `v` shows the status `s`: the same fields, the short id of the node's
/// endpoint id, and each network shown in order.
pub open spec fn status_shown(s: StatusInfo, v: StatusView) -> bool {
    &&& v.endpoint_id@ == s.endpoint_id@
    &&& v.endpoint_short@ == short_id(s.endpoint_id@)
    &&& v.active == s.active
    &&& v.daemon_version@ == s.daemon_version@
    &&& v.networks@.len() == s.networks@.len()
    &&& forall|i: int| 0 <= i < s.networks@.len() ==> network_shown(#[trigger] s.networks@[i], v.networks@[i])
    &&& v.packets_rx == s.packets_rx
    &&& v.packets_tx == s.packets_tx
    &&& v.bytes_rx == s.bytes_rx
    &&& v.bytes_tx == s.bytes_tx
    &&& v.drops@ == s.drops@
    &&& v.fragmented_ipv4 == s.fragmented_ipv4
    &&& v.fragmented_ipv6 == s.fragmented_ipv6
}

fn copy_opt(o: &Option<String>) -> (r: Option<String>)
    ensures
        opt_chars(r) == opt_chars(*o),
{
    match o {
        Some(s) => Some(s.clone()),
        None => None,
    }
}

fn show_peer(p: &PeerInfo) -> (v: PeerView)
    ensures
        peer_shown(*p, v),
{
    PeerView {
        endpoint_id: p.endpoint_id.clone(),
        short_id: take_chars(p.endpoint_id.as_str(), SHORT_ID_LEN),
        ip: p.ip.clone(),
        ipv6: copy_opt(&p.ipv6),
        hostname: copy_opt(&p.hostname),
        connection: p.connection.clone(),
        role: if p.is_coordinator {
            String::from_str("admin")
        } else {
            String::from_str("member")
        },
    }
}

fn show_network(n: &NetworkInfo) -> (v: NetworkView)
    ensures
        network_shown(*n, v),
{
    let mut peers: Vec<PeerView> = Vec::new();
    let mut i: usize = 0;
    while i < n.peers.len()
        invariant
            i <= n.peers@.len(),
            peers@.len() == i,
            forall|j: int| 0 <= j < i ==> peer_shown(#[trigger] n.peers@[j], peers@[j]),
        decreases n.peers@.len() - i,
    {
        peers.push(show_peer(&n.peers[i]));
        i = i + 1;
    }
    let short_id = match &n.network_key {
        Some(k) => Some(take_chars(k.as_str(), SHORT_ID_LEN)),
        None => None,
    };
    NetworkView {
        network: n.network.clone(),
        role: n.role.clone(),
        my_ip: n.my_ip.clone(),
        my_ipv6: copy_opt(&n.my_ipv6),
        my_hostname: copy_opt(&n.my_hostname),
        network_key: copy_opt(&n.network_key),
        short_id,
        member_count: n.member_count,
        tun_name: copy_opt(&n.tun_name),
        active: n.active,
        nuke_proposals: n.nuke_proposals.clone(),
        peers,
    }
}

fn show_status(s: &StatusInfo) -> (v: StatusView)
    ensures
        status_shown(*s, v),
{
    let mut networks: Vec<NetworkView> = Vec::new();
    let mut i: usize = 0;
    while i < s.networks.len()
        invariant
            i <= s.networks@.len(),
            networks@.len() == i,
            forall|j: int| 0 <= j < i ==> network_shown(#[trigger] s.networks@[j], networks@[j]),
        decreases s.networks@.len() - i,
    {
        networks.push(show_network(&s.networks[i]));
        i = i + 1;
    }
    StatusView {
        endpoint_id: s.endpoint_id.clone(),
        endpoint_short: take_chars(s.endpoint_id.as_str(), SHORT_ID_LEN),
        active: s.active,
        daemon_version: s.daemon_version.clone(),
        networks,
        packets_rx: s.packets_rx,
        packets_tx: s.packets_tx,
        bytes_rx: s.bytes_rx,
        bytes_tx: s.bytes_tx,
        drops: s.drops.clone(),
        fragmented_ipv4: s.fragmented_ipv4,
        fragmented_ipv6: s.fragmented_ipv6,
    }
}

/// The message of a status reply that is not a status report.
pub open spec fn unexpected_status_text() -> Seq<char> {
    "unexpected daemon response"@
}

/// The status poll's answer, from the outcome of the daemon call: where the
/// daemon was not reached, that fact with the transport's message; where it
/// answered with anything but a status report, "unexpected daemon response";
/// else its status, shown field by field with short ids and role markers.
pub fn get_status(reply: Result<DaemonReply, String>) -> (r: StatusPage)
    ensures
        match reply {
            Err(e) => r matches StatusPage::Unreachable { message } && message@ == e@,
            Ok(d) => match d.message {
                ReplyMessage::StatusResponse { status } => r matches StatusPage::Reachable { view }
                    && status_shown(status, view),
                _ => r matches StatusPage::Unreachable { message } && message@ == unexpected_status_text(),
            },
        },
{
    match reply {
        Err(e) => StatusPage::Unreachable { message: e },
        Ok(d) => match &d.message {
            ReplyMessage::StatusResponse { status } => StatusPage::Reachable { view: show_status(status) },
            _ => StatusPage::Unreachable { message: String::from_str("unexpected daemon response") },
        },
    }
}

} // verus!

verus! {

/// The envelope for an add-on install: its confirmation, or its error.
pub fn addon_install(outcome: Result<String, String>) -> (r: ActionResult)
    ensures
        r@ == result_chars(outcome),
{
    match outcome {
        Ok(message) => ActionResult::ok(message),
        Err(e) => ActionResult::err(e),
    }
}

/// The envelope for an add-on uninstall: its confirmation, or its error.
pub fn addon_uninstall(outcome: Result<String, String>) -> (r: ActionResult)
    ensures
        r@ == result_chars(outcome),
{
    match outcome {
        Ok(message) => ActionResult::ok(message),
        Err(e) => ActionResult::err(e),
    }
}

/// Request body of adding a sync-receiver module.
#[derive(Debug)]
pub struct ModuleAddReq {
    pub name: String,
    pub path: String,
}

/// Request body of allowing an address at the sync receiver.
#[derive(Debug)]
pub struct AllowAddReq {
    pub ip: String,
}

/// Request body of allowing a mesh peer at the sync receiver.
#[derive(Debug)]
pub struct AllowAddPeerReq {
    pub hostname: String,
}

/// Request body of changing the sync receiver's port.
#[derive(Debug)]
pub struct PortReq {
    pub port: u16,
}

/// What a read of the sync receiver is answered with: the value where the
/// receiver's CLI answered, else 502 with its error (for instance when the
/// add-on is not installed).
pub open spec fn gateway_answer<T>(outcome: Result<T, String>, r: Result<T, HttpReply>) -> bool {
    match outcome {
        Ok(v) => r == Ok::<T, HttpReply>(v),
        Err(e) => {
            &&& r matches Err(h)
            &&& h.status == STATUS_BAD_GATEWAY
            &&& h.body matches ReplyBody::Action(a)
            &&& a@ == Err::<Seq<char>, Seq<char>>(e@)
        },
    }
}

fn gateway<T>(outcome: Result<T, String>) -> (r: Result<T, HttpReply>)
    ensures
        gateway_answer(outcome, r),
{
    match outcome {
        Ok(v) => Ok(v),
        Err(e) => Err(HttpReply { status: STATUS_BAD_GATEWAY, body: ReplyBody::Action(ActionResult::err(e)) }),
    }
}

/// The answer to reading the sync receiver's status.
pub fn sync_receiver_status(outcome: Result<ReceiverStatus, String>) -> (r: Result<ReceiverStatus, HttpReply>)
    ensures
        gateway_answer(outcome, r),
{
    gateway(outcome)
}

/// The answer to listing the sync receiver's modules.
pub fn sync_receiver_modules_list(outcome: Result<Vec<Module>, String>) -> (r: Result<Vec<Module>, HttpReply>)
    ensures
        gateway_answer(outcome, r),
{
    gateway(outcome)
}

/// The answer to listing the sync receiver's allowed addresses.
pub fn sync_receiver_allow_list(outcome: Result<Vec<String>, String>) -> (r: Result<Vec<String>, HttpReply>)
    ensures
        gateway_answer(outcome, r),
{
    gateway(outcome)
}

/// The envelope of a configuration change: the given confirmation where it
/// was made, else its error.
pub open spec fn confirmed(outcome: Result<(), String>, message: Seq<char>) -> Result<Seq<char>, Seq<char>> {
    match outcome {
        Ok(_) => Ok(message),
        Err(e) => Err(e@),
    }
}

fn confirm(outcome: Result<(), String>, message: String) -> (r: ActionResult)
    ensures
        r@ == confirmed(outcome, message@),
{
    match outcome {
        Ok(_) => ActionResult::ok(message),
        Err(e) => ActionResult::err(e),
    }
}

fn quoted(before: &str, name: &str, after: &str) -> (r: String)
    ensures
        r@ == before@ + name@ + after@,
{
    let mut m = String::from_str(before);
    m.append(name);
    m.append(after);
    m
}

/// The envelope of adding a sync-receiver module.
pub fn sync_receiver_module_add(req: &ModuleAddReq, outcome: Result<(), String>) -> (r: ActionResult)
    ensures
        r@ == confirmed(outcome, "Module '"@ + req.name@ + "' saved."@),
{
    confirm(outcome, quoted("Module '", req.name.as_str(), "' saved."))
}

/// The envelope of removing a sync-receiver module.
pub fn sync_receiver_module_remove(name: &str, outcome: Result<(), String>) -> (r: ActionResult)
    ensures
        r@ == confirmed(outcome, "Module '"@ + name@ + "' removed."@),
{
    confirm(outcome, quoted("Module '", name, "' removed."))
}

/// The envelope of allowing an address at the sync receiver.
pub fn sync_receiver_allow_add(req: &AllowAddReq, outcome: Result<(), String>) -> (r: ActionResult)
    ensures
        r@ == confirmed(outcome, "'"@ + req.ip@ + "' allowed."@),
{
    confirm(outcome, quoted("'", req.ip.as_str(), "' allowed."))
}

/// The envelope of allowing a mesh peer at the sync receiver.
pub fn sync_receiver_allow_add_peer(req: &AllowAddPeerReq, outcome: Result<(), String>) -> (r: ActionResult)
    ensures
        r@ == confirmed(outcome, "'"@ + req.hostname@ + "' allowed."@),
{
    confirm(outcome, quoted("'", req.hostname.as_str(), "' allowed."))
}

/// The envelope of removing an allowed address at the sync receiver.
pub fn sync_receiver_allow_remove(ip: &str, outcome: Result<(), String>) -> (r: ActionResult)
    ensures
        r@ == confirmed(outcome, "'"@ + ip@ + "' removed."@),
{
    confirm(outcome, quoted("'", ip, "' removed."))
}

/// The envelope of starting the sync receiver.
pub fn sync_receiver_enable(outcome: Result<(), String>) -> (r: ActionResult)
    ensures
        r@ == confirmed(outcome, "Sync Receiver started."@),
{
    confirm(outcome, String::from_str("Sync Receiver started."))
}

/// The envelope of stopping the sync receiver.
pub fn sync_receiver_disable(outcome: Result<(), String>) -> (r: ActionResult)
    ensures
        r@ == confirmed(outcome, "Sync Receiver stopped."@),
{
    confirm(outcome, String::from_str("Sync Receiver stopped."))
}

/// The envelope of changing the sync receiver's port.
pub fn sync_receiver_set_port(req: &PortReq, outcome: Result<(), String>) -> (r: ActionResult)
    ensures
        r@ == confirmed(outcome, "Port changed to "@ + decimal(req.port as nat) + "."@),
{
    let mut m = String::from_str("Port changed to ");
    push_decimal(&mut m, req.port as u64);
    m.append(".");
    confirm(outcome, m)
}

} // verus!

verus! {

/// An action whose success carries data is answered with an HTTP error
/// status (502) exactly when the daemon could not be reached; whatever the
/// daemon answered, refusals included, is answered with 200.
pub proof fn bad_gateway_only_when_unreachable(reply: Result<DaemonReply, String>, kind: ReplyKind, r: HttpReply)
    requires
        structured_answer(reply, kind, r),
    ensures
        r.status == STATUS_BAD_GATEWAY <==> reply is Err,
        r.status == STATUS_OK <==> reply is Ok,
{
}

/// A request the daemon understood and refused reaches the browser as a
/// failed envelope carrying the daemon's own message, both for plain actions
/// and for actions whose success carries data.
pub proof fn refusal_reaches_browser(
    reply: Result<DaemonReply, String>,
    message: String,
    kind: ReplyKind,
    r: HttpReply,
)
    requires
        reply matches Ok(d) && d.message == (ReplyMessage::ErrorMessage { message: message }),
        structured_answer(reply, kind, r),
    ensures
        expected_ok(reply) == Err::<Seq<char>, Seq<char>>(message@),
        r.status == STATUS_OK,
        r.body matches ReplyBody::Action(a) && a@ == Err::<Seq<char>, Seq<char>>(message@),
{
}

/// A join the daemon carried out reaches the browser as success: a
/// `Joined` reply to the join action is answered with 200 and passed on
/// whole, never as an error envelope.
pub proof fn joined_reply_passed_on(d: DaemonReply, r: HttpReply)
    requires
        d.message is Joined,
        structured_answer(Ok::<DaemonReply, String>(d), ReplyKind::Joined, r),
    ensures
        r.status == STATUS_OK,
        r.body == ReplyBody::Success(d.message),
{
}

/// Each action whose success carries data passes on exactly the daemon's
/// success reply of its own kind (`Created` for creating a network, `Joined`
/// for joining one, `InviteCreated`, `InviteListResponse` and
/// `AdminListResponse` for the invite and admin actions) with 200; any
/// other reply that is not a refusal is answered with 200 and an error
/// envelope naming that reply.
pub proof fn own_success_reply_passed_on(d: DaemonReply, kind: ReplyKind, r: HttpReply)
    requires
        structured_answer(Ok::<DaemonReply, String>(d), kind, r),
    ensures
        ({
            let own = match kind {
                ReplyKind::Created => d.message is Created,
                ReplyKind::Joined => d.message is Joined,
                ReplyKind::InviteCreated => d.message is InviteCreated,
                ReplyKind::InviteList => d.message is InviteListResponse,
                ReplyKind::AdminList => d.message is AdminListResponse,
            };
            &&& r.status == STATUS_OK
            &&& own ==> r.body == ReplyBody::Success(d.message)
            &&& !own && !(d.message is ErrorMessage) ==> (r.body matches ReplyBody::Action(a)
                && a@ == Err::<Seq<char>, Seq<char>>(unexpected_reply_text(d.debug@)))
        }),
{
}

/// The dashboard shows a peer as "admin" exactly when the daemon reports it
/// as the network's coordinator, and as "member" otherwise, for every peer
/// of every network of the status shown.
pub proof fn peer_role_follows_coordinator(s: StatusInfo, v: StatusView, i: int, j: int)
    requires
        status_shown(s, v),
        0 <= i < s.networks@.len(),
        0 <= j < s.networks@[i].peers@.len(),
    ensures
        s.networks@[i].peers@[j].is_coordinator ==> v.networks@[i].peers@[j].role@ == "admin"@,
        !s.networks@[i].peers@[j].is_coordinator ==> v.networks@[i].peers@[j].role@ == "member"@,
{
    assert(network_shown(s.networks@[i], v.networks@[i]));
    assert(peer_shown(s.networks@[i].peers@[j], v.networks@[i].peers@[j]));
}

} // verus!
