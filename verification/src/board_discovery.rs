//! Network-wide discovery of running message boards. Every member of every
//! joined network (this node included) is probed on the board port for
//! `GET /health`; whoever answers as a board of that very network is listed,
//! admin-hosted boards first, then by host.

use vstd::prelude::*;
use crate::command::CommandOutput;
use crate::ipc::{DaemonReply, NetworkInfo, ReplyMessage};
use vstd::multiset::Multiset;
use crate::text::{decimal, opt_chars, parse_u16, parsed_u16, push_decimal, str_eq};

verus! {

broadcast use vstd::seq_lib::group_to_multiset_ensures;

/// How long a discovery result is served before the next request re-probes.
pub const CACHE_TTL_SECS: u64 = 60;

/// Per-member probe timeout; a member that does not answer in time has no board.
pub const PROBE_TIMEOUT_SECS: u64 = 2;

/// The board's default port (only this port is probed unless overridden).
pub const DEFAULT_BOARD_PORT: u16 = 28088;

/// The port to probe, from the value of `TETRON_MESSAGEBOARD_PORT`
/// (`env_value`): that number where it parses as a port, else the default.
pub fn board_port(env_value: Option<String>) -> (r: u16)
    ensures
        r == (match env_value {
            Some(v) => match parsed_u16(v@) {
                Some(p) => p,
                None => DEFAULT_BOARD_PORT,
            },
            None => DEFAULT_BOARD_PORT,
        }),
{
    match env_value {
        Some(v) => match parse_u16(v.as_str()) {
            Some(p) => p,
            None => DEFAULT_BOARD_PORT,
        },
        None => DEFAULT_BOARD_PORT,
    }
}

/// Whether a cached result of the given age may still be served.
pub fn cache_is_fresh(age_millis: u64, ttl_millis: u64) -> (r: bool)
    ensures
        r == (age_millis < ttl_millis),
{
    age_millis < ttl_millis
}

/// One discovered board, as the dashboard shows it.
#[derive(Debug)]
pub struct Board {
    /// Roster hostname of the hosting node (its mesh IP where it has none).
    pub host: String,
    pub ip: String,
    /// The board's address to open.
    pub url: String,
    /// Whether the board was installed by a network admin (shown normally;
    /// member-hosted boards are shown dimmed).
    pub admin: bool,
}

/// What a member's `/health` answer says, field by field: `None` where the
/// field is missing or not of the expected kind.
#[derive(Debug)]
pub struct HealthReport {
    pub service: Option<String>,
    pub network: Option<String>,
    pub installed_by_coordinator: Option<bool>,
}

/// The three fields of a health answer as plain values: `service`,
/// `network` and `installed_by_coordinator`.
pub open spec fn health_view(h: HealthReport) -> (Option<Seq<char>>, Option<Seq<char>>, Option<bool>) {
    (opt_chars(h.service), opt_chars(h.network), h.installed_by_coordinator)
}

/// What `serde_json::from_slice` into a JSON value, then `get` of the keys
/// `service`, `network` and `installed_by_coordinator` read as a string, a
/// string and a boolean, make of the bytes `body`: `None` where the bytes are
/// not JSON, else each field (`None` where the key is missing, the value is
/// not an object, or the field is not of that kind).
pub uninterp spec fn health_fields(body: Seq<u8>) -> Option<(Option<Seq<char>>, Option<Seq<char>>, Option<bool>)>;

/// Parses a health answer with `serde_json::from_slice` into a
/// `serde_json::Value` and reads its three fields with `Value::get`,
/// `Value::as_str` and `Value::as_bool`. Claimed: the result is what
/// `health_fields` names for these bytes (parsing is a function of the bytes).
#[verifier::external_body]
fn parse_health(body: &[u8]) -> (r: Option<HealthReport>)
    ensures
        (match health_fields(body@) {
            None => r is None,
            Some(f) => r matches Some(h) && health_view(h) == f,
        }),
{
    match serde_json::from_slice::<serde_json::Value>(body) {
        Ok(v) => Some(HealthReport {
            service: v.get("service").and_then(serde_json::Value::as_str).map(String::from),
            network: v.get("network").and_then(serde_json::Value::as_str).map(String::from),
            installed_by_coordinator: v.get("installed_by_coordinator").and_then(serde_json::Value::as_bool),
        }),
        Err(_) => None,
    }
}

/// The name a member's host is shown by: its hostname, else its IP.
pub open spec fn host_label(ip: Seq<char>, hostname: Option<Seq<char>>) -> Seq<char> {
    match hostname {
        Some(h) => h,
        None => ip,
    }
}

/// The members of a network to probe, as (ip, host) pairs: this node first,
/// then each peer in order.
pub open spec fn member_list(net: NetworkInfo) -> Seq<(Seq<char>, Seq<char>)> {
    seq![(net.my_ip@, host_label(net.my_ip@, opt_chars(net.my_hostname)))] + net.peers@.map_values(
        |p: crate::ipc::PeerInfo| (p.ip@, host_label(p.ip@, opt_chars(p.hostname))),
    )
}

/// The characters of each (ip, host) pair.
pub open spec fn pair_texts(v: Seq<(String, String)>) -> Seq<(Seq<char>, Seq<char>)> {
    v.map_values(|p: (String, String)| (p.0@, p.1@))
}

fn label(ip: &String, hostname: &Option<String>) -> (r: String)
    ensures
        r@ == host_label(ip@, opt_chars(*hostname)),
{
    match hostname {
        Some(h) => h.clone(),
        None => ip.clone(),
    }
}

/// The networks whose members are probed, from the daemon's answer to a
/// status request: those it reports, or none where the daemon could not be
/// reached or answered with anything but a status.
pub fn networks_to_probe(reply: Result<DaemonReply, String>) -> (r: Vec<NetworkInfo>)
    ensures
        match reply {
            Ok(DaemonReply { message: ReplyMessage::StatusResponse { status }, .. }) => r@ == status.networks@,
            _ => r@.len() == 0,
        },
{
    match reply {
        Ok(r) => match r.message {
            ReplyMessage::StatusResponse { status } => status.networks,
            _ => Vec::new(),
        },
        Err(_) => Vec::new(),
    }
}

/// The members of `net` to probe: this node, then its peers.
pub fn members_of(net: &NetworkInfo) -> (r: Vec<(String, String)>)
    ensures
        pair_texts(r@) == member_list(*net),
{
    let mut r: Vec<(String, String)> = Vec::new();
    r.push((net.my_ip.clone(), label(&net.my_ip, &net.my_hostname)));
    assert(pair_texts(r@) =~= member_list(*net).take(1));
    let mut i: usize = 0;
    while i < net.peers.len()
        invariant
            i <= net.peers@.len(),
            pair_texts(r@) == member_list(*net).take(i + 1),
        decreases net.peers@.len() - i,
    {
        let p = &net.peers[i];
        let ghost before = r@;
        r.push((p.ip.clone(), label(&p.ip, &p.hostname)));
        assert(pair_texts(r@) =~= pair_texts(before).push((p.ip@, host_label(p.ip@, opt_chars(p.hostname)))));
        assert(member_list(*net)[i + 1] == (p.ip@, host_label(p.ip@, opt_chars(p.hostname))));
        assert(member_list(*net).take(i + 2) =~= member_list(*net).take(i + 1).push(member_list(*net)[i + 1]));
        i = i + 1;
    }
    assert(member_list(*net).take(i + 1) =~= member_list(*net));
    r
}

/// The address probed for a member's board health.
pub open spec fn health_url(ip: Seq<char>, port: u16) -> Seq<char> {
    "http://"@ + ip + ":"@ + decimal(port as nat) + "/health"@
}

/// The address of a member's board.
pub open spec fn board_url(ip: Seq<char>, port: u16) -> Seq<char> {
    "http://"@ + ip + ":"@ + decimal(port as nat) + "/"@
}

fn url(ip: &str, port: u16, tail: &str) -> (r: String)
    ensures
        r@ == "http://"@ + ip@ + ":"@ + decimal(port as nat) + tail@,
{
    let mut r = String::from_str("http://");
    r.append(ip);
    r.append(":");
    push_decimal(&mut r, port as u64);
    r.append(tail);
    r
}

/// The arguments of the `curl` run that probes a member's board health:
/// fail on HTTP errors, stay quiet but show errors, give up after the probe
/// timeout.
pub fn probe_args(ip: &str, port: u16) -> (r: Vec<String>)
    ensures
        r@.len() == 4,
        r@[0]@ == "-fsS"@,
        r@[1]@ == "--max-time"@,
        r@[2]@ == decimal(PROBE_TIMEOUT_SECS as nat),
        r@[3]@ == health_url(ip@, port),
{
    let mut r: Vec<String> = Vec::new();
    r.push(String::from_str("-fsS"));
    r.push(String::from_str("--max-time"));
    let mut t = String::new();
    push_decimal(&mut t, PROBE_TIMEOUT_SECS);
    r.push(t);
    r.push(url(ip, port, "/health"));
    r
}

/// Whether a health answer is that of a board of the network `network`.
pub open spec fn is_board_of(health: HealthReport, network: Seq<char>) -> bool {
    &&& opt_chars(health.service) == Some("tetron-messageboard"@)
    &&& opt_chars(health.network) == Some(network)
}

/// The board a member's health answer shows, if it is a board of the probed
/// network (a node in several networks hosts a board for exactly one):
/// shown by the member's host and IP, at its address on the probed port,
/// admin-hosted where the answer says the coordinator installed it.
pub fn board_from_health(ip: String, port: u16, host: String, network: &str, health: &HealthReport) -> (r: Option<Board>)
    ensures
        r is Some <==> is_board_of(*health, network@),
        r matches Some(b) ==> {
            &&& b.host@ == host@
            &&& b.ip@ == ip@
            &&& b.url@ == board_url(ip@, port)
            &&& b.admin == (health.installed_by_coordinator == Some(true))
        },
{
    let service_ok = match &health.service {
        Some(s) => str_eq(s.as_str(), "tetron-messageboard"),
        None => false,
    };
    if !service_ok {
        return None;
    }
    let network_ok = match &health.network {
        Some(n) => str_eq(n.as_str(), network),
        None => false,
    };
    if !network_ok {
        return None;
    }
    let admin = match health.installed_by_coordinator {
        Some(b) => b,
        None => false,
    };
    let url = url(ip.as_str(), port, "/");
    Some(Board { host, ip, url, admin })
}

/// The fields of the health answer a probe run gave: none where `curl`
/// could not be run or failed, or where its output is not JSON.
pub open spec fn probed_health(run: Result<CommandOutput, String>) -> Option<(Option<Seq<char>>, Option<Seq<char>>, Option<bool>)> {
    match run {
        Ok(o) => if o.success {
            health_fields(o.stdout@)
        } else {
            None
        },
        Err(_) => None,
    }
}

/// Whether health fields are those of a board of the network `network`.
pub open spec fn fields_show_board(f: (Option<Seq<char>>, Option<Seq<char>>, Option<bool>), network: Seq<char>) -> bool {
    f.0 == Some("tetron-messageboard"@) && f.1 == Some(network)
}

/// The board a member hosts for `network`, from the `curl` run that probed
/// its health endpoint (`probe_args`): a board only where the run succeeded
/// and answered as a board of that very network (a node in several networks
/// hosts a board for exactly one); admin-hosted where the answer says the
/// coordinator installed it.
pub fn probe_one(ip: String, port: u16, host: String, network: &str, run: Result<CommandOutput, String>) -> (r: Option<Board>)
    ensures
        match probed_health(run) {
            Some(f) => if fields_show_board(f, network@) {
                &&& r matches Some(b)
                &&& r->Some_0.host@ == host@
                &&& r->Some_0.ip@ == ip@
                &&& r->Some_0.url@ == board_url(ip@, port)
                &&& r->Some_0.admin == (f.2 == Some(true))
            } else {
                r is None
            },
            None => r is None,
        },
{
    let out = match run {
        Ok(o) => o,
        Err(_) => {
            return None;
        },
    };
    if !out.success {
        return None;
    }
    let health = match parse_health(out.stdout.as_slice()) {
        Some(h) => h,
        None => {
            return None;
        },
    };
    board_from_health(ip, port, host, network, &health)
}

} // verus!

verus! {

/// Lexicographic order on texts, character by character (for valid text
/// this is the byte order std compares strings by).
pub open spec fn text_le(a: Seq<char>, b: Seq<char>) -> bool
    decreases a.len(),
{
    if a.len() == 0 {
        true
    } else if b.len() == 0 {
        false
    } else if a[0] != b[0] {
        a[0] < b[0]
    } else {
        text_le(a.drop_first(), b.drop_first())
    }
}

proof fn lemma_text_le_total(a: Seq<char>, b: Seq<char>)
    ensures
        text_le(a, b) || text_le(b, a),
    decreases a.len(),
{
    if a.len() > 0 && b.len() > 0 && a[0] == b[0] {
        lemma_text_le_total(a.drop_first(), b.drop_first());
    }
}

proof fn lemma_text_le_transitive(a: Seq<char>, b: Seq<char>, c: Seq<char>)
    requires
        text_le(a, b),
        text_le(b, c),
    ensures
        text_le(a, c),
    decreases a.len(),
{
    if a.len() > 0 && b.len() > 0 && c.len() > 0 && a[0] == b[0] && b[0] == c[0] {
        lemma_text_le_transitive(a.drop_first(), b.drop_first(), c.drop_first());
    }
}

/// Board `a` may be listed before board `b`: admin-hosted boards first, then
/// by host.
pub open spec fn board_le(a: Board, b: Board) -> bool {
    ||| a.admin && !b.admin
    ||| a.admin == b.admin && text_le(a.host@, b.host@)
}

/// Boards in listing order.
pub open spec fn boards_sorted(s: Seq<Board>) -> bool {
    forall|i: int, j: int| 0 <= i < j < s.len() ==> board_le(#[trigger] s[i], #[trigger] s[j])
}

proof fn lemma_board_le_total(a: Board, b: Board)
    ensures
        board_le(a, b) || board_le(b, a),
{
    lemma_text_le_total(a.host@, b.host@);
}

proof fn lemma_board_le_transitive(a: Board, b: Board, c: Board)
    requires
        board_le(a, b),
        board_le(b, c),
    ensures
        board_le(a, c),
{
    if a.admin == b.admin && b.admin == c.admin {
        lemma_text_le_transitive(a.host@, b.host@, c.host@);
    }
}

fn host_le(a: &str, b: &str) -> (r: bool)
    ensures
        r == text_le(a@, b@),
{
    let n = a.unicode_len();
    let m = b.unicode_len();
    let mut i: usize = 0;
    assert(a@.skip(0) =~= a@ && b@.skip(0) =~= b@);
    while i < n && i < m
        invariant
            n == a@.len(),
            m == b@.len(),
            i <= n,
            i <= m,
            text_le(a@, b@) == text_le(a@.skip(i as int), b@.skip(i as int)),
        decreases n - i,
    {
        let x = a.get_char(i);
        let y = b.get_char(i);
        assert(a@.skip(i as int)[0] == x && b@.skip(i as int)[0] == y);
        if x != y {
            return x < y;
        }
        assert(a@.skip(i as int).drop_first() =~= a@.skip(i + 1));
        assert(b@.skip(i as int).drop_first() =~= b@.skip(i + 1));
        i = i + 1;
    }
    i == n
}

fn board_before(a: &Board, b: &Board) -> (r: bool)
    ensures
        r == board_le(*a, *b),
{
    if a.admin && !b.admin {
        true
    } else if a.admin == b.admin {
        host_le(a.host.as_str(), b.host.as_str())
    } else {
        false
    }
}

/// The boards in listing order: the same boards, admin-hosted first, then
/// by host.
pub fn sort_boards(boards: Vec<Board>) -> (r: Vec<Board>)
    ensures
        r@.to_multiset() == boards@.to_multiset(),
        boards_sorted(r@),
{
    let mut rest = boards;
    let mut r: Vec<Board> = Vec::new();
    let ghost all = rest@;
    while rest.len() > 0
        invariant
            r@.to_multiset().add(rest@.to_multiset()) == all.to_multiset(),
            boards_sorted(r@),
        decreases rest@.len(),
    {
        let ghost rest_before = rest@;
        let x = rest.remove(0);
        assert(rest_before.remove(0) == rest@);
        assert(rest_before.to_multiset() == rest@.to_multiset().insert(x));
        let mut p: usize = 0;
        while p < r.len() && board_before(&r[p], &x)
            invariant
                p <= r@.len(),
                forall|j: int| 0 <= j < p ==> board_le(#[trigger] r@[j], x),
            decreases r@.len() - p,
        {
            p = p + 1;
        }
        proof {
            if p < r@.len() {
                lemma_board_le_total(r@[p as int], x);
                assert forall|j: int| p <= j < r@.len() implies board_le(x, #[trigger] r@[j]) by {
                    if j > p {
                        lemma_board_le_transitive(x, r@[p as int], r@[j]);
                    }
                }
            }
        }
        let ghost old_r = r@;
        r.insert(p, x);
        assert(r@.to_multiset() == old_r.to_multiset().insert(x));
        assert(r@.to_multiset().add(rest@.to_multiset()) =~= all.to_multiset());
        assert forall|i: int, j: int| 0 <= i < j < r@.len() implies board_le(#[trigger] r@[i], #[trigger] r@[j]) by {
            if j < p {
                assert(r@[i] == old_r[i] && r@[j] == old_r[j]);
            } else if j == p {
                assert(r@[i] == old_r[i]);
            } else if i < p {
                assert(r@[i] == old_r[i] && r@[j] == old_r[j - 1]);
                assert(board_le(old_r[i], x));
                assert(p < old_r.len() ==> board_le(x, old_r[j - 1]));
                lemma_board_le_transitive(old_r[i], x, old_r[j - 1]);
            } else if i == p {
                assert(r@[j] == old_r[j - 1]);
            } else {
                assert(r@[i] == old_r[i - 1] && r@[j] == old_r[j - 1]);
            }
        }
    }
    assert(rest@.to_multiset() =~= Multiset::<Board>::empty());
    assert(r@.to_multiset() =~= all.to_multiset());
    r
}

} // verus!

verus! {

/// The boards found among a network's probe results, in probe order.
pub open spec fn found_boards(s: Seq<Option<Board>>) -> Seq<Board>
    decreases s.len(),
{
    if s.len() == 0 {
        seq![]
    } else {
        let f = found_boards(s.drop_last());
        match s.last() {
            Some(b) => f.push(b),
            None => f,
        }
    }
}

/// The boards of one network from its members' probe results: `None` where
/// no member hosts one, else the boards found, in listing order.
pub fn network_boards(results: Vec<Option<Board>>) -> (r: Option<Vec<Board>>)
    ensures
        r is None <==> found_boards(results@).len() == 0,
        r matches Some(v) ==> v@.to_multiset() == found_boards(results@).to_multiset() && boards_sorted(v@),
{
    let mut found: Vec<Board> = Vec::new();
    let mut rest = results;
    let ghost all = rest@;
    while rest.len() > 0
        invariant
            found@.to_multiset().add(found_boards(rest@).to_multiset()) == found_boards(all).to_multiset(),
        decreases rest@.len(),
    {
        let ghost before = rest@;
        let item = rest.pop().unwrap();
        assert(before.drop_last() == rest@);
        match item {
            Some(b) => {
                found.push(b);
            },
            None => {},
        }
        assert(found@.to_multiset().add(found_boards(rest@).to_multiset()) =~= found_boards(all).to_multiset());
    }
    assert(found_boards(rest@) =~= Seq::<Board>::empty());
    assert(found@.to_multiset() =~= found_boards(all).to_multiset());
    proof {
        vstd::seq_lib::to_multiset_len(found@);
        vstd::seq_lib::to_multiset_len(found_boards(all));
    }
    if found.len() == 0 {
        None
    } else {
        Some(sort_boards(found))
    }
}

} // verus!

verus! {

/// The map a list of (network, boards) entries stands for, inserted in
/// order (a later entry for a network replaces an earlier one).
pub open spec fn entries_map(s: Seq<(String, Vec<Board>)>) -> Map<Seq<char>, Seq<Board>>
    decreases s.len(),
{
    if s.len() == 0 {
        Map::empty()
    } else {
        entries_map(s.drop_last()).insert(s.last().0@, s.last().1@)
    }
}

/// Discovered boards keyed by network name. Only networks with at least one
/// discovered board are present.
#[derive(Debug)]
pub struct BoardsByNetwork {
    entries: Vec<(String, Vec<Board>)>,
}

impl View for BoardsByNetwork {
    type V = Map<Seq<char>, Seq<Board>>;

    closed spec fn view(&self) -> Map<Seq<char>, Seq<Board>> {
        entries_map(self.entries@)
    }
}

impl BoardsByNetwork {
    /// No boards discovered yet.
    pub fn new() -> (r: Self)
        ensures
            r@ == Map::<Seq<char>, Seq<Board>>::empty(),
    {
        BoardsByNetwork { entries: Vec::new() }
    }

    /// Records the probe results of the network `network`: where a member
    /// hosts a board, the network's boards, in listing order, replace
    /// whatever was recorded for it; a network without boards is left out.
    pub fn record(&mut self, network: String, results: Vec<Option<Board>>)
        ensures
            found_boards(results@).len() == 0 ==> final(self)@ == old(self)@,
            found_boards(results@).len() > 0 ==> {
                &&& final(self)@.dom() == old(self)@.dom().insert(network@)
                &&& forall|k: Seq<char>|
                    k != network@ && #[trigger] old(self)@.dom().contains(k) ==> final(self)@[k] == old(self)@[k]
                &&& final(self)@[network@].to_multiset() == found_boards(results@).to_multiset()
                &&& boards_sorted(final(self)@[network@])
            },
    {
        match network_boards(results) {
            None => {},
            Some(boards) => {
                let ghost before = self.entries@;
                let ghost key = network@;
                let ghost value = boards@;
                self.entries.push((network, boards));
                assert(self.entries@.drop_last() == before);
                assert(entries_map(self.entries@) == entries_map(before).insert(key, value));
            },
        }
    }

    /// The recorded entries, one per network, to be inserted in order into a
    /// map (later entries replace earlier ones of the same network).
    pub fn entries(&self) -> (r: &Vec<(String, Vec<Board>)>)
        ensures
            entries_map(r@) == self@,
    {
        &self.entries
    }
}

} // verus!
