//! The user-facing side of the core: display lines for every event, the
//! prompt for every role, and the decisions behind each input line and
//! each queued transport event.
//!
//! Everything here is pure decision and formatting: the surrounding
//! program owns the terminal and the sockets, prints the lines returned,
//! and performs the sends, binds and closes decided here.

use crate::codec::spec_decode;
use crate::command::{parse_command, spec_kind, Command};
use crate::probe::ping_frame_now;
use crate::relay::{relay_plan, spec_framed_line};
use crate::supervisor::{
    spec_clients, CloseAllDecision, ConnectDecision, ErrorClass, OpenOutcome, Role, Supervisor,
    ws_url_ok,
};
use crate::text::{spec_dec, spec_second_token, u64_to_dec};
use vstd::prelude::*;
use vstd::string::{StrSliceExecFns, StringExecFns};

verus! {

fn cat2(a: &str, b: &str) -> (r: String)
    ensures
        r@ == a@ + b@,
{
    let mut s = a.to_owned();
    s.append(b);
    s
}

fn cat3(a: &str, b: &str, c: &str) -> (r: String)
    ensures
        r@ == a@ + b@ + c@,
{
    let mut s = a.to_owned();
    s.append(b);
    s.append(c);
    s
}

/// A microsecond count as displayed: never negative, capped at what a
/// 64-bit counter holds.
pub open spec fn spec_clamp_us(e: int) -> int {
    if e < 0 {
        0
    } else if e > u64::MAX as int {
        u64::MAX as int
    } else {
        e
    }
}

/// A microsecond remainder, zero-padded to six digits.
pub open spec fn spec_pad6(n: nat) -> Seq<char> {
    if n < 10 {
        "00000"@ + spec_dec(n)
    } else if n < 100 {
        "0000"@ + spec_dec(n)
    } else if n < 1000 {
        "000"@ + spec_dec(n)
    } else if n < 10000 {
        "00"@ + spec_dec(n)
    } else if n < 100000 {
        "0"@ + spec_dec(n)
    } else {
        spec_dec(n)
    }
}

/// The round-trip report for a measured latency: whole seconds, a dot,
/// and the microsecond remainder padded to six digits.
pub open spec fn spec_round_trip_line(e: int) -> Seq<char> {
    "    Round-trip: "@ + spec_dec((spec_clamp_us(e) / 1000000) as nat) + "."@ + spec_pad6(
        (spec_clamp_us(e) % 1000000) as nat,
    ) + "s"@
}

fn pad6(us: u64) -> (r: String)
    requires
        us < 1000000,
    ensures
        r@ == spec_pad6(us as nat),
{
    proof {
        reveal_strlit("");
    }
    let d = u64_to_dec(us);
    let pre: &'static str = if us < 10 {
        "00000"
    } else if us < 100 {
        "0000"
    } else if us < 1000 {
        "000"
    } else if us < 10000 {
        "00"
    } else if us < 100000 {
        "0"
    } else {
        ""
    };
    let r = cat2(pre, d.as_str());
    proof {
        assert(r@ =~= spec_pad6(us as nat));
    }
    r
}

/// Renders a measured round trip, microseconds in, one report line out.
/// Sub-millisecond resolution is kept: the display is
/// `seconds.microseconds`.
pub fn round_trip_line(e: i128) -> (r: String)
    ensures
        r@ == spec_round_trip_line(e as int),
{
    let c: u64 = if e < 0 {
        0
    } else if e > u64::MAX as i128 {
        u64::MAX
    } else {
        e as u64
    };
    let s = c / 1000000;
    let us = c % 1000000;
    let sec_str = u64_to_dec(s);
    let us_str = pad6(us);
    let mut out = "    Round-trip: ".to_owned();
    out.append(sec_str.as_str());
    out.append(".");
    out.append(us_str.as_str());
    out.append("s");
    proof {
        assert(c as int == spec_clamp_us(e as int));
        assert(out@ =~= spec_round_trip_line(e as int));
    }
    out
}

/// The echo or refusal for an outbound chat line, by role.
pub open spec fn spec_send_display(role: Role, line: Seq<char>) -> Seq<char> {
    if role is ServerActive {
        "{You (Server)}: "@ + line
    } else if role is ClientActive {
        "{You (Client)}: "@ + line
    } else {
        "Cannot send message: '"@ + line + "'. Not connected."@
    }
}

/// What one outbound chat line requires of the caller: the local echo,
/// where to send the line, and the probe ping owed right after the send.
#[derive(Debug)]
pub struct SendPlan {
    /// Print this locally.
    pub display: String,
    /// The raw line to put on the wire.
    pub text: String,
    /// Serving: send the raw line to every registered connection.
    pub to_all_clients: bool,
    /// Client: send the raw line on the one outbound connection.
    pub to_server: bool,
    /// Send this probe frame on the same connection(s) right after.
    pub ping: Option<Vec<u8>>,
}

/// Decides an outbound chat line: connected roles echo and send, with a
/// ping stamped now to follow; disconnected roles refuse with a message
/// and send nothing.
pub fn send_message<H>(sup: &Supervisor<H>, line: &str) -> (r: SendPlan)
    ensures
        r.display@ == spec_send_display(sup.spec_role(), line@),
        r.text@ == line@,
        r.to_all_clients == sup.spec_role() is ServerActive,
        r.to_server == sup.spec_role() is ClientActive,
        (r.ping is Some) == (sup.spec_role() is ServerActive || sup.spec_role() is ClientActive),
        r.ping matches Some(f) ==> (spec_decode(f@) matches Some(p) && p is Ping),
{
    match sup.role() {
        Role::ServerActive { .. } => SendPlan {
            display: cat2("{You (Server)}: ", line),
            text: line.to_owned(),
            to_all_clients: true,
            to_server: false,
            ping: Some(ping_frame_now()),
        },
        Role::ClientActive => SendPlan {
            display: cat2("{You (Client)}: ", line),
            text: line.to_owned(),
            to_all_clients: false,
            to_server: true,
            ping: Some(ping_frame_now()),
        },
        _ => SendPlan {
            display: cat3("Cannot send message: '", line, "'. Not connected."),
            text: line.to_owned(),
            to_all_clients: false,
            to_server: false,
            ping: None,
        },
    }
}

/// One prompt per role, written before the input buffer.
pub fn prompt_line(role: Role, listen_addr: Option<&str>, client_url: Option<&str>) -> (r:
    String)
    ensures
        role is Listening ==> {
            &&& (listen_addr matches Some(a) ==> r@ == "[ Listening on ("@ + a@ + ") ]> "@)
            &&& (listen_addr is None ==> r@ == "[ Listening ]> "@)
        },
        role is ServerActive ==> r@ == "[ Connected as Server to "@ + spec_dec(
            spec_clients(role),
        ) + " clients ]> "@,
        role is ClientActive ==> {
            &&& (client_url matches Some(u) ==> r@ == "[ Connected as Client to ("@ + u@
                + ") ]> "@)
            &&& (client_url is None ==> r@ == "[ Connected as Client ]> "@)
        },
        role is Idle ==> r@ == "[ Disconnected ]> "@,
{
    match role {
        Role::Listening => match listen_addr {
            Some(a) => cat3("[ Listening on (", a, ") ]> "),
            None => "[ Listening ]> ".to_owned(),
        },
        Role::ServerActive { clients } => {
            let n = u64_to_dec(clients);
            let r = cat3("[ Connected as Server to ", n.as_str(), " clients ]> ");
            proof {
                assert(r@ =~= "[ Connected as Server to "@ + spec_dec(spec_clients(role))
                    + " clients ]> "@);
            }
            r
        },
        Role::ClientActive => match client_url {
            Some(u) => cat3("[ Connected as Client to (", u, ") ]> "),
            None => "[ Connected as Client ]> ".to_owned(),
        },
        Role::Idle => "[ Disconnected ]> ".to_owned(),
    }
}

/// The greeting printed once at startup.
pub fn welcome_line() -> (r: String)
    ensures
        r@ == "Welcome to HeadsUp chat!"@,
{
    "Welcome to HeadsUp chat!".to_owned()
}

/// The help text, one line per entry, blank lines included.
pub fn help_lines() -> (r: Vec<String>)
    ensures
        r@.len() == 5,
        r@[0]@ == ""@,
        r@[1]@ == "Type '/open {url}' or '/connect {url}' to connect to a server."@,
        r@[2]@ == "Type '/close' to close the current connection."@,
        r@[3]@ == "Type '/exit' or press ctrl-q to quit."@,
        r@[4]@ == ""@,
{
    let mut r: Vec<String> = Vec::new();
    r.push("".to_owned());
    r.push("Type '/open {url}' or '/connect {url}' to connect to a server.".to_owned());
    r.push("Type '/close' to close the current connection.".to_owned());
    r.push("Type '/exit' or press ctrl-q to quit.".to_owned());
    r.push("".to_owned());
    r
}

/// The display line for a received chat message, by role: served peers
/// are clients, the outbound peer is the server, anything else is
/// unattributed.
pub open spec fn spec_recvd_line(role: Role, text: Seq<char>, sender: u64) -> Seq<char> {
    if role is ServerActive {
        "{Client<"@ + spec_dec(sender as nat) + ">}: "@ + text
    } else if role is ClientActive {
        "{Server<"@ + spec_dec(sender as nat) + ">}: "@ + text
    } else {
        "{Unknown}: "@ + text
    }
}

/// One event from a transport thread, enqueued there and consumed exactly
/// once by the single-threaded event loop.
#[derive(Debug)]
pub enum UiCommand<H> {
    /// A peer connected to our listener.
    ServerOpened { id: u64, handle: H, peer: Option<String> },
    /// A served peer connection closed.
    ServerClosed { id: u64, reason: String },
    /// The listener or a served connection failed; a listener-level error
    /// carries no identity.
    ServerError { conn: Option<u64>, kind: ErrorClass, detail: String },
    /// Our outbound connection opened.
    ClientOpened { peer: Option<String> },
    /// Our outbound connection closed.
    ClientClosed { id: u64, reason: String },
    /// Our outbound connection failed.
    ClientError { id: u64, kind: ErrorClass, detail: String },
    /// A chat line arrived from the peer with this identity.
    MessageRecvd { text: String, sender: u64 },
    /// The probe measured a round trip, in microseconds.
    PongRecvd { elapsed_us: i128 },
}

/// What the event loop must do after one event: print these lines, bind
/// a fresh listener if asked, and fan a tagged line out to these peers.
#[derive(Debug)]
pub struct UiResponse {
    /// Print these, in order.
    pub lines: Vec<String>,
    /// Bind a fresh listener on this address.
    pub rebind: Option<String>,
    /// Send this tagged line to each of these registered identities.
    pub relay: Option<(String, Vec<u64>)>,
}

/// Applies one queued transport event to the supervisor and decides what
/// the event loop owes in return: the line to print, any relay fan-out
/// (for chat text received while serving), and any fresh listener to
/// bind (when the policy matrix asked for a rebind).
pub fn handle_ui_command<H>(sup: &mut Supervisor<H>, cmd: UiCommand<H>) -> (r: UiResponse)
    requires
        old(sup).wf(),
    ensures
        final(sup).wf(),
        cmd matches UiCommand::MessageRecvd { text, sender } ==> {
            &&& Supervisor::spec_same_state(*old(sup), *final(sup))
            &&& r.rebind is None
            &&& r.lines@.len() == 1 && r.lines@[0]@ == spec_recvd_line(
                old(sup).spec_role(),
                text@,
                sender,
            )
            &&& (old(sup).spec_role() is ServerActive ==> (r.relay matches Some(p) && p.0@
                == spec_framed_line(sender, text@) && p.1@.no_duplicates() && (forall|k: u64|
                p.1@.contains(k) <==> (old(sup).spec_registry().dom().contains(k) && k
                != sender))))
            &&& (!(old(sup).spec_role() is ServerActive) ==> r.relay is None)
        },
        cmd matches UiCommand::PongRecvd { elapsed_us } ==> {
            &&& Supervisor::spec_same_state(*old(sup), *final(sup))
            &&& r.rebind is None && r.relay is None
            &&& r.lines@.len() == 1 && r.lines@[0]@ == spec_round_trip_line(elapsed_us as int)
        },
        cmd matches UiCommand::ServerOpened { id, handle, peer } ==> {
            &&& r.relay is None && r.rebind is None
            &&& ((old(sup).spec_role() is Listening || old(sup).spec_role() is ServerActive)
                ==> {
                &&& final(sup).spec_registry() == old(sup).spec_registry().insert(id, handle)
                &&& final(sup).spec_role() is ServerActive
                &&& spec_clients(final(sup).spec_role()) == final(sup).spec_registry().dom().len()
                &&& r.lines@.len() == 1
                &&& (peer matches Some(pa) ==> r.lines@[0]@ == "Server connected to: "@ + pa@)
                &&& (peer is None ==> r.lines@[0]@ == "Server connected."@)
            })
            &&& ((old(sup).spec_role() is Idle || old(sup).spec_role() is ClientActive) ==> {
                &&& Supervisor::spec_same_state(*old(sup), *final(sup))
                &&& r.lines@.len() == 1 && r.lines@[0]@ == "Invalid connection state."@
            })
        },
        cmd matches UiCommand::ServerClosed { id, reason } ==> {
            &&& r.relay is None
            &&& Supervisor::spec_closed_transition(*old(sup), *final(sup), id, true, r.rebind)
            &&& r.lines@.len() == 1 && r.lines@[0]@ == "Client connection closed. "@ + reason@
        },
        cmd matches UiCommand::ServerError { conn, kind, detail } ==> {
            &&& r.relay is None
            &&& Supervisor::spec_error_transition(*old(sup), *final(sup), kind, r.rebind)
            &&& (old(sup).spec_role() is ServerActive ==> final(sup).spec_registry() == Map::<
                u64,
                H,
            >::empty())
            &&& (!(old(sup).spec_role() is ServerActive) ==> {
                &&& (conn matches Some(i) ==> final(sup).spec_registry() == old(sup).spec_registry().remove(i))
                &&& (conn is None ==> final(sup).spec_registry() == old(sup).spec_registry())
            })
            &&& r.lines@.len() == 1 && r.lines@[0]@ == "The server has encountered an error: "@
                + detail@
        },
        cmd matches UiCommand::ClientOpened { peer } ==> {
            &&& Supervisor::spec_same_state(*old(sup), *final(sup))
            &&& r.relay is None && r.rebind is None
            &&& r.lines@.len() == 1
            &&& (peer matches Some(pa) ==> r.lines@[0]@ == "Client connected to: "@ + pa@)
            &&& (peer is None ==> r.lines@[0]@ == "Client connected."@)
        },
        cmd matches UiCommand::ClientClosed { id, reason } ==> {
            &&& r.relay is None
            &&& Supervisor::spec_closed_transition(*old(sup), *final(sup), id, true, r.rebind)
            &&& r.lines@.len() == 1 && r.lines@[0]@ == "Server connection closed. "@ + reason@
        },
        cmd matches UiCommand::ClientError { id, kind, detail } ==> {
            &&& r.relay is None
            &&& Supervisor::spec_error_transition(*old(sup), *final(sup), kind, r.rebind)
            &&& (old(sup).spec_role() is ServerActive ==> final(sup).spec_registry() == Map::<
                u64,
                H,
            >::empty())
            &&& (!(old(sup).spec_role() is ServerActive) ==> final(sup).spec_registry() == old(sup).spec_registry().remove(id))
            &&& r.lines@.len() == 1 && r.lines@[0]@ == "The client has encountered an error: "@
                + detail@
        },
{
    match cmd {
        UiCommand::MessageRecvd { text, sender } => {
            let line = match sup.role() {
                Role::ServerActive { .. } => {
                    let d = u64_to_dec(sender);
                    let mut l = "{Client<".to_owned();
                    l.append(d.as_str());
                    l.append(">}: ");
                    l.append(text.as_str());
                    proof {
                        assert(l@ =~= spec_recvd_line(sup.spec_role(), text@, sender));
                    }
                    l
                },
                Role::ClientActive => {
                    let d = u64_to_dec(sender);
                    let mut l = "{Server<".to_owned();
                    l.append(d.as_str());
                    l.append(">}: ");
                    l.append(text.as_str());
                    proof {
                        assert(l@ =~= spec_recvd_line(sup.spec_role(), text@, sender));
                    }
                    l
                },
                _ => cat2("{Unknown}: ", text.as_str()),
            };
            let relay = match sup.role() {
                Role::ServerActive { .. } => Some(relay_plan(sup.registry(), sender, text.as_str())),
                _ => None,
            };
            let mut lines: Vec<String> = Vec::new();
            lines.push(line);
            UiResponse { lines, rebind: None, relay }
        },
        UiCommand::PongRecvd { elapsed_us } => {
            let mut lines: Vec<String> = Vec::new();
            lines.push(round_trip_line(elapsed_us));
            UiResponse { lines, rebind: None, relay: None }
        },
        UiCommand::ServerOpened { id, handle, peer } => {
            let outcome = sup.on_connection_opened(id, handle);
            let line = match outcome {
                OpenOutcome::Accepted { .. } => match &peer {
                    Some(pa) => cat2("Server connected to: ", pa.as_str()),
                    None => "Server connected.".to_owned(),
                },
                OpenOutcome::ProtocolViolation => "Invalid connection state.".to_owned(),
            };
            let mut lines: Vec<String> = Vec::new();
            lines.push(line);
            UiResponse { lines, rebind: None, relay: None }
        },
        UiCommand::ServerClosed { id, reason } => {
            let rebind = sup.on_connection_closed(id, true);
            let mut lines: Vec<String> = Vec::new();
            lines.push(cat2("Client connection closed. ", reason.as_str()));
            UiResponse { lines, rebind, relay: None }
        },
        UiCommand::ServerError { conn, kind, detail } => {
            let rebind = match conn {
                Some(i) => sup.on_connection_error(i, kind),
                None => sup.on_listener_error(kind),
            };
            let mut lines: Vec<String> = Vec::new();
            lines.push(cat2("The server has encountered an error: ", detail.as_str()));
            UiResponse { lines, rebind, relay: None }
        },
        UiCommand::ClientOpened { peer } => {
            let line = match &peer {
                Some(pa) => cat2("Client connected to: ", pa.as_str()),
                None => "Client connected.".to_owned(),
            };
            let mut lines: Vec<String> = Vec::new();
            lines.push(line);
            UiResponse { lines, rebind: None, relay: None }
        },
        UiCommand::ClientClosed { id, reason } => {
            let rebind = sup.on_connection_closed(id, true);
            let mut lines: Vec<String> = Vec::new();
            lines.push(cat2("Server connection closed. ", reason.as_str()));
            UiResponse { lines, rebind, relay: None }
        },
        UiCommand::ClientError { id, kind, detail } => {
            let rebind = sup.on_connection_error(id, kind);
            let mut lines: Vec<String> = Vec::new();
            lines.push(cat2("The client has encountered an error: ", detail.as_str()));
            UiResponse { lines, rebind, relay: None }
        },
    }
}

/// A dial the event loop owes: connect out to this address, shutting the
/// live listener down first where one is running.
#[derive(Debug, PartialEq, Eq)]
pub struct DialRequest {
    pub url: String,
    pub shutdown_listener: bool,
}

/// What one input line requires of the event loop.
#[derive(Debug)]
pub struct InputEffects {
    /// Print these, in order.
    pub lines: Vec<String>,
    /// Start an outbound connection.
    pub dial: Option<DialRequest>,
    /// Close the one outbound connection.
    pub close_client: bool,
    /// Ask each of these served connections to close.
    pub close_ids: Option<Vec<u64>>,
    /// Send a chat line (and its probe ping) as planned here.
    pub send: Option<SendPlan>,
}

/// Handles one line of user input: parses it as a command or chat text,
/// applies the intent to the supervisor, and returns what the event loop
/// must print, send, dial or close.
pub fn handle_input<H>(sup: &mut Supervisor<H>, line: &str) -> (r: InputEffects)
    requires
        old(sup).wf(),
    ensures
        final(sup).wf(),
        spec_kind(line@) is Empty ==> Supervisor::spec_same_state(*old(sup), *final(sup)) && r.lines@.len() == 0
            && r.dial is None && !r.close_client && r.close_ids is None && r.send is None,
        spec_kind(line@) is Say ==> {
            &&& Supervisor::spec_same_state(*old(sup), *final(sup))
            &&& r.lines@.len() == 0 && r.dial is None && !r.close_client && r.close_ids is None
            &&& (r.send matches Some(p) && p.display@ == spec_send_display(
                old(sup).spec_role(),
                line@,
            ) && p.to_all_clients == old(sup).spec_role() is ServerActive && p.to_server == old(sup).spec_role() is ClientActive && ((p.ping is Some) == (old(sup).spec_role() is ServerActive || old(sup).spec_role() is ClientActive)))
        },
        spec_kind(line@) is Connect ==> {
            &&& !r.close_client && r.close_ids is None && r.send is None
            &&& final(sup).spec_addr() == old(sup).spec_addr()
            &&& final(sup).spec_addr_valid() == old(sup).spec_addr_valid()
            &&& final(sup).spec_registry() == old(sup).spec_registry()
            &&& final(sup).spec_exit() == old(sup).spec_exit()
            &&& ((old(sup).spec_role() is ServerActive || old(sup).spec_role() is ClientActive)
                ==> final(sup).spec_role() == old(sup).spec_role() && r.dial is None
                && r.lines@.len() == 1 && r.lines@[0]@ == "Already connected."@)
            &&& ((old(sup).spec_role() is Idle || old(sup).spec_role() is Listening) ==> {
                &&& (spec_second_token(line@) is None ==> final(sup).spec_role() == old(sup).spec_role() && r.dial is None && r.lines@.len() == 1 && r.lines@[0]@
                    == "Invalid client URL."@)
                &&& (spec_second_token(line@) matches Some(a) ==> {
                    &&& (!ws_url_ok(a) ==> final(sup).spec_role() == old(sup).spec_role()
                        && r.dial is None && r.lines@.len() == 1 && r.lines@[0]@
                        == "Invalid url: '"@ + a + "'"@)
                    &&& (ws_url_ok(a) ==> final(sup).spec_role() is Idle && (
                    r.dial matches Some(d) && d.url@ == a && d.shutdown_listener == (old(sup).spec_role() is Listening)) && r.lines@.len() == 1 && r.lines@[0]@
                        == "Connecting to: "@ + a + "..."@)
                })
            })
        },
        spec_kind(line@) is CloseAll ==> {
            &&& Supervisor::spec_same_state(*old(sup), *final(sup))
            &&& r.dial is None && r.send is None
            &&& (old(sup).spec_role() is ServerActive ==> !r.close_client && (
            r.close_ids matches Some(ids) && ids@.no_duplicates() && (forall|k: u64|
                ids@.contains(k) <==> old(sup).spec_registry().dom().contains(k)))
                && r.lines@.len() == 1 && r.lines@[0]@ == "Closing "@ + spec_dec(
                spec_clients(old(sup).spec_role()),
            ) + " client connections..."@)
            &&& (old(sup).spec_role() is ClientActive ==> r.close_client && r.close_ids is None
                && r.lines@.len() == 1 && r.lines@[0]@ == "Closing connection to server..."@)
            &&& ((old(sup).spec_role() is Idle || old(sup).spec_role() is Listening)
                ==> !r.close_client && r.close_ids is None && r.lines@.len() == 1
                && r.lines@[0]@ == "Not connected."@)
        },
        spec_kind(line@) is Exit ==> {
            &&& final(sup).spec_exit()
            &&& final(sup).spec_role() == old(sup).spec_role()
            &&& final(sup).spec_addr() == old(sup).spec_addr()
            &&& final(sup).spec_addr_valid() == old(sup).spec_addr_valid()
            &&& final(sup).spec_registry() == old(sup).spec_registry()
            &&& r.lines@.len() == 0 && r.dial is None && !r.close_client && r.close_ids is None
            && r.send is None
        },
        spec_kind(line@) is Help ==> Supervisor::spec_same_state(*old(sup), *final(sup)) && r.dial is None
            && !r.close_client && r.close_ids is None && r.send is None && r.lines@.len() == 5,
        spec_kind(line@) is Unknown ==> Supervisor::spec_same_state(*old(sup), *final(sup)) && r.dial is None
            && !r.close_client && r.close_ids is None && r.send is None && r.lines@.len() == 1
            && r.lines@[0]@ == "Unknown command."@,
{
    let mut lines: Vec<String> = Vec::new();
    match parse_command(line) {
        Command::Empty => InputEffects {
            lines,
            dial: None,
            close_client: false,
            close_ids: None,
            send: None,
        },
        Command::Say(t) => {
            let plan = send_message(sup, t.as_str());
            InputEffects { lines, dial: None, close_client: false, close_ids: None, send: Some(plan) }
        },
        Command::Connect { arg } => {
            let arg_ref: Option<&str> = match &arg {
                Some(a) => Some(a.as_str()),
                None => None,
            };
            let decision = sup.request_connect(arg_ref);
            let mut dial: Option<DialRequest> = None;
            match decision {
                ConnectDecision::Dial { url, shutdown_listener } => {
                    lines.push(cat3("Connecting to: ", url.as_str(), "..."));
                    dial = Some(DialRequest { url, shutdown_listener });
                },
                ConnectDecision::AlreadyConnected => {
                    lines.push("Already connected.".to_owned());
                },
                ConnectDecision::NoUrl => {
                    lines.push("Invalid client URL.".to_owned());
                },
                ConnectDecision::BadUrl => {
                    let a = match &arg {
                        Some(a) => a.as_str(),
                        None => "",
                    };
                    lines.push(cat3("Invalid url: '", a, "'"));
                },
            }
            InputEffects { lines, dial, close_client: false, close_ids: None, send: None }
        },
        Command::CloseAll => {
            let decision = sup.request_close_all();
            match decision {
                CloseAllDecision::CloseClients(ids) => {
                    let n = u64_to_dec(sup.client_count());
                    let l = cat3("Closing ", n.as_str(), " client connections...");
                    lines.push(l);
                    InputEffects {
                        lines,
                        dial: None,
                        close_client: false,
                        close_ids: Some(ids),
                        send: None,
                    }
                },
                CloseAllDecision::CloseClient => {
                    lines.push("Closing connection to server...".to_owned());
                    InputEffects {
                        lines,
                        dial: None,
                        close_client: true,
                        close_ids: None,
                        send: None,
                    }
                },
                CloseAllDecision::NotConnected => {
                    lines.push("Not connected.".to_owned());
                    InputEffects {
                        lines,
                        dial: None,
                        close_client: false,
                        close_ids: None,
                        send: None,
                    }
                },
            }
        },
        Command::Exit => {
            sup.request_exit();
            InputEffects { lines, dial: None, close_client: false, close_ids: None, send: None }
        },
        Command::Help => {
            let h = help_lines();
            InputEffects {
                lines: h,
                dial: None,
                close_client: false,
                close_ids: None,
                send: None,
            }
        },
        Command::Unknown => {
            lines.push("Unknown command.".to_owned());
            InputEffects { lines, dial: None, close_client: false, close_ids: None, send: None }
        },
    }
}

} // verus!
