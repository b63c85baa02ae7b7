//! Connection supervisor: the single authority over the node's role.
//!
//! The node is at any moment in exactly one of four roles: idle, listening
//! with no clients, serving `n >= 1` clients, or connected outward as a
//! client. The supervisor owns that role, the remembered bind address (and
//! whether it may still be tried), and the session registry; every
//! lifecycle event and user intent is applied here, serialized by the
//! caller's event queue, so that concurrent transports can never race the
//! role into contradiction.
//!
//! Transport work (bind, dial, send, close) is decided here and performed
//! by the caller: the methods return what to do, and the transport's
//! answer comes back as the next event. No timeout is imposed on that
//! answer: a bind or dial that never completes leaves the node waiting in
//! its pre-transition role, deliberately.

use crate::registry::Registry;
use vstd::prelude::*;

verus! {

/// The connection role of the node. A serving node always has at least
/// one client: a count that drops to zero yields `Listening` instead.
#[derive(Clone, Copy, Debug, PartialEq, Eq, Structural)]
pub enum Role {
    Idle,
    Listening,
    ServerActive { clients: u64 },
    ClientActive,
}

/// The client count of a role: zero except when serving.
pub open spec fn spec_clients(r: Role) -> nat {
    match r {
        Role::ServerActive { clients } => clients as nat,
        _ => 0,
    }
}

/// Transport-independent classification of a transport error.
#[derive(Clone, Copy, Debug, PartialEq, Eq, Structural)]
pub enum ErrorClass {
    /// The bind address is already taken.
    AddressInUse,
    /// The bind address cannot be assigned.
    AddressUnavailable,
    /// Anything else: socket, handshake, or protocol trouble.
    Other,
}

/// Whether a class marks the bind address itself as unusable.
pub open spec fn spec_addr_error(k: ErrorClass) -> bool {
    k is AddressInUse || k is AddressUnavailable
}

/// How the transport answered a bind request.
#[derive(Clone, Copy, Debug, PartialEq, Eq, Structural)]
pub enum BindOutcome {
    Bound,
    Failed(ErrorClass),
}

/// What `request_listen` decided.
#[derive(Debug, PartialEq, Eq)]
pub enum ListenDecision {
    /// Ask the transport to bind this address.
    Bind(String),
    /// The node is not idle: listening may only start from idle.
    NotIdle,
    /// The address is remembered as unusable: rejected without a bind
    /// attempt.
    AddressInvalid,
}

/// What `request_connect` decided.
#[derive(Debug, PartialEq, Eq)]
pub enum ConnectDecision {
    /// Ask the transport to dial; a live listener is shut down first.
    Dial { url: String, shutdown_listener: bool },
    /// The node already has an active connection.
    AlreadyConnected,
    /// The command carried no address.
    NoUrl,
    /// The address does not parse as a websocket URL.
    BadUrl,
}

/// What `request_close_all` decided.
#[derive(Debug, PartialEq, Eq)]
pub enum CloseAllDecision {
    /// Ask each of these registered connections to close.
    CloseClients(Vec<u64>),
    /// Close the single outbound connection.
    CloseClient,
    /// Nothing is connected: a no-op.
    NotConnected,
}

/// What `on_connection_opened` did.
#[derive(Clone, Copy, Debug, PartialEq, Eq, Structural)]
pub enum OpenOutcome {
    /// The peer was registered; the node now serves this many clients.
    Accepted { count: u64 },
    /// An open event arrived in a role that cannot legally receive one:
    /// the event-ordering invariant was broken.
    ProtocolViolation,
}

/// What the outside URL parser accepts: whether `"ws:" + s` parses as a
/// URL. The outcome depends on `s` alone.
pub uninterp spec fn ws_url_ok(s: Seq<char>) -> bool;

/// Relies on url's `Url::parse`: returns whether `"ws:" + s` parses, a
/// function of `s` alone.
#[verifier::external_body]
fn check_ws_url(s: &str) -> (r: bool)
    ensures
        r == ws_url_ok(s@),
{
    url::Url::parse(&format!("ws:{}", s)).is_ok()
}

/// The supervisor: the node's role, the remembered bind address, and the
/// session registry of send handles, one per served client.
pub struct Supervisor<H> {
    role: Role,
    addr: Option<String>,
    addr_valid: bool,
    registry: Registry<H>,
    exit: bool,
}

impl<H> Supervisor<H> {
    /// The current role.
    pub closed spec fn spec_role(self) -> Role {
        self.role
    }

    /// The remembered bind address, if one was ever requested.
    pub closed spec fn spec_addr(self) -> Option<String> {
        self.addr
    }

    /// Whether the remembered address may still be (re)tried.
    pub closed spec fn spec_addr_valid(self) -> bool {
        self.addr_valid
    }

    /// The registry contents: identity to send handle.
    pub closed spec fn spec_registry(self) -> Map<u64, H> {
        self.registry@
    }

    /// Well-formedness of the underlying registry.
    pub closed spec fn spec_registry_wf(self) -> bool {
        self.registry.wf()
    }

    /// Whether the user has asked to leave the event loop.
    pub closed spec fn spec_exit(self) -> bool {
        self.exit
    }

    /// The supervisor's invariant: a serving role counts exactly the
    /// registered identities and serves at least one — a count that
    /// reaches zero is `Listening`, never a serving role — and every
    /// other role has an empty registry.
    pub open spec fn wf(self) -> bool {
        &&& self.spec_registry_wf()
        &&& (self.spec_role() is ServerActive ==> spec_clients(self.spec_role()) >= 1)
        &&& self.spec_registry().dom().len() == spec_clients(self.spec_role())
    }

    /// Observably the same supervisor state: same role, same remembered
    /// address and validity, same registry contents, same exit flag.
    pub open spec fn spec_same_state(a: Supervisor<H>, b: Supervisor<H>) -> bool {
        &&& b.spec_role() == a.spec_role()
        &&& b.spec_addr() == a.spec_addr()
        &&& b.spec_addr_valid() == a.spec_addr_valid()
        &&& b.spec_registry() == a.spec_registry()
        &&& b.spec_exit() == a.spec_exit()
    }

    /// A rebind attempt may succeed: an address is remembered and not
    /// marked invalid.
    pub open spec fn spec_can_rebind(self) -> bool {
        self.spec_addr() is Some && self.spec_addr_valid()
    }

    /// The address already asked for and remembered as unusable.
    pub open spec fn spec_addr_known_bad(self, a: Seq<char>) -> bool {
        !self.spec_addr_valid() && self.spec_addr() is Some && self.spec_addr()->Some_0@ == a
    }

    /// What a rebind attempt leaves behind: a new listener on the
    /// remembered address when it may be tried, idle otherwise.
    pub open spec fn spec_rebound(pre: Supervisor<H>, post: Supervisor<H>, r: Option<String>,
    ) -> bool {
        &&& (pre.spec_can_rebind() ==> post.spec_role() is Listening && r is Some
            && r->Some_0@ == pre.spec_addr()->Some_0@)
        &&& (!pre.spec_can_rebind() ==> post.spec_role() is Idle && r is None)
    }

    /// The transition made by a connection-ended event: the identity
    /// leaves the registry first, then the policy matrix decides the next
    /// role and whether a fresh listener is owed.
    pub open spec fn spec_closed_transition(
        pre: Supervisor<H>,
        post: Supervisor<H>,
        id: u64,
        graceful: bool,
        r: Option<String>,
    ) -> bool {
        &&& post.spec_addr() == pre.spec_addr()
        &&& post.spec_addr_valid() == pre.spec_addr_valid()
        &&& post.spec_exit() == pre.spec_exit()
        &&& (pre.spec_role() is ServerActive && graceful ==> {
            &&& post.spec_registry() == pre.spec_registry().remove(id)
            &&& (post.spec_registry().dom().len() == 0 <==> post.spec_role() is Listening)
            &&& (post.spec_registry().dom().len() > 0 ==> post.spec_role() is ServerActive
                && spec_clients(post.spec_role()) == post.spec_registry().dom().len())
            &&& r is None
        })
        &&& (pre.spec_role() is ServerActive && !graceful ==> post.spec_registry() == Map::<
            u64,
            H,
        >::empty() && Self::spec_rebound(pre, post, r))
        &&& (pre.spec_role() is ClientActive ==> post.spec_registry()
            == pre.spec_registry().remove(id) && Self::spec_rebound(pre, post, r))
        &&& (pre.spec_role() is Listening ==> post.spec_registry()
            == pre.spec_registry().remove(id) && (graceful ==> post.spec_role() is Listening
            && r is None) && (!graceful ==> Self::spec_rebound(pre, post, r)))
        &&& (pre.spec_role() is Idle ==> post.spec_registry() == pre.spec_registry().remove(id)
            && Self::spec_rebound(pre, post, r))
    }

    /// The transition made by a transport error: an address-class error
    /// outside the client role marks the remembered address unusable, and
    /// the ending is then handled as a non-graceful close, so the node
    /// rebinds where it may and falls back to idle where it may not.
    pub open spec fn spec_error_transition(
        pre: Supervisor<H>,
        post: Supervisor<H>,
        kind: ErrorClass,
        r: Option<String>,
    ) -> bool {
        let invalidated = spec_addr_error(kind) && !(pre.spec_role() is ClientActive);
        let can = pre.spec_can_rebind() && !invalidated;
        &&& post.spec_addr() == pre.spec_addr()
        &&& post.spec_exit() == pre.spec_exit()
        &&& post.spec_addr_valid() == (pre.spec_addr_valid() && !invalidated)
        &&& (can ==> post.spec_role() is Listening && r is Some && r->Some_0@
            == pre.spec_addr()->Some_0@)
        &&& (!can ==> post.spec_role() is Idle && r is None)
    }

    /// A fresh supervisor: idle, no address remembered, nothing
    /// registered.
    pub fn new() -> (r: Self)
        ensures
            r.wf(),
            r.spec_role() is Idle,
            r.spec_addr() is None,
            !r.spec_addr_valid(),
            r.spec_registry() == Map::<u64, H>::empty(),
            !r.spec_exit(),
    {
        let reg = Registry::new();
        proof {
            assert(Map::<u64, H>::empty().dom() =~= Set::<u64>::empty());
        }
        Supervisor { role: Role::Idle, addr: None, addr_valid: false, registry: reg, exit: false }
    }

    /// The current role.
    pub fn role(&self) -> (r: Role)
        ensures
            r == self.spec_role(),
    {
        self.role
    }

    /// How many clients are currently served.
    pub fn client_count(&self) -> (r: u64)
        ensures
            r == spec_clients(self.spec_role()),
    {
        match self.role {
            Role::ServerActive { clients } => clients,
            _ => 0,
        }
    }

    /// Whether the user has asked to leave the event loop.
    pub fn exit_requested(&self) -> (r: bool)
        ensures
            r == self.spec_exit(),
    {
        self.exit
    }

    /// The session registry, for relay fan-out and handle lookup.
    pub fn registry(&self) -> (r: &Registry<H>)
        requires
            self.wf(),
        ensures
            r.wf(),
            r@ == self.spec_registry(),
    {
        &self.registry
    }

    /// The remembered bind address, if one was ever requested.
    pub fn bind_addr(&self) -> (r: Option<&String>)
        ensures
            r is Some <==> self.spec_addr() is Some,
            r matches Some(a) ==> *a == self.spec_addr()->Some_0,
    {
        self.addr.as_ref()
    }

    /// The send handle registered for `id`, if any.
    pub fn handle_for(&self, id: u64) -> (r: Option<&H>)
        requires
            self.wf(),
        ensures
            r is Some <==> self.spec_registry().dom().contains(id),
            r is Some ==> *r->Some_0 == self.spec_registry()[id],
    {
        self.registry.get(id)
    }

    fn rebind_attempt(&mut self) -> (r: Option<String>)
        requires
            old(self).spec_registry_wf(),
            old(self).spec_registry().dom().len() == 0,
        ensures
            final(self).wf(),
            final(self).spec_addr() == old(self).spec_addr(),
            final(self).spec_addr_valid() == old(self).spec_addr_valid(),
            final(self).spec_registry() == old(self).spec_registry(),
            final(self).spec_exit() == old(self).spec_exit(),
            Self::spec_rebound(*old(self), *final(self), r),
    {
        if self.addr_valid {
            match &self.addr {
                Some(a) => {
                    let url = a.clone();
                    self.role = Role::Listening;
                    Some(url)
                },
                None => {
                    self.role = Role::Idle;
                    None
                },
            }
        } else {
            self.role = Role::Idle;
            None
        }
    }

    /// Asks to start listening on `a`. Valid only from idle; an address
    /// already remembered as unusable is rejected at once, with no bind
    /// attempt. On a bind decision the transport's answer must come back
    /// through `on_listen_outcome`.
    pub fn request_listen(&mut self, a: String) -> (r: ListenDecision)
        requires
            old(self).wf(),
        ensures
            final(self).wf(),
            final(self).spec_registry() == old(self).spec_registry(),
            final(self).spec_exit() == old(self).spec_exit(),
            final(self).spec_role() == old(self).spec_role(),
            !(old(self).spec_role() is Idle) ==> r is NotIdle && final(self).spec_addr() == old(self).spec_addr() && final(self).spec_addr_valid() == old(self).spec_addr_valid(),
            old(self).spec_role() is Idle && old(self).spec_addr_known_bad(a@)
                ==> r is AddressInvalid && final(self).spec_addr() == old(self).spec_addr()
                && final(self).spec_addr_valid() == old(self).spec_addr_valid(),
            old(self).spec_role() is Idle && !old(self).spec_addr_known_bad(a@) ==> (
            r matches ListenDecision::Bind(u) && u@ == a@) && final(self).spec_addr() == Some(a)
                && final(self).spec_addr_valid(),
    {
        match self.role {
            Role::Idle => {},
            _ => {
                return ListenDecision::NotIdle;
            },
        }
        let known_bad = if !self.addr_valid {
            match &self.addr {
                Some(prev) => prev.eq(&a),
                None => false,
            }
        } else {
            false
        };
        if known_bad {
            ListenDecision::AddressInvalid
        } else {
            let url = a.clone();
            self.addr = Some(a);
            self.addr_valid = true;
            ListenDecision::Bind(url)
        }
    }

    /// Applies the transport's answer to a bind request. Success starts
    /// the listener; an address-class failure marks the address unusable
    /// and falls back to idle; any other failure falls back to idle with
    /// the address still retryable.
    pub fn on_listen_outcome(&mut self, outcome: BindOutcome)
        requires
            old(self).wf(),
            old(self).spec_role() is Idle,
        ensures
            final(self).wf(),
            final(self).spec_addr() == old(self).spec_addr(),
            final(self).spec_registry() == old(self).spec_registry(),
            final(self).spec_exit() == old(self).spec_exit(),
            outcome is Bound ==> final(self).spec_role() is Listening && final(self).spec_addr_valid() == old(self).spec_addr_valid(),
            outcome matches BindOutcome::Failed(k) ==> final(self).spec_role() is Idle && final(self).spec_addr_valid() == (old(self).spec_addr_valid() && !spec_addr_error(k)),
    {
        match outcome {
            BindOutcome::Bound => {
                self.role = Role::Listening;
            },
            BindOutcome::Failed(k) => {
                match k {
                    ErrorClass::AddressInUse | ErrorClass::AddressUnavailable => {
                        self.addr_valid = false;
                    },
                    ErrorClass::Other => {},
                }
                self.role = Role::Idle;
            },
        }
    }

    /// Asks to dial out to the address of a `/connect` command. Valid from
    /// idle or listening; a live listener is shut down first. The
    /// transport's answer must come back through `on_connect_outcome`.
    pub fn request_connect(&mut self, arg: Option<&str>) -> (r: ConnectDecision)
        requires
            old(self).wf(),
        ensures
            final(self).wf(),
            final(self).spec_addr() == old(self).spec_addr(),
            final(self).spec_addr_valid() == old(self).spec_addr_valid(),
            final(self).spec_registry() == old(self).spec_registry(),
            final(self).spec_exit() == old(self).spec_exit(),
            (old(self).spec_role() is ServerActive || old(self).spec_role() is ClientActive)
                ==> r is AlreadyConnected && final(self).spec_role() == old(self).spec_role(),
            (old(self).spec_role() is Idle || old(self).spec_role() is Listening) ==> {
                &&& (arg is None ==> r is NoUrl && final(self).spec_role() == old(self).spec_role())
                &&& (arg matches Some(u) ==> {
                    &&& (!ws_url_ok(u@) ==> r is BadUrl && final(self).spec_role() == old(self).spec_role())
                    &&& (ws_url_ok(u@) ==> (
                    r matches ConnectDecision::Dial { url, shutdown_listener } && url@ == u@
                        && shutdown_listener == (old(self).spec_role() is Listening)) && final(self).spec_role() is Idle)
                })
            },
    {
        match self.role {
            Role::ServerActive { .. } | Role::ClientActive => {
                return ConnectDecision::AlreadyConnected;
            },
            _ => {},
        }
        match arg {
            None => ConnectDecision::NoUrl,
            Some(u) => {
                if check_ws_url(u) {
                    let was_listening = match self.role {
                        Role::Listening => true,
                        _ => false,
                    };
                    self.role = Role::Idle;
                    ConnectDecision::Dial { url: u.to_owned(), shutdown_listener: was_listening }
                } else {
                    ConnectDecision::BadUrl
                }
            },
        }
    }

    /// Applies the transport's answer to a dial request. Success makes the
    /// node a client; failure falls back to a fresh listener on the
    /// remembered address, or to idle when none may be tried.
    pub fn on_connect_outcome(&mut self, ok: bool) -> (r: Option<String>)
        requires
            old(self).wf(),
            old(self).spec_role() is Idle,
        ensures
            final(self).wf(),
            final(self).spec_addr() == old(self).spec_addr(),
            final(self).spec_addr_valid() == old(self).spec_addr_valid(),
            final(self).spec_registry() == old(self).spec_registry(),
            final(self).spec_exit() == old(self).spec_exit(),
            ok ==> final(self).spec_role() is ClientActive && r is None,
            !ok ==> Self::spec_rebound(*old(self), *final(self), r),
    {
        if ok {
            self.role = Role::ClientActive;
            None
        } else {
            self.rebind_attempt()
        }
    }

    /// A peer connection opened. Legal while listening or serving: the
    /// peer is registered and the count follows the registry. In any
    /// other role the event is an invariant violation, reported rather
    /// than silently ignored, and nothing changes.
    pub fn on_connection_opened(&mut self, id: u64, handle: H) -> (r: OpenOutcome)
        requires
            old(self).wf(),
        ensures
            final(self).wf(),
            final(self).spec_addr() == old(self).spec_addr(),
            final(self).spec_addr_valid() == old(self).spec_addr_valid(),
            final(self).spec_exit() == old(self).spec_exit(),
            old(self).spec_role() is Listening || old(self).spec_role() is ServerActive ==> {
                &&& final(self).spec_registry() == old(self).spec_registry().insert(id, handle)
                &&& final(self).spec_role() is ServerActive
                &&& spec_clients(final(self).spec_role()) == final(self).spec_registry().dom().len()
                &&& (r matches OpenOutcome::Accepted { count } && count == spec_clients(
                    final(self).spec_role(),
                ))
            },
            old(self).spec_role() is Idle || old(self).spec_role() is ClientActive
                ==> r is ProtocolViolation && final(self).spec_role() == old(self).spec_role()
                && final(self).spec_registry() == old(self).spec_registry(),
    {
        match self.role {
            Role::Listening | Role::ServerActive { .. } => {
                self.registry.register(id, handle);
                let n = self.registry.len();
                proof {
                    self.registry.lemma_dom_finite();
                    assert(self.registry@.dom().contains(id));
                    if self.registry@.dom().len() == 0 {
                        self.registry@.dom().lemma_len0_is_empty();
                    }
                }
                self.role = Role::ServerActive { clients: n as u64 };
                OpenOutcome::Accepted { count: n as u64 }
            },
            _ => OpenOutcome::ProtocolViolation,
        }
    }

    /// A peer connection ended. The identity is always deregistered
    /// first; then the policy matrix decides. A graceful peer close while
    /// serving only drops the count (to listening at zero); any other
    /// ending while serving tears the listener down and attempts a
    /// rebind, as does any ending as a client, a non-graceful ending
    /// while listening, and any stale ending while idle.
    pub fn on_connection_closed(&mut self, id: u64, graceful: bool) -> (r: Option<String>)
        requires
            old(self).wf(),
        ensures
            final(self).wf(),
            Self::spec_closed_transition(*old(self), *final(self), id, graceful, r),
    {
        self.registry.deregister(id);
        proof {
            if !(old(self).spec_role() is ServerActive) {
                old(self).registry.lemma_dom_finite();
                old(self).spec_registry().dom().lemma_len0_is_empty();
                assert(self.registry@.dom() =~= Set::<u64>::empty());
                assert(self.registry@.dom().len() == 0);
            }
        }
        match self.role {
            Role::ServerActive { .. } => {
                if graceful {
                    let n = self.registry.len();
                    if n == 0 {
                        self.role = Role::Listening;
                    } else {
                        self.role = Role::ServerActive { clients: n as u64 };
                    }
                    None
                } else {
                    self.registry.clear();
                    proof {
                        assert(Map::<u64, H>::empty().dom() =~= Set::<u64>::empty());
                    }
                    self.rebind_attempt()
                }
            },
            Role::ClientActive => self.rebind_attempt(),
            Role::Listening => {
                if graceful {
                    None
                } else {
                    self.rebind_attempt()
                }
            },
            Role::Idle => self.rebind_attempt(),
        }
    }

    /// A transport error on a connection or the listener. An address-class
    /// error outside the client role marks the remembered address
    /// unusable; then the ending is handled as a non-graceful close.
    pub fn on_connection_error(&mut self, id: u64, kind: ErrorClass) -> (r: Option<String>)
        requires
            old(self).wf(),
        ensures
            final(self).wf(),
            Self::spec_error_transition(*old(self), *final(self), kind, r),
            old(self).spec_role() is ServerActive ==> final(self).spec_registry() == Map::<
                u64,
                H,
            >::empty(),
            !(old(self).spec_role() is ServerActive) ==> final(self).spec_registry() == old(
                self,
            ).spec_registry().remove(id),
    {
        let addr_err = match kind {
            ErrorClass::AddressInUse | ErrorClass::AddressUnavailable => true,
            ErrorClass::Other => false,
        };
        let is_client = match self.role {
            Role::ClientActive => true,
            _ => false,
        };
        if addr_err && !is_client {
            self.addr_valid = false;
        }
        self.on_connection_closed(id, false)
    }

    /// A transport error of the listener itself, with no connection
    /// identity attached: handled like a connection error, except that no
    /// identity leaves the registry.
    pub fn on_listener_error(&mut self, kind: ErrorClass) -> (r: Option<String>)
        requires
            old(self).wf(),
        ensures
            final(self).wf(),
            Self::spec_error_transition(*old(self), *final(self), kind, r),
            old(self).spec_role() is ServerActive ==> final(self).spec_registry() == Map::<
                u64,
                H,
            >::empty(),
            !(old(self).spec_role() is ServerActive) ==> final(self).spec_registry() == old(
                self,
            ).spec_registry(),
    {
        let addr_err = match kind {
            ErrorClass::AddressInUse | ErrorClass::AddressUnavailable => true,
            ErrorClass::Other => false,
        };
        let is_client = match self.role {
            Role::ClientActive => true,
            _ => false,
        };
        if addr_err && !is_client {
            self.addr_valid = false;
        }
        match self.role {
            Role::ServerActive { .. } => {
                self.registry.clear();
                proof {
                    assert(Map::<u64, H>::empty().dom() =~= Set::<u64>::empty());
                }
                self.rebind_attempt()
            },
            _ => self.rebind_attempt(),
        }
    }

    /// Asks to close everything: while serving, every registered
    /// connection; as a client, the one outbound connection; otherwise a
    /// reported no-op. The closes themselves come back as events.
    pub fn request_close_all(&self) -> (r: CloseAllDecision)
        requires
            self.wf(),
        ensures
            self.spec_role() is ServerActive ==> (r matches CloseAllDecision::CloseClients(ids)
                && ids@.no_duplicates() && ids@.len() == self.spec_registry().dom().len() && (
            forall|k: u64| ids@.contains(k) <==> self.spec_registry().dom().contains(k))),
            self.spec_role() is ClientActive ==> r is CloseClient,
            self.spec_role() is Idle || self.spec_role() is Listening ==> r is NotConnected,
    {
        match self.role {
            Role::ServerActive { .. } => CloseAllDecision::CloseClients(self.registry.ids()),
            Role::ClientActive => CloseAllDecision::CloseClient,
            _ => CloseAllDecision::NotConnected,
        }
    }

    /// Asks to leave the event loop. Sockets are not forced shut; the
    /// transports own their own shutdown.
    pub fn request_exit(&mut self)
        requires
            old(self).wf(),
        ensures
            final(self).wf(),
            final(self).spec_exit(),
            final(self).spec_role() == old(self).spec_role(),
            final(self).spec_addr() == old(self).spec_addr(),
            final(self).spec_addr_valid() == old(self).spec_addr_valid(),
            final(self).spec_registry() == old(self).spec_registry(),
    {
        self.exit = true;
    }
}

/// A serving role always counts exactly the registered identities, and
/// the count is never zero while serving: when the last peer leaves, the
/// role is `Listening`, never a serving role over nobody.
pub proof fn lemma_server_count_matches_registry<H>(s: Supervisor<H>)
    requires
        s.wf(),
    ensures
        spec_clients(s.spec_role()) == s.spec_registry().dom().len(),
        s.spec_role() is ServerActive ==> spec_clients(s.spec_role()) >= 1,
        !(s.spec_role() is ServerActive) ==> s.spec_registry().dom().len() == 0,
{
}

} // verus!
