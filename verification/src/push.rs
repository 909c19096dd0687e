//! Push notification support for real-time state updates.
//!
//! A push manager owns a subscription registry, a discovery-callback slot
//! and liveness diagnostics. The long-lived socket and the receive loop that
//! feed it are the caller's; every decision the loop takes for one inbound
//! datagram — freshen the liveness clock, discard the liveness sentinel,
//! decode, normalize the sender identifier, pick the subscriber, invoke the
//! callback — is [`PushManager::handle_datagram`], verified here, with the
//! routing pinned by [`spec_route`].

use vstd::prelude::*;
use crate::codec::encode_registration;
use crate::codec::mac_from_seed;
use crate::codec::spec_is_hex_char;
use crate::codec::spec_registration_text;
use crate::discovery::DiscoveredBulb;
use crate::errors::Error;
use crate::json::bytes_to_text;
use crate::json::json_method;
use crate::json::json_method_of;
use crate::json::json_params_mac;
use crate::json::json_params_mac_of;
use crate::json::json_params_value;
use crate::json::utf8_text;
use crate::net::Ipv4;
use crate::table::StrMap;
use crate::text::spec_upper;
use crate::text::str_eq;
use crate::text::to_upper;

verus! {

/// The port the push listener binds: bulbs send unsolicited updates here.
pub const LISTEN_PORT: u16 = 38900;

/// The port bulbs take commands on, where registration messages go.
pub const RESPOND_PORT: u16 = 38899;

/// A subscriber's callback for state updates. The listener invokes it with
/// the normalized (uppercase) sender identifier and the update's `params`
/// object as JSON text.
pub trait StateCallback {
    /// Called for each state update from the subscribed bulb.
    fn on_state(&self, mac: &str, params: &str);
}

/// The callback for first-seen devices. The listener invokes it with the
/// discovered device's address and normalized identifier.
pub trait DiscoveryCallback {
    /// Called when an unknown bulb announces itself.
    fn on_discover(&self, bulb: DiscoveredBulb);
}

/// The one capability registration needs: a bounded-time unicast send.
pub trait SendPort {
    /// Send one datagram to `ip:port`, within the implementation's bounded
    /// send timeout.
    fn send_to(&mut self, ip: Ipv4, port: u16, message: &str) -> Result<(), Error>;
}

/// Diagnostics for the push manager.
#[derive(Debug, Clone)]
pub struct PushDiagnostics {
    pub running: bool,
    pub subscription_count: usize,
    /// Milliseconds since the last inbound datagram, absent if none yet.
    pub time_since_last_push_ms: Option<u64>,
    /// The last socket-level receive error, absent if none.
    pub last_error: Option<String>,
}

/// What the listener did with one inbound datagram.
#[derive(Debug, Clone)]
pub enum Dispatch {
    /// The liveness sentinel: freshens the clock, reaches no decoding and
    /// no callback.
    Probe,
    /// A state update delivered to the subscriber of this identifier.
    State { mac: String },
    /// A state update whose identifier nobody subscribed to.
    NoSubscriber,
    /// A first-seen announcement delivered to the discovery callback.
    Discovery { mac: String, ip: Ipv4 },
    /// A first-seen announcement with no discovery callback set.
    NoDiscoveryCallback,
    /// Anything else: undecodable, incomplete, from a non-IPv4 sender, or
    /// of an unknown method.
    Ignored,
}

/// The routing decision, over the datagram's mathematical content.
pub enum Route {
    Probe,
    State(Seq<char>),
    NoSubscriber,
    Discovery(Seq<char>, Ipv4),
    NoDiscoveryCallback,
    Ignored,
}

impl View for Dispatch {
    type V = Route;

    open spec fn view(&self) -> Route {
        match self {
            Dispatch::Probe => Route::Probe,
            Dispatch::State { mac } => Route::State(mac@),
            Dispatch::NoSubscriber => Route::NoSubscriber,
            Dispatch::Discovery { mac, ip } => Route::Discovery(mac@, *ip),
            Dispatch::NoDiscoveryCallback => Route::NoDiscoveryCallback,
            Dispatch::Ignored => Route::Ignored,
        }
    }
}

/// The bytes of the liveness sentinel some firmware sends: the literal text
/// `test`.
pub open spec fn spec_test_probe() -> Seq<u8> {
    seq![116u8, 101u8, 115u8, 116u8]
}

/// Where one inbound datagram goes, as a function of its bytes, its sender,
/// the subscribed identifiers and whether a discovery callback is set: the
/// sentinel is discarded first; then the datagram must decode to a JSON
/// object carrying a method name and a `params.mac` identifier and come from
/// an IPv4 sender; a `syncPilot` update goes to the subscriber of the
/// normalized identifier, a `firstBeat` announcement to the discovery
/// callback, and everything else nowhere.
pub open spec fn spec_route(
    data: Seq<u8>,
    source: Option<Ipv4>,
    subs: Set<Seq<char>>,
    has_discovery: bool,
) -> Route {
    if data == spec_test_probe() {
        Route::Probe
    } else {
        match utf8_text(data) {
            None => Route::Ignored,
            Some(t) => match (json_method_of(t), json_params_mac_of(t), source) {
                (Some(m), Some(id), Some(src)) => if m == "syncPilot"@ {
                    if subs.contains(spec_upper(id)) {
                        Route::State(spec_upper(id))
                    } else {
                        Route::NoSubscriber
                    }
                } else if m == "firstBeat"@ {
                    if has_discovery {
                        Route::Discovery(spec_upper(id), src)
                    } else {
                        Route::NoDiscoveryCallback
                    }
                } else {
                    Route::Ignored
                },
                _ => Route::Ignored,
            },
        }
    }
}

/// Manages push notification subscriptions for multiple bulbs.
///
/// The manager holds the decisions of the push listener: who subscribed to
/// which identifier, the single discovery callback, the registration message
/// built at start, and the liveness diagnostics. The caller binds the listen
/// socket before starting the manager, runs the receive loop for as long as
/// [`is_running`](Self::is_running) says, and feeds every inbound datagram
/// to [`handle_datagram`](Self::handle_datagram).
pub struct PushManager<C: StateCallback, D: DiscoveryCallback> {
    /// Whether the receive loop should be running.
    pub running: bool,
    /// The per-identifier state-update callbacks.
    pub subscriptions: StrMap<C>,
    /// The single discovery callback, if set.
    pub discovery_callback: Option<D>,
    /// The caller's clock reading when the last datagram arrived.
    pub last_push_ms: Option<u64>,
    /// The last socket-level receive error.
    pub last_error: Option<String>,
    /// The registration message built by `start`, `None` until then.
    pub register_msg: Option<String>,
}

/// A manager's state with the running flag cleared and all else kept:
/// exactly what one `stop` leaves behind.
pub open spec fn spec_stopped<C: StateCallback, D: DiscoveryCallback>(
    m: PushManager<C, D>,
) -> PushManager<C, D> {
    PushManager { running: false, ..m }
}

/// Whether a text is a well-formed registration message for this address:
/// the fixed registration envelope around the address and some twelve-digit
/// uppercase hexadecimal session identifier.
pub open spec fn spec_is_registration(t: Seq<char>, ip: Ipv4) -> bool {
    exists|mac: Seq<char>|
        {
            &&& #[trigger] spec_registration_text(ip, mac) == t
            &&& mac.len() == 12
            &&& forall|i: int| 0 <= i < 12 ==> spec_is_hex_char(#[trigger] mac[i])
        }
}

impl<C: StateCallback, D: DiscoveryCallback> PushManager<C, D> {
    pub open spec fn wf(self) -> bool {
        self.subscriptions.wf()
    }

    /// Create a new push manager: stopped, with no subscriptions, no
    /// discovery callback, no traffic seen, no error, and no registration
    /// message yet.
    pub fn new() -> (r: Self)
        ensures
            r.wf(),
            !r.running,
            r.subscriptions@ == Map::<Seq<char>, C>::empty(),
            r.discovery_callback is None,
            r.last_push_ms is None,
            r.last_error is None,
            r.register_msg is None,
    {
        PushManager {
            running: false,
            subscriptions: StrMap::new(),
            discovery_callback: None,
            last_push_ms: None,
            last_error: None,
            register_msg: None,
        }
    }

    /// Check if the push manager is currently running.
    pub fn is_running(&self) -> (r: bool)
        ensures
            r == self.running,
    {
        self.running
    }

    /// Subscribe to state updates for a specific bulb: an idempotent upsert
    /// under the normalized (uppercase) identifier. The callback will be
    /// invoked for every state update whose sender identifier matches.
    pub fn subscribe(&mut self, mac: &str, callback: C)
        requires
            old(self).wf(),
        ensures
            final (self).wf(),
            final (self).subscriptions@ == old(self).subscriptions@.insert(
                spec_upper(mac@),
                callback,
            ),
            final (self).running == old(self).running,
            final (self).discovery_callback == old(self).discovery_callback,
            final (self).last_push_ms == old(self).last_push_ms,
            final (self).last_error == old(self).last_error,
            final (self).register_msg == old(self).register_msg,
    {
        let id = to_upper(mac);
        self.subscriptions.insert(id, callback);
    }

    /// Unsubscribe from state updates for a specific bulb; an absent
    /// identifier is no error.
    pub fn unsubscribe(&mut self, mac: &str)
        requires
            old(self).wf(),
        ensures
            final (self).wf(),
            final (self).subscriptions@ == old(self).subscriptions@.remove(spec_upper(mac@)),
            final (self).running == old(self).running,
            final (self).discovery_callback == old(self).discovery_callback,
            final (self).last_push_ms == old(self).last_push_ms,
            final (self).last_error == old(self).last_error,
            final (self).register_msg == old(self).register_msg,
    {
        let id = to_upper(mac);
        self.subscriptions.remove(id.as_str());
    }

    /// Set the callback for first-seen devices; a later call overwrites the
    /// earlier callback.
    pub fn set_discovery_callback(&mut self, callback: D)
        ensures
            *final (self) == (PushManager { discovery_callback: Some(callback), ..*old(self) }),
    {
        self.discovery_callback = Some(callback);
    }

    /// Start the listener's state: a no-op while already running; otherwise
    /// the registration message is built — the caller's address and a fresh
    /// session identifier — and the running flag is set. The caller binds
    /// the listen socket before this call and launches the receive loop
    /// after it.
    pub fn start(&mut self, local_ip: Ipv4)
        requires
            old(self).wf(),
        ensures
            final (self).wf(),
            final (self).running,
            old(self).running ==> *final (self) == *old(self),
            !old(self).running ==> {
                &&& final (self).subscriptions == old(self).subscriptions
                &&& final (self).discovery_callback == old(self).discovery_callback
                &&& final (self).last_push_ms == old(self).last_push_ms
                &&& final (self).last_error == old(self).last_error
                &&& (final (self).register_msg matches Some(msg) && spec_is_registration(
                    msg@,
                    local_ip,
                ))
            },
    {
        if self.is_running() {
            return ;
        }
        let mac = generate_mac();
        let msg = encode_registration(&local_ip, mac.as_str());
        proof {
            assert(spec_is_registration(msg@, local_ip)) by {
                assert(spec_registration_text(local_ip, mac@) == msg@);
            }
        }
        self.register_msg = Some(msg);
        self.running = true;
    }

    /// Stop the listener: clear the running flag, which the receive loop
    /// observes within its own bounded receive timeout, and keep everything
    /// else. Stopping an already stopped manager changes nothing.
    pub fn stop(&mut self)
        ensures
            *final (self) == spec_stopped(*old(self)),
    {
        self.running = false;
    }

    /// The registration message for registering with bulbs, `None` until
    /// `start` has run at least once.
    pub fn registration_message(&self) -> (r: Option<&String>)
        ensures
            r == match self.register_msg {
                Some(m) => Some(&m),
                None => None,
            },
    {
        self.register_msg.as_ref()
    }

    /// Register with a bulb to receive push notifications: send the stored
    /// registration message to the bulb's command port. Fails with
    /// [`Error::NotStarted`] exactly when no registration message exists —
    /// that is, when `start` has never run. Once started, a send failure
    /// surfaces as a socket-class error, never as `NotStarted`.
    pub fn register_bulb<P: SendPort>(&self, port: &mut P, bulb_ip: Ipv4) -> (r: Result<(), Error>)
        ensures
            self.register_msg is None <==> (r matches Err(e) && e == Error::NotStarted),
    {
        let msg = match &self.register_msg {
            Some(m) => m,
            None => {
                return Err(Error::NotStarted);
            },
        };
        match port.send_to(bulb_ip, RESPOND_PORT, msg.as_str()) {
            Ok(_) => Ok(()),
            Err(e) => match e {
                Error::NotStarted => Err(Error::Socket {
                    action: String::from_str("send_to"),
                    detail: String::from_str("send failed"),
                }),
                other => Err(other),
            },
        }
    }

    /// Record a socket-level receive error for diagnostics; the loop
    /// continues after such errors.
    pub fn note_error(&mut self, error: &str)
        ensures
            *final (self) == (PushManager { last_error: final (self).last_error, ..*old(self) }),
            final (self).last_error matches Some(e) && e@ == error@,
    {
        self.last_error = Some(error.to_owned());
    }

    /// Handle one inbound datagram: the liveness clock is freshened first,
    /// whatever the datagram holds; the routing — sentinel, state update to
    /// the normalized identifier's subscriber, first-seen announcement to
    /// the discovery callback, or nothing — follows [`spec_route`], and the
    /// chosen callback is invoked before this call returns. Subscriptions
    /// and the rest of the state are untouched.
    pub fn handle_datagram(&mut self, data: &[u8], source: Option<Ipv4>, now_ms: u64) -> (r:
        Dispatch)
        requires
            old(self).wf(),
        ensures
            final (self).wf(),
            final (self).last_push_ms == Some(now_ms),
            final (self).running == old(self).running,
            final (self).subscriptions == old(self).subscriptions,
            final (self).discovery_callback == old(self).discovery_callback,
            final (self).last_error == old(self).last_error,
            final (self).register_msg == old(self).register_msg,
            r@ == spec_route(
                data@,
                source,
                old(self).subscriptions@.dom(),
                old(self).discovery_callback is Some,
            ),
    {
        self.last_push_ms = Some(now_ms);
        if is_test_probe(data) {
            return Dispatch::Probe;
        }
        let text = match bytes_to_text(vstd::slice::slice_to_vec(data)) {
            Ok(t) => t,
            Err(_) => {
                return Dispatch::Ignored;
            },
        };
        let method = match json_method(text.as_str()) {
            Some(m) => m,
            None => {
                return Dispatch::Ignored;
            },
        };
        let mac = match json_params_mac(text.as_str()) {
            Some(m) => m,
            None => {
                return Dispatch::Ignored;
            },
        };
        let src = match source {
            Some(s) => s,
            None => {
                return Dispatch::Ignored;
            },
        };
        let id = to_upper(mac.as_str());
        if str_eq(method.as_str(), "syncPilot") {
            match self.subscriptions.get(id.as_str()) {
                Some(cb) => {
                    let params = match json_params_value(text.as_str()) {
                        Some(p) => p,
                        None => String::from_str("null"),
                    };
                    cb.on_state(id.as_str(), params.as_str());
                    Dispatch::State { mac: id }
                },
                None => Dispatch::NoSubscriber,
            }
        } else if str_eq(method.as_str(), "firstBeat") {
            match &self.discovery_callback {
                Some(cb) => {
                    cb.on_discover(DiscoveredBulb { ip: src, mac: id.clone() });
                    Dispatch::Discovery { mac: id, ip: src }
                },
                None => Dispatch::NoDiscoveryCallback,
            }
        } else {
            Dispatch::Ignored
        }
    }

    /// A snapshot of the manager for diagnostics: the running flag, the
    /// subscriber count, the time since the last inbound datagram on the
    /// caller's clock (absent before any traffic; zero if the clock reads
    /// earlier than the last datagram), and the last receive error.
    pub fn diagnostics(&self, now_ms: u64) -> (r: PushDiagnostics)
        requires
            self.wf(),
        ensures
            r.running == self.running,
            r.subscription_count == self.subscriptions@.dom().len(),
            r.time_since_last_push_ms == match self.last_push_ms {
                Some(t) => Some(
                    if now_ms >= t {
                        (now_ms - t) as u64
                    } else {
                        0u64
                    },
                ),
                None => None,
            },
            r.last_error == self.last_error,
    {
        PushDiagnostics {
            running: self.running,
            subscription_count: self.subscriptions.len(),
            time_since_last_push_ms: match self.last_push_ms {
                Some(t) => Some(
                    if now_ms >= t {
                        now_ms - t
                    } else {
                        0
                    },
                ),
                None => None,
            },
            last_error: match &self.last_error {
                Some(e) => Some(e.clone()),
                None => None,
            },
        }
    }
}

/// Whether the datagram is the liveness sentinel.
fn is_test_probe(data: &[u8]) -> (r: bool)
    ensures
        r == (data@ == spec_test_probe()),
{
    if data.len() != 4 {
        proof {
            assert(spec_test_probe().len() == 4);
        }
        return false;
    }
    let r = data[0] == 116 && data[1] == 101 && data[2] == 115 && data[3] == 116;
    proof {
        if r {
            assert(data@ =~= spec_test_probe());
        } else {
            assert(data@ != spec_test_probe()) by {
                assert(spec_test_probe()[0] == 116 && spec_test_probe()[1] == 101
                    && spec_test_probe()[2] == 115 && spec_test_probe()[3] == 116);
            }
        }
    }
    r
}

/// Relies on std's `SystemTime::now` and `SystemTime::duration_since`: the
/// nanoseconds since the UNIX epoch, or zero if the system clock reads
/// earlier than the epoch. Nothing is assumed of the value.
#[verifier::external_body]
fn now_unix_nanos() -> u128 {
    std::time::SystemTime::now()
        .duration_since(std::time::UNIX_EPOCH)
        .map(|d| d.as_nanos())
        .unwrap_or(0)
}

/// A fresh session identifier for registration messages: twelve uppercase
/// hexadecimal digits drawn from the clock, shaped like a hardware address
/// but distinguishable from the host's own.
pub fn generate_mac() -> (r: String)
    ensures
        r@.len() == 12,
        forall|i: int| 0 <= i < 12 ==> spec_is_hex_char(#[trigger] r@[i]),
{
    mac_from_seed(now_unix_nanos())
}

/// A state update whose normalized sender identifier is subscribed goes to
/// exactly that subscriber, under the uppercase identifier — whatever case
/// the datagram wrote the identifier in.
pub proof fn lemma_sync_pilot_reaches_subscriber(
    data: Seq<u8>,
    t: Seq<char>,
    id: Seq<char>,
    src: Ipv4,
    subs: Set<Seq<char>>,
    has_discovery: bool,
)
    requires
        data != spec_test_probe(),
        utf8_text(data) == Some(t),
        json_method_of(t) == Some("syncPilot"@),
        json_params_mac_of(t) == Some(id),
        subs.contains(spec_upper(id)),
    ensures
        spec_route(data, Some(src), subs, has_discovery) == Route::State(spec_upper(id)),
{
}

/// After unsubscribing an identifier, a matching state update reaches no
/// callback: the subscriber set without the identifier routes the datagram
/// to nobody.
pub proof fn lemma_unsubscribed_reaches_nobody(
    data: Seq<u8>,
    t: Seq<char>,
    id: Seq<char>,
    src: Ipv4,
    subs: Set<Seq<char>>,
    has_discovery: bool,
)
    requires
        data != spec_test_probe(),
        utf8_text(data) == Some(t),
        json_method_of(t) == Some("syncPilot"@),
        json_params_mac_of(t) == Some(id),
        !subs.contains(spec_upper(id)),
    ensures
        spec_route(data, Some(src), subs, has_discovery) == Route::NoSubscriber,
{
}

/// The liveness sentinel reaches no decoding and no callback, whoever is
/// subscribed; it only freshens the liveness clock (which
/// [`PushManager::handle_datagram`] guarantees for every datagram).
pub proof fn lemma_probe_reaches_nobody(
    source: Option<Ipv4>,
    subs: Set<Seq<char>>,
    has_discovery: bool,
)
    ensures
        spec_route(spec_test_probe(), source, subs, has_discovery) == Route::Probe,
{
}

/// Stopping is idempotent: a second stop leaves exactly the state the first
/// one left, and a stopped manager reports itself not running.
pub proof fn lemma_stop_idempotent<C: StateCallback, D: DiscoveryCallback>(m: PushManager<C, D>)
    ensures
        spec_stopped(spec_stopped(m)) == spec_stopped(m),
        !spec_stopped(m).running,
{
}

} // verus!
