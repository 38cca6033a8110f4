use crate::cdp::{discovery_url_text, located, script_frame, CdpClient, DiscoveryReply};
use vstd::prelude::*;

verus! {

/// The script that is delivered to the session page.
pub const BOOTSTRAP_JS: &'static str = "(function () {\n  if (window.__irefinedBootstrapped) {\n    return;\n  }\n  window.__irefinedBootstrapped = true;\n  var attempts = 0;\n  var timer = setInterval(function () {\n    attempts += 1;\n    if (document.head) {\n      clearInterval(timer);\n      var tag = document.createElement('script');\n      tag.type = 'module';\n      tag.src = 'https://github.com/jason-murray/irefined/releases/latest/download/main.js';\n      document.head.appendChild(tag);\n    } else if (attempts > 600) {\n      clearInterval(timer);\n    }\n  }, 100);\n})();\n";

/// Seconds to pause between two discovery requests.
pub const POLL_INTERVAL_SECS: u64 = 1;

/// The script that is delivered to the session page.
pub fn get_bootstrap_js() -> (js: &'static str)
    ensures
        js@ == BOOTSTRAP_JS@,
{
    BOOTSTRAP_JS
}

/// What the surroundings report back to the monitor.
#[derive(Debug, Clone, PartialEq, Eq)]
pub enum MonitorEvent {
    /// The monitor has just been started.
    Started,
    /// The pause is over.
    Woke,
    /// The discovery request has come to an end.
    Replied(DiscoveryReply),
    /// The frame went out to `address`; whether an acknowledgment came in
    /// does not matter.
    Delivered { address: String },
    /// The channel to `address` could not be opened, or the frame not sent.
    DeliveryFailed { address: String },
}

/// What the monitor asks the surroundings to do next.
#[derive(Debug, Clone, PartialEq, Eq)]
pub enum MonitorAction {
    /// Pause for so many seconds, then report `Woke`.
    Sleep { seconds: u64 },
    /// Request `url`, then report `Replied`.
    Fetch { url: String },
    /// Open a channel to `address`, send `frame` as one text frame, wait for
    /// at most one frame, close, then report `Delivered` or `DeliveryFailed`.
    Inject { address: String, frame: String },
}

/// The served addresses after the monitor has taken an event: only the
/// report of a delivery adds one.
pub open spec fn seen_after(seen: Set<Seq<char>>, event: MonitorEvent) -> Set<Seq<char>> {
    match event {
        MonitorEvent::Delivered { address } => seen.insert(address@),
        _ => seen,
    }
}

/// Whether a tick that finds `found` has to deliver: an address was found and
/// it is not among those already served.
pub open spec fn should_inject(seen: Set<Seq<char>>, found: Option<Seq<char>>) -> bool {
    found is Some && !seen.contains(found->0)
}

/// How many frames a tick sends.
pub open spec fn tick_sends(seen: Set<Seq<char>>, found: Option<Seq<char>>) -> nat {
    if should_inject(seen, found) {
        1
    } else {
        0
    }
}

/// The served addresses after a tick that found `found` and whose send, if
/// there was one, succeeded or not.
pub open spec fn tick_seen(seen: Set<Seq<char>>, found: Option<Seq<char>>, sent: bool) -> Set<
    Seq<char>,
> {
    if should_inject(seen, found) && sent {
        seen.insert(found->0)
    } else {
        seen
    }
}

/// How many frames a run of ticks sends. Each tick is what discovery found
/// and whether a send would succeed.
pub open spec fn sends_over(seen: Set<Seq<char>>, ticks: Seq<(Option<Seq<char>>, bool)>) -> nat
    decreases ticks.len(),
{
    if ticks.len() == 0 {
        0
    } else {
        tick_sends(seen, ticks[0].0) + sends_over(
            tick_seen(seen, ticks[0].0, ticks[0].1),
            ticks.drop_first(),
        )
    }
}

/// The served addresses after a run of ticks.
pub open spec fn seen_over(seen: Set<Seq<char>>, ticks: Seq<(Option<Seq<char>>, bool)>) -> Set<
    Seq<char>,
>
    decreases ticks.len(),
{
    if ticks.len() == 0 {
        seen
    } else {
        seen_over(tick_seen(seen, ticks[0].0, ticks[0].1), ticks.drop_first())
    }
}

/// Finds control channels and delivers the script to each once.
#[derive(Debug, Clone)]
pub struct InjectionMonitor {
    cdp: CdpClient,
    script: String,
    seen_urls: Vec<String>,
}

impl InjectionMonitor {
    /// Validity: no address is kept twice.
    pub closed spec fn wf(&self) -> bool {
        forall|i: int, j: int|
            0 <= i < j < self.seen_urls@.len() ==> self.seen_urls@[i]@ != self.seen_urls@[j]@
    }

    /// The addresses served since the start or the last reload.
    pub closed spec fn seen(&self) -> Set<Seq<char>> {
        Set::new(
            |a: Seq<char>|
                exists|i: int| 0 <= i < self.seen_urls@.len() && self.seen_urls@[i]@ == a,
        )
    }

    /// The discovery port.
    pub closed spec fn port(&self) -> u16 {
        self.cdp.port
    }

    /// The script that is delivered.
    pub closed spec fn script(&self) -> Seq<char> {
        self.script@
    }

    /// A monitor for the discovery service on `port`, delivering the built-in
    /// script, with nothing served yet.
    pub fn new(port: u16) -> (monitor: InjectionMonitor)
        ensures
            monitor.wf(),
            monitor.port() == port,
            monitor.script() == BOOTSTRAP_JS@,
            monitor.seen() == Set::<Seq<char>>::empty(),
    {
        InjectionMonitor::with_script(port, String::from_str(get_bootstrap_js()))
    }

    /// A monitor for the discovery service on `port`, delivering `script`,
    /// with nothing served yet.
    pub fn with_script(port: u16, script: String) -> (monitor: InjectionMonitor)
        ensures
            monitor.wf(),
            monitor.port() == port,
            monitor.script() == script@,
            monitor.seen() == Set::<Seq<char>>::empty(),
    {
        let monitor = InjectionMonitor { cdp: CdpClient::new(port), script, seen_urls: Vec::new() };
        assert(monitor.seen() =~= Set::<Seq<char>>::empty());
        monitor
    }

    /// Whether `address` has been served.
    pub fn has_seen(&self, address: &str) -> (seen: bool)
        ensures
            seen == self.seen().contains(address@),
    {
        let wanted: String = address.to_owned();
        let mut i: usize = 0;
        while i < self.seen_urls.len()
            invariant
                i <= self.seen_urls.len(),
                wanted@ == address@,
                forall|k: int| 0 <= k < i ==> self.seen_urls@[k]@ != address@,
            decreases self.seen_urls.len() - i,
        {
            if self.seen_urls[i] == wanted {
                return true;
            }
            i += 1;
        }
        false
    }

    /// Records `address` as served.
    pub fn mark_seen(&mut self, address: String)
        requires
            old(self).wf(),
        ensures
            final(self).wf(),
            final(self).seen() == old(self).seen().insert(address@),
            final(self).port() == old(self).port(),
            final(self).script() == old(self).script(),
    {
        if !self.has_seen(address.as_str()) {
            let ghost before = self.seen_urls@;
            self.seen_urls.push(address);
            assert forall|a: Seq<char>| self.seen().contains(a) == old(self).seen().insert(
                address@,
            ).contains(a) by {
                if old(self).seen().contains(a) {
                    let i = choose|i: int| 0 <= i < before.len() && before[i]@ == a;
                    assert(self.seen_urls@[i]@ == a);
                }
                if a == address@ {
                    assert(self.seen_urls@[before.len() as int]@ == a);
                }
            }
        }
        assert(self.seen() =~= old(self).seen().insert(address@));
    }

    /// Forgets every served address, so that the next address found is
    /// served again.
    pub fn reload(&mut self)
        ensures
            final(self).wf(),
            final(self).seen() == Set::<Seq<char>>::empty(),
            final(self).port() == old(self).port(),
            final(self).script() == old(self).script(),
    {
        self.seen_urls.clear();
        assert(self.seen() =~= Set::<Seq<char>>::empty());
    }

    /// The action for a tick, given what discovery found and the frame that
    /// would be sent: deliver where an address was found that has not been
    /// served and there is a frame, else pause.
    pub fn plan(&self, found: Option<String>, frame: Option<String>) -> (action: MonitorAction)
        ensures
            match (found, frame) {
                (Some(a), Some(f)) => if self.seen().contains(a@) {
                    action == (MonitorAction::Sleep { seconds: POLL_INTERVAL_SECS })
                } else {
                    action == (MonitorAction::Inject { address: a, frame: f })
                },
                _ => action == (MonitorAction::Sleep { seconds: POLL_INTERVAL_SECS }),
            },
    {
        match (found, frame) {
            (Some(address), Some(frame)) => {
                if self.has_seen(address.as_str()) {
                    MonitorAction::Sleep { seconds: POLL_INTERVAL_SECS }
                } else {
                    MonitorAction::Inject { address, frame }
                }
            },
            _ => MonitorAction::Sleep { seconds: POLL_INTERVAL_SECS },
        }
    }

    /// What to do about a discovery reply. A reply that shows no address, or
    /// one that has been served, leads to a pause; one that shows a new
    /// address leads to the delivery of the script there.
    pub fn observe(&self, reply: &DiscoveryReply) -> (action: MonitorAction)
        ensures
            match action {
                MonitorAction::Inject { address, frame } => {
                    &&& should_inject(self.seen(), located(*reply))
                    &&& address@ == located(*reply)->0
                    &&& frame@ == script_frame(self.script())
                },
                MonitorAction::Sleep { seconds } => {
                    &&& !should_inject(self.seen(), located(*reply))
                    &&& seconds == POLL_INTERVAL_SECS
                },
                MonitorAction::Fetch { .. } => false,
            },
    {
        match self.cdp.get_websocket_url(reply) {
            Some(address) => {
                let frame = if self.has_seen(address.as_str()) {
                    None
                } else {
                    match self.cdp.inject_script(address.as_str(), self.script.as_str()) {
                        Some(injection) => Some(injection.frame),
                        None => None,
                    }
                };
                self.plan(Some(address), frame)
            },
            None => self.plan(None, None),
        }
    }

    /// One transition of the monitor: takes what happened and says what to
    /// do next. Only a reported delivery changes the served addresses.
    pub fn step(&mut self, event: MonitorEvent) -> (action: MonitorAction)
        requires
            old(self).wf(),
        ensures
            final(self).wf(),
            final(self).port() == old(self).port(),
            final(self).script() == old(self).script(),
            final(self).seen() == seen_after(old(self).seen(), event),
            match event {
                MonitorEvent::Started => action == (MonitorAction::Sleep {
                    seconds: POLL_INTERVAL_SECS,
                }),
                MonitorEvent::Woke => {
                    &&& action is Fetch
                    &&& action->url@ == discovery_url_text(old(self).port())
                },
                MonitorEvent::Replied(reply) => {
                    match action {
                        MonitorAction::Inject { address, frame } => {
                            &&& should_inject(old(self).seen(), located(reply))
                            &&& address@ == located(reply)->0
                            &&& frame@ == script_frame(old(self).script())
                        },
                        MonitorAction::Sleep { seconds } => {
                            &&& !should_inject(old(self).seen(), located(reply))
                            &&& seconds == POLL_INTERVAL_SECS
                        },
                        MonitorAction::Fetch { .. } => false,
                    }
                },
                MonitorEvent::Delivered { .. } | MonitorEvent::DeliveryFailed { .. } => action == (
                MonitorAction::Sleep { seconds: POLL_INTERVAL_SECS }),
            },
    {
        match event {
            MonitorEvent::Started => MonitorAction::Sleep { seconds: POLL_INTERVAL_SECS },
            MonitorEvent::Woke => MonitorAction::Fetch { url: self.cdp.discovery_url() },
            MonitorEvent::Replied(reply) => self.observe(&reply),
            MonitorEvent::Delivered { address } => {
                self.mark_seen(address);
                MonitorAction::Sleep { seconds: POLL_INTERVAL_SECS }
            },
            MonitorEvent::DeliveryFailed { address: _ } => MonitorAction::Sleep {
                seconds: POLL_INTERVAL_SECS,
            },
        }
    }
}

/// The ticks of a run in which discovery finds `address` every time and
/// every send succeeds.
pub open spec fn steady_run(address: Seq<char>, n: nat) -> Seq<(Option<Seq<char>>, bool)> {
    Seq::new(n, |i: int| (Some(address), true))
}

/// A tick that finds an address already served sends nothing and leaves the
/// served addresses as they are.
pub proof fn served_address_is_left_alone(seen: Set<Seq<char>>, address: Seq<char>, sent: bool)
    requires
        seen.contains(address),
    ensures
        !should_inject(seen, Some(address)),
        tick_sends(seen, Some(address)) == 0,
        tick_seen(seen, Some(address), sent) == seen,
{
}

/// Once an address is served, no run that keeps finding it sends anything.
pub proof fn steady_run_after_service_is_silent(seen: Set<Seq<char>>, address: Seq<char>, n: nat)
    requires
        seen.contains(address),
    ensures
        sends_over(seen, steady_run(address, n)) == 0,
        seen_over(seen, steady_run(address, n)) == seen,
    decreases n,
{
    if n > 0 {
        let run = steady_run(address, n);
        assert(run[0] == (Some(address), true));
        assert(run.drop_first() =~= steady_run(address, (n - 1) as nat));
        steady_run_after_service_is_silent(seen, address, (n - 1) as nat);
    }
}

/// Where discovery finds the same new address on each of `n` ticks, with
/// `n` at least one, and every send succeeds, exactly one frame is sent, and
/// the address is served afterwards.
pub proof fn steady_run_sends_once(seen: Set<Seq<char>>, address: Seq<char>, n: nat)
    requires
        !seen.contains(address),
        n >= 1,
    ensures
        sends_over(seen, steady_run(address, n)) == 1,
        seen_over(seen, steady_run(address, n)) == seen.insert(address),
{
    let run = steady_run(address, n);
    assert(run[0] == (Some(address), true));
    assert(run.drop_first() =~= steady_run(address, (n - 1) as nat));
    steady_run_after_service_is_silent(seen.insert(address), address, (n - 1) as nat);
}

/// After an address has been served, a tick that finds it again sends
/// nothing; after a reload, which leaves no address served, the same tick
/// sends exactly one frame.
pub proof fn reload_makes_served_address_new(seen: Set<Seq<char>>, address: Seq<char>)
    requires
        should_inject(seen, Some(address)),
    ensures
        tick_sends(tick_seen(seen, Some(address), true), Some(address)) == 0,
        tick_sends(Set::<Seq<char>>::empty(), Some(address)) == 1,
{
}

/// A send that fails leaves the address unserved, so that the next tick that
/// finds it sends again.
pub proof fn failed_send_is_retried(seen: Set<Seq<char>>, address: Seq<char>)
    requires
        !seen.contains(address),
    ensures
        tick_sends(seen, Some(address)) == 1,
        tick_seen(seen, Some(address), false) == seen,
        !tick_seen(seen, Some(address), false).contains(address),
        tick_sends(tick_seen(seen, Some(address), false), Some(address)) == 1,
{
}

/// How many frames a run of ticks gets through to `address`.
pub open spec fn deliveries_to(
    seen: Set<Seq<char>>,
    ticks: Seq<(Option<Seq<char>>, bool)>,
    address: Seq<char>,
) -> nat
    decreases ticks.len(),
{
    if ticks.len() == 0 {
        0
    } else {
        let here: nat = if should_inject(seen, ticks[0].0) && ticks[0].1 && ticks[0].0 == Some(
            address,
        ) {
            1
        } else {
            0
        };
        here + deliveries_to(tick_seen(seen, ticks[0].0, ticks[0].1), ticks.drop_first(), address)
    }
}

/// Whatever discovery finds and however the sends fare, no address gets the
/// frame more than once between two reloads, and an address already served
/// gets none.
pub proof fn at_most_one_delivery(
    seen: Set<Seq<char>>,
    ticks: Seq<(Option<Seq<char>>, bool)>,
    address: Seq<char>,
)
    ensures
        deliveries_to(seen, ticks, address) <= 1,
        seen.contains(address) ==> deliveries_to(seen, ticks, address) == 0,
    decreases ticks.len(),
{
    if ticks.len() > 0 {
        at_most_one_delivery(tick_seen(seen, ticks[0].0, ticks[0].1), ticks.drop_first(), address);
    }
}

/// Between two reloads the served addresses only grow.
pub proof fn served_addresses_only_grow(seen: Set<Seq<char>>, ticks: Seq<(Option<Seq<char>>, bool)>)
    ensures
        seen.subset_of(seen_over(seen, ticks)),
    decreases ticks.len(),
{
    if ticks.len() > 0 {
        served_addresses_only_grow(tick_seen(seen, ticks[0].0, ticks[0].1), ticks.drop_first());
    }
}

/// A tick is what `step` makes of a discovery reply and then of the report
/// on the delivery that it asked for: the served addresses after the two
/// events are those after the tick.
pub proof fn tick_is_reply_then_report(
    seen: Set<Seq<char>>,
    reply: DiscoveryReply,
    address: String,
    sent: bool,
)
    requires
        located(reply) == Some(address@),
        should_inject(seen, located(reply)),
    ensures
        tick_seen(seen, located(reply), sent) == seen_after(
            seen_after(seen, MonitorEvent::Replied(reply)),
            if sent {
                MonitorEvent::Delivered { address }
            } else {
                MonitorEvent::DeliveryFailed { address }
            },
        ),
{
}

} // verus!
