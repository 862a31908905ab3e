//! The proxy's control: which host is the primary, and whether clients are
//! admitted.
//!
//! The proxy is either selecting a primary or active. While it selects, it
//! has no listener and admits no client. It goes through the hosts in their
//! configured order and takes the first that accepts a connection and is
//! accepted by the health check; where none is, it waits and tries again,
//! waiting twice as long each time up to the configured cap. While it is
//! active, it accepts clients and connects each to the primary; the first
//! connection to the primary that fails sends it back to selecting.
//!
//! `Proxy` decides and does nothing else: `step` takes what happened and
//! returns the one thing to do next. Whoever drives it does that thing and
//! comes back with its result.

use crate::args::Args;
use crate::backoff::doubled;
use crate::backoff::next_backoff;
use crate::backoff::INITIAL_BACKOFF;
use crate::triggers::Exit;
use vstd::prelude::*;

verus! {

/// The two states of the proxy.
#[derive(Clone, Copy, Debug, PartialEq, Eq, Structural)]
pub enum State {
    /// No primary is in use: there is no listener, and no client is admitted.
    Selecting,
    /// A primary is in use: the listener is bound, and clients are admitted.
    Active,
}

/// What a pass found of one host.
#[derive(Clone, Copy, Debug, PartialEq, Eq, Structural)]
pub enum Verdict {
    /// It accepted no connection.
    Unreachable,
    /// It accepted a connection, and the health check turned it down.
    Unhealthy,
    /// It accepted a connection, and no health check turned it down.
    Eligible,
}

/// What the proxy is waiting for.
#[derive(Clone, Copy, Debug, PartialEq, Eq, Structural)]
pub enum Phase {
    /// To be started.
    Idle,
    /// Whether host `index` accepts a connection.
    Probing { index: usize },
    /// What the health check says of host `index`.
    Checking { index: usize },
    /// The end of the failover triggers, run on host `index`.
    Triggering { index: usize },
    /// The end of the delay after a pass that found no primary.
    Sleeping,
    /// The listener.
    Binding,
    /// A client.
    Accepting,
    /// The connection to the primary for the client just accepted.
    Connecting,
    /// The hand-over of a connected client to its own session.
    Bridging,
    /// The end of the client that could not be connected, and of the
    /// listener.
    Rejecting,
}

/// What has happened, as the proxy is told.
#[derive(Clone, Copy, Debug, PartialEq, Eq, Structural)]
pub enum Event {
    /// The proxy is to start.
    Started,
    /// The host probed accepted a connection, which was closed again, or
    /// did not.
    ProbeFinished { reachable: bool },
    /// The health check ended.
    HealthChecked { exit: Exit },
    /// Every failover trigger has run, one after the other; `failures` of
    /// them could not be started or did not exit with status zero.
    TriggersFinished { failures: usize },
    /// The delay is over.
    BackoffElapsed,
    /// The listener is bound.
    ListenerBound,
    /// A client has connected.
    ClientAccepted,
    /// The connection to the primary was made, or was not.
    UpstreamConnected { connected: bool },
    /// The client and its connection to the primary have a session of their
    /// own.
    SessionStarted,
    /// The client and the listener are shut down.
    ClientRejected,
}

/// What the proxy wants done.
#[derive(Clone, Copy, Debug, PartialEq, Eq, Structural)]
pub enum Action {
    /// Try to connect to host `index`, and close the connection at once.
    /// Answered by `ProbeFinished`.
    Probe { index: usize },
    /// Run the health check on host `index`. Answered by `HealthChecked`.
    CheckHealth { index: usize },
    /// Run the failover triggers on host `index`, in their order, each to
    /// its end. Answered by `TriggersFinished`.
    RunTriggers { index: usize },
    /// Wait for `seconds`. Answered by `BackoffElapsed`.
    Sleep { seconds: u64 },
    /// Bind the listener. Answered by `ListenerBound`.
    Bind,
    /// Accept a client. Answered by `ClientAccepted`.
    Accept,
    /// Connect to the primary for the client just accepted. Answered by
    /// `UpstreamConnected`.
    ConnectPrimary,
    /// Give the client and its connection to the primary a session of their
    /// own, which goes on by itself. Answered by `SessionStarted`.
    Bridge,
    /// Shut down the client just accepted and the listener. Answered by
    /// `ClientRejected`.
    Reject,
}

impl Action {
    /// Whether the action lets a client in, or serves one that is in.
    pub open spec fn admits(self) -> bool {
        self is Accept || self is ConnectPrimary || self is Bridge
    }
}

/// Whether none of the hosts that `observed` speaks of was found eligible.
pub open spec fn none_eligible(observed: Seq<Verdict>) -> bool {
    forall|j: int| 0 <= j < observed.len() ==> !(#[trigger] observed[j] is Eligible)
}

/// Whether host `k` is the first that `observed` found eligible.
pub open spec fn is_first_eligible(observed: Seq<Verdict>, k: int) -> bool {
    &&& 0 <= k < observed.len()
    &&& observed[k] is Eligible
    &&& forall|j: int| 0 <= j < k ==> !(#[trigger] observed[j] is Eligible)
}

/// The proxy, as contracts see it.
pub struct ProxyState {
    /// The candidate hosts in their configured order.
    pub hosts: Seq<Seq<char>>,
    /// Whether a health check is configured.
    pub has_check: bool,
    /// Whether failover triggers are configured.
    pub has_triggers: bool,
    /// The longest delay between two passes, in seconds.
    pub max_backoff: int,
    /// The host selected last, by its place among the hosts.
    pub selected: Option<int>,
    /// The connection string of the host selected last; empty before the
    /// first selection.
    pub primary_host: Seq<char>,
    /// What the proxy is waiting for.
    pub phase: Phase,
    /// The delay that follows the next pass without a primary, in seconds.
    pub backoff: int,
    /// Whether the listener is bound.
    pub listening: bool,
    /// What the current pass has found of the hosts, in their order. After
    /// a pass that found a primary, what that pass found.
    pub observed: Seq<Verdict>,
}

impl ProxyState {
    /// The state of a proxy that was just made from `args`.
    pub open spec fn initial(args: Args) -> ProxyState {
        ProxyState {
            hosts: args.host_names(),
            has_check: args.check_host is Some,
            has_triggers: args.on_failover is Some,
            max_backoff: args.max_backoff as int,
            selected: None,
            primary_host: Seq::empty(),
            phase: Phase::Idle,
            backoff: INITIAL_BACKOFF as int,
            listening: false,
            observed: Seq::empty(),
        }
    }

    /// The proxy is active from the moment its listener is bound until a
    /// connection to the primary fails.
    pub open spec fn state(self) -> State {
        match self.phase {
            Phase::Accepting | Phase::Connecting | Phase::Bridging => State::Active,
            _ => State::Selecting,
        }
    }

    /// What holds of a proxy at all times.
    ///
    /// The listener is bound exactly while the proxy is active. The selected
    /// host is one of the hosts, and the primary is its connection string.
    /// During a pass, every host before the one in hand was found
    /// ineligible; once a pass has found a primary, that host is the first
    /// that the pass found eligible. With a cap of at least one second, the
    /// delay is between one second and the cap.
    pub open spec fn wf(self) -> bool {
        &&& self.listening == (self.state() is Active)
        &&& self.hosts.len() <= usize::MAX
        &&& 0 <= self.max_backoff <= u64::MAX
        &&& 0 <= self.backoff <= u64::MAX
        &&& self.max_backoff >= 1 ==> 1 <= self.backoff <= self.max_backoff
        &&& match self.selected {
            Some(k) => 0 <= k < self.hosts.len() && self.primary_host == self.hosts[k],
            None => self.primary_host == Seq::<char>::empty(),
        }
        &&& match self.phase {
            Phase::Idle => self.selected is None && self.backoff == INITIAL_BACKOFF,
            Phase::Probing { index } => {
                &&& index < self.hosts.len()
                &&& self.observed.len() == index
                &&& none_eligible(self.observed)
            },
            Phase::Checking { index } => {
                &&& self.has_check
                &&& index < self.hosts.len()
                &&& self.observed.len() == index
                &&& none_eligible(self.observed)
            },
            Phase::Triggering { index } => {
                &&& self.has_triggers
                &&& index < self.hosts.len()
                &&& self.observed.len() == index + 1
                &&& is_first_eligible(self.observed, index as int)
            },
            Phase::Sleeping => {
                &&& self.observed.len() == self.hosts.len()
                &&& none_eligible(self.observed)
            },
            Phase::Binding | Phase::Accepting | Phase::Connecting | Phase::Bridging => {
                &&& self.selected matches Some(k)
                &&& self.observed.len() == k + 1
                &&& is_first_eligible(self.observed, k)
            },
            Phase::Rejecting => self.backoff == INITIAL_BACKOFF,
        }
    }

    /// The pass goes on with host `index`; past the last host it has found
    /// no primary, and the proxy waits for the current delay.
    pub open spec fn proceed(self, index: int) -> (ProxyState, Action) {
        if index < self.hosts.len() {
            (
                ProxyState { phase: Phase::Probing { index: index as usize }, ..self },
                Action::Probe { index: index as usize },
            )
        } else {
            (
                ProxyState { phase: Phase::Sleeping, ..self },
                Action::Sleep { seconds: self.backoff as u64 },
            )
        }
    }

    /// A pass begins: nothing has been found of any host.
    pub open spec fn new_pass(self) -> (ProxyState, Action) {
        ProxyState { observed: Seq::empty(), ..self }.proceed(0)
    }

    /// Host `index` is found ineligible, and the pass goes on behind it.
    pub open spec fn discard(self, index: usize, why: Verdict) -> (ProxyState, Action) {
        ProxyState { observed: self.observed.push(why), ..self }.proceed(index + 1)
    }

    /// Host `index` becomes the primary, and the listener is to be bound.
    pub open spec fn promote(self, index: usize) -> (ProxyState, Action) {
        (
            ProxyState {
                selected: Some(index as int),
                primary_host: self.hosts[index as int],
                phase: Phase::Binding,
                ..self
            },
            Action::Bind,
        )
    }

    /// Host `index` is found eligible, which ends the pass. The failover
    /// triggers run on it first where there are any; it becomes the primary
    /// at once where there are none.
    pub open spec fn elect(self, index: usize) -> (ProxyState, Action) {
        let seen = ProxyState { observed: self.observed.push(Verdict::Eligible), ..self };
        if self.has_triggers {
            (
                ProxyState { phase: Phase::Triggering { index }, ..seen },
                Action::RunTriggers { index },
            )
        } else {
            seen.promote(index)
        }
    }

    /// The proxy leaves the active state: it has no listener any more, and
    /// the delay is back at its initial value.
    pub open spec fn fail_over(self) -> (ProxyState, Action) {
        (
            ProxyState {
                phase: Phase::Rejecting,
                listening: false,
                backoff: INITIAL_BACKOFF as int,
                ..self
            },
            Action::Reject,
        )
    }

    /// What the proxy becomes and wants done when it is told `event`;
    /// `None` where `event` is not what it is waiting for.
    pub open spec fn step(self, event: Event) -> Option<(ProxyState, Action)> {
        match (self.phase, event) {
            (Phase::Idle, Event::Started) => Some(self.new_pass()),
            (Phase::Probing { index }, Event::ProbeFinished { reachable }) => Some(
                if !reachable {
                    self.discard(index, Verdict::Unreachable)
                } else if self.has_check {
                    (
                        ProxyState { phase: Phase::Checking { index }, ..self },
                        Action::CheckHealth { index },
                    )
                } else {
                    self.elect(index)
                },
            ),
            (Phase::Checking { index }, Event::HealthChecked { exit }) => Some(
                if exit.spec_success() {
                    self.elect(index)
                } else {
                    self.discard(index, Verdict::Unhealthy)
                },
            ),
            (Phase::Triggering { index }, Event::TriggersFinished { failures }) => Some(
                self.promote(index),
            ),
            (Phase::Sleeping, Event::BackoffElapsed) => Some(
                ProxyState {
                    backoff: doubled(self.backoff, self.max_backoff),
                    ..self
                }.new_pass(),
            ),
            (Phase::Binding, Event::ListenerBound) => Some(
                (ProxyState { phase: Phase::Accepting, listening: true, ..self }, Action::Accept),
            ),
            (Phase::Accepting, Event::ClientAccepted) => Some(
                (ProxyState { phase: Phase::Connecting, ..self }, Action::ConnectPrimary),
            ),
            (Phase::Connecting, Event::UpstreamConnected { connected }) => Some(
                if connected {
                    (ProxyState { phase: Phase::Bridging, ..self }, Action::Bridge)
                } else {
                    self.fail_over()
                },
            ),
            (Phase::Bridging, Event::SessionStarted) => Some(
                (ProxyState { phase: Phase::Accepting, ..self }, Action::Accept),
            ),
            (Phase::Rejecting, Event::ClientRejected) => Some(self.new_pass()),
            _ => None,
        }
    }
}

/// A step keeps what holds of a proxy at all times.
pub proof fn lemma_step_keeps_wf(s: ProxyState, event: Event)
    requires
        s.wf(),
    ensures
        s.step(event) matches Some((next, action)) ==> next.wf(),
{
}

impl ProxyState {
    /// The proxy after it was told `events`, one after the other. An event
    /// that it was not waiting for changes nothing.
    pub open spec fn after(self, events: Seq<Event>) -> ProxyState
        decreases events.len(),
    {
        if events.len() == 0 {
            self
        } else {
            let before = self.after(events.drop_last());
            match before.step(events.last()) {
                Some((next, action)) => next,
                None => before,
            }
        }
    }
}

/// Whatever a proxy is told from the moment it was made, what holds of a
/// proxy at all times holds of it: the laws below speak of every state that
/// a proxy can get into. Its configuration stays what it was, and the delay
/// of a proxy with a valid configuration is never under one second nor over
/// the cap.
pub proof fn lemma_every_run_keeps_wf(args: Args, events: Seq<Event>)
    ensures
        ProxyState::initial(args).wf(),
        ProxyState::initial(args).after(events).wf(),
        ProxyState::initial(args).after(events).hosts == args.host_names(),
        ProxyState::initial(args).after(events).has_check == args.check_host is Some,
        ProxyState::initial(args).after(events).has_triggers == args.on_failover is Some,
        ProxyState::initial(args).after(events).max_backoff == args.max_backoff,
        args.spec_is_valid() ==> 1 <= ProxyState::initial(args).after(events).backoff
            <= args.max_backoff,
    decreases events.len(),
{
    let start = ProxyState::initial(args);
    assert(start.wf()) by {
        vstd::std_specs::vec::axiom_spec_len(&args.hosts);
    }
    if events.len() > 0 {
        lemma_every_run_keeps_wf(args, events.drop_last());
        lemma_step_keeps_wf(start.after(events.drop_last()), events.last());
    }
}

/// While the proxy is selecting, no listener is bound, and nothing that it
/// asks for lets a client in: a client is accepted, connected or bridged
/// only while the listener is bound.
pub proof fn lemma_selecting_admits_no_client(s: ProxyState, event: Event)
    requires
        s.wf(),
    ensures
        s.state() is Selecting ==> !s.listening,
        s.step(event) matches Some((next, action)) ==> {
            &&& next.state() is Selecting ==> !next.listening && !action.admits()
            &&& action.admits() ==> next.listening && next.state() is Active
        },
{
}

/// Once a pass has found a primary, the primary is the first host, in the
/// configured order, that the pass found reachable and that the health
/// check, if there is one, accepted.
pub proof fn lemma_primary_is_first_eligible(s: ProxyState)
    requires
        s.wf(),
        s.state() is Active || s.phase is Binding,
    ensures
        s.selected matches Some(k) && {
            &&& is_first_eligible(s.observed, k)
            &&& s.primary_host == s.hosts[k]
        },
{
}

/// A host is found eligible exactly when it accepts a connection and the
/// health check, if there is one, exits with status zero; the pass then
/// ends with this host, and otherwise goes on with the next.
pub proof fn lemma_pass_takes_first_eligible(s: ProxyState, event: Event)
    requires
        s.wf(),
        s.step(event) is Some,
    ensures
        ({
            let (next, action) = s.step(event).unwrap();
            let reachable = event matches Event::ProbeFinished { reachable } && reachable;
            let healthy = event matches Event::HealthChecked { exit } && exit.spec_success();
            &&& s.phase matches Phase::Probing { index } ==> {
                &&& !reachable ==> next.observed == s.observed.push(Verdict::Unreachable)
                    && !(next.phase is Binding || next.phase is Triggering)
                &&& reachable && s.has_check ==> next.phase == (Phase::Checking { index })
                    && next.observed == s.observed
                &&& reachable && !s.has_check ==> is_first_eligible(next.observed, index as int)
                    && (next.phase is Binding || next.phase is Triggering)
            }
            &&& s.phase matches Phase::Checking { index } ==> {
                &&& !healthy ==> next.observed == s.observed.push(Verdict::Unhealthy)
                    && !(next.phase is Binding || next.phase is Triggering)
                &&& healthy ==> is_first_eligible(next.observed, index as int)
                    && (next.phase is Binding || next.phase is Triggering)
            }
            &&& next.phase is Binding ==> next.selected == Some((next.observed.len() - 1) as int)
        }),
{
}

/// With a cap of at least one second, which every valid configuration has,
/// the delay is never under one second
/// nor over the cap; it does not get shorter from one step to the next
/// while the proxy goes on selecting; it is back at one second when the
/// proxy leaves the active state; and whenever the proxy waits, it waits for
/// the delay.
pub proof fn lemma_backoff_bounds(s: ProxyState, event: Event)
    requires
        s.wf(),
        s.max_backoff >= 1,
    ensures
        1 <= s.backoff <= s.max_backoff,
        s.step(event) matches Some((next, action)) ==> {
            &&& 1 <= next.backoff <= next.max_backoff
            &&& s.state() is Selecting && next.state() is Selecting ==> s.backoff <= next.backoff
            &&& s.state() is Active && next.state() is Selecting ==> next.backoff
                == INITIAL_BACKOFF
            &&& action matches Action::Sleep { seconds } ==> seconds == next.backoff
        },
{
}

/// Failover triggers change nothing but that they run. Where a proxy with
/// triggers asks for them, the same proxy without triggers asks for the
/// listener at once, and the proxy with triggers does the same as soon as
/// they are over, however many of them failed; on every other step the two
/// do the same.
pub proof fn lemma_triggers_change_nothing(s: ProxyState, event: Event, failures: usize)
    requires
        s.wf(),
        s.has_triggers,
        s.step(event) is Some,
    ensures
        ({
            let bare = ProxyState { has_triggers: false, ..s };
            let (next, action) = s.step(event).unwrap();
            if action is RunTriggers {
                bare.step(event) matches Some((direct, wanted)) && {
                    &&& wanted == Action::Bind
                    &&& next.step(Event::TriggersFinished { failures }) == Some(
                        (ProxyState { has_triggers: true, ..direct }, wanted),
                    )
                }
            } else {
                bare.step(event) == Some((ProxyState { has_triggers: false, ..next }, action))
            }
        }),
{
}

/// What changes while the proxy runs.
#[derive(Clone, Copy)]
struct Core {
    selected: Option<usize>,
    phase: Phase,
    backoff: u64,
    listening: bool,
    observed: Ghost<Seq<Verdict>>,
}

/// The failover proxy's control.
pub struct Proxy {
    args: Args,
    core: Core,
}

impl View for Proxy {
    type V = ProxyState;

    closed spec fn view(&self) -> ProxyState {
        Proxy::model(self.args, self.core)
    }
}

impl Proxy {
    spec fn model(args: Args, core: Core) -> ProxyState {
        ProxyState {
            hosts: args.host_names(),
            has_check: args.check_host is Some,
            has_triggers: args.on_failover is Some,
            max_backoff: args.max_backoff as int,
            selected: match core.selected {
                Some(k) => Some(k as int),
                None => None,
            },
            primary_host: match core.selected {
                Some(k) => args.host_names()[k as int],
                None => Seq::empty(),
            },
            phase: core.phase,
            backoff: core.backoff as int,
            listening: core.listening,
            observed: core.observed@,
        }
    }

    #[verifier::type_invariant]
    spec fn inv(self) -> bool {
        self@.wf()
    }

    /// The configuration that the proxy was made from.
    pub closed spec fn configuration(&self) -> Args {
        self.args
    }

    /// Creates a new failover proxy. It is selecting, has no primary yet,
    /// and waits to be started.
    pub fn create(args: Args) -> (proxy: Proxy)
        ensures
            proxy@ == ProxyState::initial(args),
            proxy@.wf(),
            proxy.configuration() == args,
    {
        proof {
            vstd::std_specs::vec::axiom_spec_len(&args.hosts);
        }
        Proxy {
            args,
            core: Core {
                selected: None,
                phase: Phase::Idle,
                backoff: INITIAL_BACKOFF,
                listening: false,
                observed: Ghost(Seq::empty()),
            },
        }
    }

    /// The configuration that the proxy was made from.
    pub fn args(&self) -> (args: &Args)
        ensures
            *args == self.configuration(),
            args.host_names() == self@.hosts,
            args.check_host is Some == self@.has_check,
            args.on_failover is Some == self@.has_triggers,
            args.max_backoff == self@.max_backoff,
    {
        &self.args
    }

    /// Whether the proxy is selecting or active.
    pub fn state(&self) -> (state: State)
        ensures
            state == self@.state(),
    {
        match self.core.phase {
            Phase::Accepting | Phase::Connecting | Phase::Bridging => State::Active,
            _ => State::Selecting,
        }
    }

    /// What the proxy is waiting for.
    pub fn phase(&self) -> (phase: Phase)
        ensures
            phase == self@.phase,
    {
        self.core.phase
    }

    /// Whether the listener is bound.
    pub fn is_listening(&self) -> (listening: bool)
        ensures
            listening == self@.listening,
            listening == (self@.state() is Active),
    {
        proof {
            use_type_invariant(self);
        }
        self.core.listening
    }

    /// The delay that follows the next pass without a primary, in seconds.
    pub fn backoff(&self) -> (seconds: u64)
        ensures
            seconds == self@.backoff,
    {
        self.core.backoff
    }

    /// The place, among the hosts, of the host selected last.
    pub fn selected(&self) -> (index: Option<usize>)
        ensures
            match index {
                Some(k) => self@.selected == Some(k as int) && k < self@.hosts.len(),
                None => self@.selected is None,
            },
    {
        proof {
            use_type_invariant(self);
        }
        self.core.selected
    }

    /// The connection string of the host selected last; empty before the
    /// first selection.
    pub fn primary_host(&self) -> (host: String)
        ensures
            host@ == self@.primary_host,
    {
        proof {
            use_type_invariant(self);
        }
        match self.core.selected {
            Some(k) => self.args.hosts[k].clone(),
            None => String::new(),
        }
    }

    /// Goes on with host `index`, or ends the pass behind the last host.
    fn proceed(&self, core: Core, index: usize) -> (out: (Core, Action))
        requires
            index <= self.args.hosts@.len(),
        ensures
            (Proxy::model(self.args, out.0), out.1) == Proxy::model(self.args, core).proceed(
                index as int,
            ),
    {
        if index < self.args.hosts.len() {
            (Core { phase: Phase::Probing { index }, ..core }, Action::Probe { index })
        } else {
            (Core { phase: Phase::Sleeping, ..core }, Action::Sleep { seconds: core.backoff })
        }
    }

    /// Begins a pass.
    fn new_pass(&self, core: Core) -> (out: (Core, Action))
        ensures
            (Proxy::model(self.args, out.0), out.1) == Proxy::model(self.args, core).new_pass(),
    {
        self.proceed(Core { observed: Ghost(Seq::empty()), ..core }, 0)
    }

    /// Notes that host `index` is ineligible and goes on behind it.
    fn discard(&self, core: Core, index: usize, Ghost(why): Ghost<Verdict>) -> (out: (
        Core,
        Action,
    ))
        requires
            index < self.args.hosts@.len(),
        ensures
            (Proxy::model(self.args, out.0), out.1) == Proxy::model(self.args, core).discard(
                index,
                why,
            ),
    {
        proof {
            vstd::std_specs::vec::axiom_spec_len(&self.args.hosts);
        }
        self.proceed(Core { observed: Ghost(core.observed@.push(why)), ..core }, index + 1)
    }

    /// Makes host `index` the primary.
    fn promote(&self, core: Core, index: usize) -> (out: (Core, Action))
        ensures
            (Proxy::model(self.args, out.0), out.1) == Proxy::model(self.args, core).promote(
                index,
            ),
    {
        (Core { selected: Some(index), phase: Phase::Binding, ..core }, Action::Bind)
    }

    /// Notes that host `index` is eligible, which ends the pass.
    fn elect(&self, core: Core, index: usize) -> (out: (Core, Action))
        ensures
            (Proxy::model(self.args, out.0), out.1) == Proxy::model(self.args, core).elect(index),
    {
        let seen = Core { observed: Ghost(core.observed@.push(Verdict::Eligible)), ..core };
        if self.args.on_failover.is_some() {
            (Core { phase: Phase::Triggering { index }, ..seen }, Action::RunTriggers { index })
        } else {
            self.promote(seen, index)
        }
    }

    /// Tells the proxy what has happened and returns what it wants done
    /// next. Returns `None`, and changes nothing, where `event` is not the
    /// answer to what the proxy asked for last.
    pub fn step(&mut self, event: Event) -> (action: Option<Action>)
        ensures
            final(self)@.wf(),
            final(self).configuration() == old(self).configuration(),
            match old(self)@.step(event) {
                Some((next, wanted)) => final(self)@ == next && action == Some(wanted),
                None => final(self)@ == old(self)@ && action is None,
            },
    {
        proof {
            use_type_invariant(&*self);
            lemma_step_keeps_wf(self@, event);
        }
        let core = self.core;
        let (next, wanted) = match (core.phase, event) {
            (Phase::Idle, Event::Started) => self.new_pass(core),
            (Phase::Probing { index }, Event::ProbeFinished { reachable }) => {
                if !reachable {
                    self.discard(core, index, Ghost(Verdict::Unreachable))
                } else if self.args.check_host.is_some() {
                    (Core { phase: Phase::Checking { index }, ..core }, Action::CheckHealth { index })
                } else {
                    self.elect(core, index)
                }
            },
            (Phase::Checking { index }, Event::HealthChecked { exit }) => {
                if exit.success() {
                    self.elect(core, index)
                } else {
                    self.discard(core, index, Ghost(Verdict::Unhealthy))
                }
            },
            (Phase::Triggering { index }, Event::TriggersFinished { failures: _ }) => {
                self.promote(core, index)
            },
            (Phase::Sleeping, Event::BackoffElapsed) => {
                let longer = next_backoff(core.backoff, self.args.max_backoff);
                self.new_pass(Core { backoff: longer, ..core })
            },
            (Phase::Binding, Event::ListenerBound) => {
                (Core { phase: Phase::Accepting, listening: true, ..core }, Action::Accept)
            },
            (Phase::Accepting, Event::ClientAccepted) => {
                (Core { phase: Phase::Connecting, ..core }, Action::ConnectPrimary)
            },
            (Phase::Connecting, Event::UpstreamConnected { connected }) => {
                if connected {
                    (Core { phase: Phase::Bridging, ..core }, Action::Bridge)
                } else {
                    (
                        Core {
                            phase: Phase::Rejecting,
                            listening: false,
                            backoff: INITIAL_BACKOFF,
                            ..core
                        },
                        Action::Reject,
                    )
                }
            },
            (Phase::Bridging, Event::SessionStarted) => {
                (Core { phase: Phase::Accepting, ..core }, Action::Accept)
            },
            (Phase::Rejecting, Event::ClientRejected) => self.new_pass(core),
            _ => {
                return None;
            },
        };
        self.core = next;
        Some(wanted)
    }
}

} // verus!
