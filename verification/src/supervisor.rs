//! The presence supervisor: one decision per tick of the control loop.
//!
//! The loop around the supervisor waits [`TICK_SECONDS`], samples the link
//! and the clock, hands the sample to [`Supervisor::tick`], and carries out
//! the commands that come back, in order. A command that can fail is always
//! the last of its list; the loop reports how it went through the method
//! named in [`Command`], which answers with the commands that follow. The
//! session's notifications come in through [`Supervisor::session_event`]
//! from wherever the session delivers them; the loop keeps the supervisor
//! behind a lock for that.
//!
//! What the supervisor does is written down twice: as functions on plain
//! state ([`tick_model`] and its companions), which the laws are proved of,
//! and as the methods of [`Supervisor`], which are proved to do the same.

use crate::config::Config;
use crate::config::ConfigError;
use crate::indicator::displayed;
use crate::indicator::fatal_color;
use crate::indicator::indicator_color;
use crate::indicator::Color;
use crate::indicator::Indication;
use crate::mqtt::connectivity_in;
use crate::mqtt::event_connectivity;
use crate::mqtt::presence_topic;
use crate::mqtt::Mqtt;
use crate::mqtt::MqttConnectionStatus;
use crate::signal::judge;
use crate::signal::judge_signal;
use crate::signal::SignalVerdict;
use crate::utils::elapsed_between;
use crate::utils::elapsed_seconds;
use crate::wifi::ConnectOutcome;
use vstd::prelude::*;

verus! {

/// Seconds between two ticks of the control loop.
pub const TICK_SECONDS: u64 = 1;

/// Seconds the fatal colour is held before the loop ends.
pub const POST_FATAL_PAUSE_SECONDS: u64 = 5;

/// What the loop sampled at the start of a tick.
#[derive(Clone, Copy, Debug, PartialEq, Eq, Structural)]
pub struct Observation {
    /// The clock, in seconds.
    pub now: u32,
    /// Whether the link is up.
    pub link_up: bool,
    /// The signal strength in dBm, if it could be read.
    pub rssi: Option<i32>,
}

/// How an attempt to announce presence went.
#[derive(Clone, Copy, Debug, PartialEq, Eq, Structural)]
pub enum PublishOutcome {
    /// The announcement is on its way.
    Published,
    /// The client had nothing to send it over and let it go: no harm done.
    Skipped,
    /// The client failed.
    Failed,
}

/// One thing for the loop to do.
#[derive(Clone, Copy, Debug, PartialEq, Eq, Structural)]
pub enum Command {
    /// Ask the radio for this transmit power, in dBm.
    SetTxPower(i8),
    /// Show this colour.
    Show(Color),
    /// Try to bring the link up; report through `link_attempted`.
    ConnectLink,
    /// Create the session's client; report through `session_created`.
    CreateSession,
    /// Announce presence; report through `published`.
    Publish,
    /// Take the link down; report through `link_disconnected`.
    DisconnectLink,
    /// Do nothing for this many seconds.
    Sleep(u64),
    /// End the loop; nothing will be asked of it again.
    Halt,
}

/// Whether a command acts on the link or on the session.
pub open spec fn acts_on_link_or_session(command: Command) -> bool {
    match command {
        Command::SetTxPower(_) => true,
        Command::ConnectLink => true,
        Command::CreateSession => true,
        Command::Publish => true,
        Command::DisconnectLink => true,
        _ => false,
    }
}

/// Where the node stands, as a tick finds it. The phase is worked out afresh
/// on every tick from the sample, the latch and the timers; it is stored
/// nowhere.
#[derive(Clone, Copy, Debug, PartialEq, Eq, Structural)]
pub enum Phase {
    /// The node has stopped for good.
    Halted,
    /// The link is down.
    LinkDown,
    /// The link is up and the session's client does not exist yet.
    SessionPending,
    /// The session has not connected yet.
    SessionConnecting,
    /// The session is connected and the signal gives no cause for concern.
    SessionEstablished,
    /// The session was connected and no longer is.
    SessionLost,
    /// The signal is weak and the weak spell is running.
    WeakSignalPending,
    /// The weak spell has run its time: the node lets go and backs off.
    Sleeping,
}

/// What the supervisor carries from one tick to the next.
#[derive(Clone, Copy, Debug, PartialEq, Eq, Structural)]
pub struct SupervisorState {
    /// Whether the session's client exists.
    pub session_present: bool,
    /// The session's connectivity latch.
    pub latch: MqttConnectionStatus,
    /// When the node was powered on.
    pub power_on: u32,
    /// When the link last came up.
    pub link_since: Option<u32>,
    /// When the current spell of weak signal was first judged.
    pub weak_since: Option<u32>,
    /// The transmit power last asked for, in dBm.
    pub tx_power: i8,
    /// Whether the session has ever stayed connected from one tick to the
    /// next.
    pub ever_stable: bool,
    /// Whether the node has stopped for good.
    pub halted: bool,
}

/// The state at power-on.
pub open spec fn initial_state(config: Config, now: u32) -> SupervisorState {
    SupervisorState {
        session_present: false,
        latch: MqttConnectionStatus { is_connected: false, was_connected: false },
        power_on: now,
        link_since: None,
        weak_since: None,
        tx_power: config.wifi_start_tx_power,
        ever_stable: false,
        halted: false,
    }
}

/// Whether a state fits a configuration: a managed transmit power lies
/// between the starting power and the maximum.
pub open spec fn state_fits(config: Config, state: SupervisorState) -> bool {
    config.tx_power_managed() ==> config.wifi_start_tx_power <= state.tx_power
        <= config.wifi_max_tx_power
}

/// The command that shows the colour of `indication` under a signal of `rssi`.
pub open spec fn show(config: Config, indication: Indication, rssi: Option<i32>) -> Command {
    Command::Show(displayed(indication, config.led_rssi_floor, config.led_rssi_ceiling, rssi))
}

/// Whether the transmit power is to be raised at `now`: it is managed and
/// below its maximum, the session has never stayed connected from one tick
/// to the next, and the time allowed for that since power-on is over.
pub open spec fn should_escalate(config: Config, state: SupervisorState, now: u32) -> bool {
    &&& config.tx_power_managed()
    &&& !state.ever_stable
    &&& state.tx_power < config.wifi_max_tx_power
    &&& elapsed_between(state.power_on, now) >= config.mqtt_disconnected_timeout
}

/// The state after an edge read of the latch.
pub open spec fn latch_read(state: SupervisorState) -> SupervisorState {
    SupervisorState {
        latch: MqttConnectionStatus {
            is_connected: state.latch.is_connected,
            was_connected: state.latch.is_connected,
        },
        ..state
    }
}

/// Stopping for good: the fatal colour, a pause, the end.
pub open spec fn halt(state: SupervisorState) -> (SupervisorState, Seq<Command>) {
    (
        SupervisorState { halted: true, ..state },
        seq![Command::Show(fatal_color()), Command::Sleep(POST_FATAL_PAUSE_SECONDS), Command::Halt],
    )
}

/// The phase in which a tick finds the node.
pub open spec fn phase_of(config: Config, state: SupervisorState, seen: Observation) -> Phase {
    if state.halted {
        Phase::Halted
    } else if !seen.link_up {
        Phase::LinkDown
    } else if !state.session_present {
        Phase::SessionPending
    } else if !state.latch.was_connected {
        if state.latch.is_connected {
            Phase::SessionEstablished
        } else {
            Phase::SessionConnecting
        }
    } else if !state.latch.is_connected {
        Phase::SessionLost
    } else {
        match judge(config, state.link_since, state.weak_since, seen.now, seen.rssi).1 {
            SignalVerdict::Good => Phase::SessionEstablished,
            SignalVerdict::Settling => Phase::SessionEstablished,
            SignalVerdict::Weak => Phase::WeakSignalPending,
            SignalVerdict::GiveUp => Phase::Sleeping,
        }
    }
}

/// One tick: the first of these that applies.
///
/// 1. Halted: nothing but `Halt`.
/// 2. Link down: show the scanning colour and try to connect, after raising
///    the transmit power to its maximum if that is due.
/// 3. No session client: create it.
/// 4. The latch is read. Session not connected at the previous read:
///    announce presence if it is connected now, else show the connecting
///    colour.
/// 5. Session connected at the previous read and not now: take the link
///    down.
/// 6. Session connected at the previous read and now: judge the signal, show
///    the verdict, and take the link down if the signal has been weak for
///    too long.
pub open spec fn tick_model(config: Config, state: SupervisorState, seen: Observation) -> (
    SupervisorState,
    Seq<Command>,
) {
    if state.halted {
        (state, seq![Command::Halt])
    } else if !seen.link_up {
        let scanning = show(config, Indication::WifiScan, seen.rssi);
        if should_escalate(config, state, seen.now) {
            (
                SupervisorState { tx_power: config.wifi_max_tx_power, ..state },
                seq![Command::SetTxPower(config.wifi_max_tx_power), scanning, Command::ConnectLink],
            )
        } else {
            (state, seq![scanning, Command::ConnectLink])
        }
    } else if !state.session_present {
        (state, seq![Command::CreateSession])
    } else if !state.latch.was_connected {
        if state.latch.is_connected {
            (latch_read(state), seq![Command::Publish])
        } else {
            (latch_read(state), seq![show(config, Indication::MqttConnecting, seen.rssi)])
        }
    } else if !state.latch.is_connected {
        (SupervisorState { weak_since: None, ..latch_read(state) }, seq![Command::DisconnectLink])
    } else {
        let judged = judge(config, state.link_since, state.weak_since, seen.now, seen.rssi);
        let next = SupervisorState { weak_since: judged.0, ever_stable: true, ..latch_read(state) };
        let weak = show(config, Indication::WifiWeakSignal, seen.rssi);
        match judged.1 {
            SignalVerdict::Good => (next, seq![show(config, Indication::AllConnected, seen.rssi)]),
            SignalVerdict::Settling => (next, seq![]),
            SignalVerdict::Weak => (next, seq![weak]),
            SignalVerdict::GiveUp => (next, seq![weak, Command::DisconnectLink]),
        }
    }
}

/// After `ConnectLink`: a link that came up is stamped with `now` and starts
/// with no weak spell; running out of time changes nothing and is tried
/// again on a later tick; a failure stops the node.
pub open spec fn link_attempted_model(state: SupervisorState, outcome: ConnectOutcome, now: u32) -> (
    SupervisorState,
    Seq<Command>,
) {
    if state.halted {
        (state, seq![Command::Halt])
    } else {
        match outcome {
            ConnectOutcome::Connected => (
                SupervisorState { link_since: Some(now), weak_since: None, ..state },
                seq![],
            ),
            ConnectOutcome::TimedOut => (state, seq![]),
            ConnectOutcome::Failed(_) => halt(state),
        }
    }
}

/// After `CreateSession`: a created client is remembered; a failure is tried
/// again on the next tick where the configuration says so, and stops the
/// node where it does not.
pub open spec fn session_created_model(config: Config, state: SupervisorState, created: bool) -> (
    SupervisorState,
    Seq<Command>,
) {
    if state.halted {
        (state, seq![Command::Halt])
    } else if created {
        (SupervisorState { session_present: true, ..state }, seq![])
    } else if config.mqtt_retry_session {
        (state, seq![])
    } else {
        halt(state)
    }
}

/// After `Publish`: an announcement on its way is shown; one that the client
/// let go is passed over; a failure stops the node.
pub open spec fn published_model(
    config: Config,
    state: SupervisorState,
    outcome: PublishOutcome,
    rssi: Option<i32>,
) -> (SupervisorState, Seq<Command>) {
    if state.halted {
        (state, seq![Command::Halt])
    } else {
        match outcome {
            PublishOutcome::Published => (state, seq![show(config, Indication::MqttPublished, rssi)]),
            PublishOutcome::Skipped => (state, seq![]),
            PublishOutcome::Failed => halt(state),
        }
    }
}

/// After `DisconnectLink`: with the link down, show the sleeping colour and
/// stay down for the configured time; a failure stops the node.
pub open spec fn link_disconnected_model(config: Config, state: SupervisorState, done: bool) -> (
    SupervisorState,
    Seq<Command>,
) {
    if state.halted {
        (state, seq![Command::Halt])
    } else if done {
        (
            state,
            seq![show(config, Indication::Sleeping, None), Command::Sleep(config.mqtt_reconnect_timeout)],
        )
    } else {
        halt(state)
    }
}

/// A notification of the session: a report of connectivity becomes the
/// current connectivity of the latch; what the previous read found stays.
pub open spec fn session_event_model(state: SupervisorState, report: Option<bool>) -> SupervisorState {
    match report {
        Some(connected) => SupervisorState {
            latch: MqttConnectionStatus {
                is_connected: connected,
                was_connected: state.latch.was_connected,
            },
            ..state
        },
        None => state,
    }
}

/// One thing that the loop tells the supervisor.
#[derive(Clone, Copy, Debug, PartialEq, Eq, Structural)]
pub enum Event {
    /// A tick, with what the loop sampled.
    Tick(Observation),
    /// How `ConnectLink` went, and when it was over.
    LinkAttempted(ConnectOutcome, u32),
    /// Whether `CreateSession` made the client.
    SessionCreated(bool),
    /// How `Publish` went, and the signal at that moment.
    Published(PublishOutcome, Option<i32>),
    /// Whether `DisconnectLink` took the link down.
    LinkDisconnected(bool),
    /// The session reported that it is connected, or that it no longer is.
    SessionReported(bool),
}

/// The state after an event, and the commands that answer it.
pub open spec fn step_model(config: Config, state: SupervisorState, event: Event) -> (
    SupervisorState,
    Seq<Command>,
) {
    match event {
        Event::Tick(seen) => tick_model(config, state, seen),
        Event::LinkAttempted(outcome, now) => link_attempted_model(state, outcome, now),
        Event::SessionCreated(created) => session_created_model(config, state, created),
        Event::Published(outcome, rssi) => published_model(config, state, outcome, rssi),
        Event::LinkDisconnected(done) => link_disconnected_model(config, state, done),
        Event::SessionReported(connected) => (session_event_model(state, Some(connected)), seq![]),
    }
}

/// The presence supervisor of one node.
pub struct Supervisor {
    config: Config,
    mqtt: Mqtt,
    power_on: u32,
    wifi_connected_time: Option<u32>,
    wifi_disconn_rssi_start: Option<u32>,
    tx_power: i8,
    ever_stable: bool,
    halted: bool,
}

impl Supervisor {
    #[verifier::type_invariant]
    spec fn well_formed(&self) -> bool {
        &&& self.config.valid()
        &&& state_fits(self.config, self.state())
    }

    /// The configuration the supervisor was made with.
    pub closed spec fn cfg(&self) -> Config {
        self.config
    }

    /// The broker session.
    pub closed spec fn session(&self) -> Mqtt {
        self.mqtt
    }

    /// What the supervisor carries from tick to tick.
    pub closed spec fn state(&self) -> SupervisorState {
        SupervisorState {
            session_present: self.mqtt.client_present,
            latch: self.mqtt.connection_status,
            power_on: self.power_on,
            link_since: self.wifi_connected_time,
            weak_since: self.wifi_disconn_rssi_start,
            tx_power: self.tx_power,
            ever_stable: self.ever_stable,
            halted: self.halted,
        }
    }

    /// Whether `after` was made with what `self` was made with: the same
    /// configuration, topic and payload.
    pub open spec fn same_setup(&self, after: &Supervisor) -> bool {
        &&& after.cfg() == self.cfg()
        &&& after.session().topic == self.session().topic
        &&& after.session().on_payload == self.session().on_payload
    }

    /// A supervisor for a node powered on at `now`, or the first rule that
    /// the configuration breaks.
    pub fn new(config: Config, now: u32) -> (made: Result<Supervisor, ConfigError>)
        ensures
            match config.fault() {
                Some(error) => made is Err && made->Err_0 == error,
                None => {
                    &&& made matches Ok(supervisor)
                    &&& supervisor.cfg() == config
                    &&& supervisor.state() == initial_state(config, now)
                    &&& supervisor.session().topic@ == presence_topic(
                        config.mqtt_discovery_prefix@,
                        config.mqtt_node@,
                    )
                    &&& supervisor.session().on_payload@ == config.mqtt_on_payload@
                },
            },
    {
        match config.validate() {
            Err(error) => Err(error),
            Ok(()) => {
                let mqtt = Mqtt::new(&config);
                let tx_power = config.wifi_start_tx_power;
                Ok(
                    Supervisor {
                        config,
                        mqtt,
                        power_on: now,
                        wifi_connected_time: None,
                        wifi_disconn_rssi_start: None,
                        tx_power,
                        ever_stable: false,
                        halted: false,
                    },
                )
            },
        }
    }

    /// The configuration.
    pub fn config(&self) -> (config: &Config)
        ensures
            *config == self.cfg(),
            config.valid(),
    {
        proof {
            use_type_invariant(self);
        }
        &self.config
    }

    /// The broker session.
    pub fn mqtt(&self) -> (session: &Mqtt)
        ensures
            *session == self.session(),
            session.client_present == self.state().session_present,
            session.connection_status == self.state().latch,
    {
        &self.mqtt
    }

    /// What the supervisor carries from tick to tick.
    pub fn snapshot(&self) -> (state: SupervisorState)
        ensures
            state == self.state(),
            state_fits(self.cfg(), state),
    {
        proof {
            use_type_invariant(self);
        }
        SupervisorState {
            session_present: self.mqtt.client_present,
            latch: self.mqtt.connection_status,
            power_on: self.power_on,
            link_since: self.wifi_connected_time,
            weak_since: self.wifi_disconn_rssi_start,
            tx_power: self.tx_power,
            ever_stable: self.ever_stable,
            halted: self.halted,
        }
    }

    /// Whether the node has stopped for good.
    pub fn is_halted(&self) -> (halted: bool)
        ensures
            halted == self.state().halted,
    {
        self.halted
    }

    /// The phase in which a tick taking `seen` would find the node. Nothing
    /// is read destructively and nothing changes.
    pub fn phase(&self, seen: Observation) -> (phase: Phase)
        ensures
            phase == phase_of(self.cfg(), self.state(), seen),
    {
        if self.halted {
            Phase::Halted
        } else if !seen.link_up {
            Phase::LinkDown
        } else if !self.mqtt.client_present {
            Phase::SessionPending
        } else if !self.mqtt.connection_status.was_connected {
            if self.mqtt.connection_status.is_connected {
                Phase::SessionEstablished
            } else {
                Phase::SessionConnecting
            }
        } else if !self.mqtt.connection_status.is_connected {
            Phase::SessionLost
        } else {
            let judged = judge_signal(
                &self.config,
                self.wifi_connected_time,
                self.wifi_disconn_rssi_start,
                seen.now,
                seen.rssi,
            );
            match judged.1 {
                SignalVerdict::Good => Phase::SessionEstablished,
                SignalVerdict::Settling => Phase::SessionEstablished,
                SignalVerdict::Weak => Phase::WeakSignalPending,
                SignalVerdict::GiveUp => Phase::Sleeping,
            }
        }
    }

    /// What to do before the first tick: ask the radio for the starting
    /// transmit power, where the power is managed.
    pub fn startup(&self) -> (commands: Vec<Command>)
        ensures
            commands@ == if self.cfg().tx_power_managed() {
                seq![Command::SetTxPower(self.cfg().wifi_start_tx_power)]
            } else {
                seq![]
            },
    {
        let mut commands: Vec<Command> = Vec::new();
        if self.config.wifi_max_tx_power != crate::config::TX_POWER_UNBOUNDED {
            commands.push(Command::SetTxPower(self.config.wifi_start_tx_power));
        }
        commands
    }

    /// Takes in one notification of the session, from whichever context the
    /// session delivers it in.
    pub fn session_event(&mut self, text: &str)
        ensures
            old(self).same_setup(final(self)),
            final(self).state() == session_event_model(old(self).state(), connectivity_in(text@)),
    {
        proof {
            use_type_invariant(&*self);
        }
        match event_connectivity(text) {
            Some(connected) => {
                self.mqtt.connection_status.set_connected(connected);
            },
            None => {},
        }
    }

    fn stop(&mut self) -> (commands: Vec<Command>)
        ensures
            old(self).same_setup(final(self)),
            (final(self).state(), commands@) == halt(old(self).state()),
    {
        proof {
            use_type_invariant(&*self);
        }
        self.halted = true;
        let fatal = indicator_color(
            Indication::Fatal,
            self.config.led_rssi_floor,
            self.config.led_rssi_ceiling,
            None,
        );
        let mut commands: Vec<Command> = Vec::new();
        commands.push(Command::Show(fatal));
        commands.push(Command::Sleep(POST_FATAL_PAUSE_SECONDS));
        commands.push(Command::Halt);
        commands
    }

    fn halted_reply() -> (commands: Vec<Command>)
        ensures
            commands@ == seq![Command::Halt],
    {
        let mut commands: Vec<Command> = Vec::new();
        commands.push(Command::Halt);
        commands
    }

    fn show_command(&self, indication: Indication, rssi: Option<i32>) -> (command: Command)
        ensures
            command == show(self.cfg(), indication, rssi),
    {
        proof {
            use_type_invariant(self);
        }
        Command::Show(
            indicator_color(indication, self.config.led_rssi_floor, self.config.led_rssi_ceiling, rssi),
        )
    }

    /// One tick of the control loop: takes the sample, moves the state on,
    /// and answers with the commands to carry out; see [`tick_model`].
    pub fn tick(&mut self, seen: Observation) -> (commands: Vec<Command>)
        ensures
            old(self).same_setup(final(self)),
            (final(self).state(), commands@) == tick_model(old(self).cfg(), old(self).state(), seen),
    {
        proof {
            use_type_invariant(&*self);
        }
        if self.halted {
            return Self::halted_reply();
        }
        let mut commands: Vec<Command> = Vec::new();
        if !seen.link_up {
            let due = self.config.wifi_max_tx_power != crate::config::TX_POWER_UNBOUNDED
                && !self.ever_stable && self.tx_power < self.config.wifi_max_tx_power
                && elapsed_seconds(self.power_on, seen.now) as u64
                >= self.config.mqtt_disconnected_timeout;
            if due {
                self.tx_power = self.config.wifi_max_tx_power;
                commands.push(Command::SetTxPower(self.config.wifi_max_tx_power));
            }
            commands.push(self.show_command(Indication::WifiScan, seen.rssi));
            commands.push(Command::ConnectLink);
            return commands;
        }
        if !self.mqtt.has_client() {
            commands.push(Command::CreateSession);
            return commands;
        }
        let connected = self.mqtt.is_connected();
        if !self.mqtt.was_connected() {
            if connected {
                commands.push(Command::Publish);
            } else {
                commands.push(self.show_command(Indication::MqttConnecting, seen.rssi));
            }
            return commands;
        }
        if !connected {
            self.wifi_disconn_rssi_start = None;
            commands.push(Command::DisconnectLink);
            return commands;
        }
        let judged = judge_signal(
            &self.config,
            self.wifi_connected_time,
            self.wifi_disconn_rssi_start,
            seen.now,
            seen.rssi,
        );
        self.wifi_disconn_rssi_start = judged.0;
        self.ever_stable = true;
        match judged.1 {
            SignalVerdict::Good => {
                commands.push(self.show_command(Indication::AllConnected, seen.rssi));
            },
            SignalVerdict::Settling => {},
            SignalVerdict::Weak => {
                commands.push(self.show_command(Indication::WifiWeakSignal, seen.rssi));
            },
            SignalVerdict::GiveUp => {
                commands.push(self.show_command(Indication::WifiWeakSignal, seen.rssi));
                commands.push(Command::DisconnectLink);
            },
        }
        commands
    }

    /// Takes in one event, whichever it is; see [`step_model`].
    pub fn handle(&mut self, event: Event) -> (commands: Vec<Command>)
        ensures
            old(self).same_setup(final(self)),
            (final(self).state(), commands@) == step_model(old(self).cfg(), old(self).state(), event),
    {
        match event {
            Event::Tick(seen) => self.tick(seen),
            Event::LinkAttempted(outcome, now) => self.link_attempted(outcome, now),
            Event::SessionCreated(created) => self.session_created(created),
            Event::Published(outcome, rssi) => self.published(outcome, rssi),
            Event::LinkDisconnected(done) => self.link_disconnected(done),
            Event::SessionReported(connected) => {
                proof {
                    use_type_invariant(&*self);
                }
                self.mqtt.connection_status.set_connected(connected);
                Vec::new()
            },
        }
    }

    /// Takes in how `ConnectLink` went, at `now`; see
    /// [`link_attempted_model`].
    pub fn link_attempted(&mut self, outcome: ConnectOutcome, now: u32) -> (commands: Vec<Command>)
        ensures
            old(self).same_setup(final(self)),
            (final(self).state(), commands@) == link_attempted_model(old(self).state(), outcome, now),
    {
        proof {
            use_type_invariant(&*self);
        }
        if self.halted {
            return Self::halted_reply();
        }
        match outcome {
            ConnectOutcome::Connected => {
                self.wifi_connected_time = Some(now);
                self.wifi_disconn_rssi_start = None;
                Vec::new()
            },
            ConnectOutcome::TimedOut => Vec::new(),
            ConnectOutcome::Failed(_) => self.stop(),
        }
    }

    /// Takes in how `CreateSession` went; see [`session_created_model`].
    pub fn session_created(&mut self, created: bool) -> (commands: Vec<Command>)
        ensures
            old(self).same_setup(final(self)),
            (final(self).state(), commands@) == session_created_model(
                old(self).cfg(),
                old(self).state(),
                created,
            ),
    {
        proof {
            use_type_invariant(&*self);
        }
        if self.halted {
            return Self::halted_reply();
        }
        if created {
            self.mqtt.client_created();
            Vec::new()
        } else if self.config.mqtt_retry_session {
            Vec::new()
        } else {
            self.stop()
        }
    }

    /// Takes in how `Publish` went, under a signal of `rssi`; see
    /// [`published_model`].
    pub fn published(&mut self, outcome: PublishOutcome, rssi: Option<i32>) -> (commands: Vec<Command>)
        ensures
            old(self).same_setup(final(self)),
            (final(self).state(), commands@) == published_model(
                old(self).cfg(),
                old(self).state(),
                outcome,
                rssi,
            ),
    {
        proof {
            use_type_invariant(&*self);
        }
        if self.halted {
            return Self::halted_reply();
        }
        match outcome {
            PublishOutcome::Published => {
                let mut commands: Vec<Command> = Vec::new();
                commands.push(self.show_command(Indication::MqttPublished, rssi));
                commands
            },
            PublishOutcome::Skipped => Vec::new(),
            PublishOutcome::Failed => self.stop(),
        }
    }

    /// Takes in how `DisconnectLink` went; see [`link_disconnected_model`].
    pub fn link_disconnected(&mut self, done: bool) -> (commands: Vec<Command>)
        ensures
            old(self).same_setup(final(self)),
            (final(self).state(), commands@) == link_disconnected_model(
                old(self).cfg(),
                old(self).state(),
                done,
            ),
    {
        proof {
            use_type_invariant(&*self);
        }
        if self.halted {
            return Self::halted_reply();
        }
        if done {
            let mut commands: Vec<Command> = Vec::new();
            commands.push(self.show_command(Indication::Sleeping, None));
            commands.push(Command::Sleep(self.config.mqtt_reconnect_timeout));
            commands
        } else {
            self.stop()
        }
    }
}

} // verus!
