//! What holds of the supervisor over every configuration, state and sample.

use crate::config::Config;
use crate::config::MAX_TX_POWER_DBM;
use crate::indicator::fatal_color;
use crate::indicator::Indication;
use crate::mqtt::MqttConnectionStatus;
use crate::signal::judge;
use crate::signal::signal_is_weak;
use crate::signal::SignalVerdict;
use crate::signal::spell_at;
use crate::supervisor::acts_on_link_or_session;
use crate::supervisor::Command;
use crate::supervisor::Event;
use crate::supervisor::initial_state;
use crate::supervisor::link_attempted_model;
use crate::supervisor::link_disconnected_model;
use crate::supervisor::Observation;
use crate::supervisor::Phase;
use crate::supervisor::phase_of;
use crate::supervisor::POST_FATAL_PAUSE_SECONDS;
use crate::supervisor::published_model;
use crate::supervisor::PublishOutcome;
use crate::supervisor::session_created_model;
use crate::supervisor::session_event_model;
use crate::supervisor::should_escalate;
use crate::supervisor::show;
use crate::supervisor::state_fits;
use crate::supervisor::step_model;
use crate::supervisor::SupervisorState;
use crate::supervisor::tick_model;
use crate::utils::elapsed_between;
use crate::wifi::ConnectOutcome;
use crate::wifi::WiFi;
use vstd::prelude::*;

verus! {

/// Presence is announced on the rising edge of the session's connectivity
/// and nowhere else: a tick asks for it exactly when the node runs, the link
/// is up, the client exists, and the latch reads "not connected at the
/// previous read, connected now". The read uses the edge up: the tick that
/// follows finds the session connected at the previous read and asks for
/// nothing of the kind, whatever was reported in between.
pub proof fn lemma_publish_once_per_connect(
    config: Config,
    state: SupervisorState,
    seen: Observation,
    next_seen: Observation,
)
    ensures
        ({
            let first = tick_model(config, state, seen);
            let second = tick_model(config, first.0, next_seen);
            &&& first.1.contains(Command::Publish) <==> {
                &&& !state.halted
                &&& seen.link_up
                &&& state.session_present
                &&& !state.latch.was_connected
                &&& state.latch.is_connected
            }
            &&& first.1.contains(Command::Publish) ==> first.1 == seq![Command::Publish]
            &&& first.1.contains(Command::Publish) ==> !second.1.contains(Command::Publish)
        }),
{
    let first = tick_model(config, state, seen);
    let second = tick_model(config, first.0, next_seen);
    lemma_tick_commands(config, state, seen);
    lemma_tick_commands(config, first.0, next_seen);
    if !state.halted && seen.link_up && state.session_present && !state.latch.was_connected
        && state.latch.is_connected {
        assert(first.1[0] == Command::Publish);
    }
}

/// The state after a run of reports of the session's connectivity, in the
/// order in which they came.
pub open spec fn state_after_reports(state: SupervisorState, reports: Seq<bool>) -> SupervisorState
    decreases reports.len(),
{
    if reports.len() == 0 {
        state
    } else {
        session_event_model(state_after_reports(state, reports.drop_last()), Some(reports.last()))
    }
}

/// The session's connectivity at tick `index`, where `reports[i]` is the run
/// of reports that came in since tick `i - 1` and before tick `i`: what the
/// latest report said, and "not connected" as long as there has been none.
pub open spec fn connected_at(reports: Seq<Seq<bool>>, index: int) -> bool
    decreases index + 1,
{
    if index < 0 {
        false
    } else if reports[index].len() > 0 {
        reports[index].last()
    } else {
        connected_at(reports, index - 1)
    }
}

/// The state in which tick `index` finds the node, after the ticks before it
/// and the reports that came in before each tick.
pub open spec fn state_at_tick(
    config: Config,
    state: SupervisorState,
    reports: Seq<Seq<bool>>,
    seen: Seq<Observation>,
    index: int,
) -> SupervisorState
    decreases index,
{
    let previous = if index <= 0 {
        state
    } else {
        tick_model(config, state_at_tick(config, state, reports, seen, index - 1), seen[index - 1]).0
    };
    state_after_reports(previous, reports[index])
}

/// Presence is announced exactly once for each time the session connects.
///
/// Let the node run with its client in place and a session that has never
/// been connected, let any run of reports, none or many, repeated or not,
/// come in before each tick, and let every tick find the link up. Then tick
/// `index` announces presence exactly when the session is connected at that
/// tick and was not at the tick before.
pub proof fn lemma_one_publish_per_connect(
    config: Config,
    state: SupervisorState,
    reports: Seq<Seq<bool>>,
    seen: Seq<Observation>,
    index: int,
)
    requires
        !state.halted,
        state.session_present,
        !state.latch.is_connected,
        !state.latch.was_connected,
        seen.len() == reports.len(),
        forall|i: int| 0 <= i < seen.len() ==> (#[trigger] seen[i]).link_up,
        0 <= index < reports.len(),
    ensures
        tick_model(
            config,
            state_at_tick(config, state, reports, seen, index),
            seen[index],
        ).1.contains(Command::Publish) <==> connected_at(reports, index) && !connected_at(
            reports,
            index - 1,
        ),
{
    lemma_state_at_tick(config, state, reports, seen, index);
    let found = state_at_tick(config, state, reports, seen, index);
    lemma_publish_once_per_connect(config, found, seen[index], seen[index]);
}

/// Reports change nothing but the current connectivity of the latch, which
/// becomes what the latest of them said.
pub proof fn lemma_reports_keep_the_previous_read(state: SupervisorState, reports: Seq<bool>)
    ensures
        ({
            let after = state_after_reports(state, reports);
            &&& after == SupervisorState {
                latch: MqttConnectionStatus {
                    is_connected: after.latch.is_connected,
                    was_connected: state.latch.was_connected,
                },
                ..state
            }
            &&& after.latch.is_connected == if reports.len() > 0 {
                reports.last()
            } else {
                state.latch.is_connected
            }
        }),
    decreases reports.len(),
{
    if reports.len() > 0 {
        lemma_reports_keep_the_previous_read(state, reports.drop_last());
    }
}

/// The induction behind [`lemma_one_publish_per_connect`]: every tick reads
/// the latch, so that each tick finds in it the connectivity of the tick
/// before and of the present one.
proof fn lemma_state_at_tick(
    config: Config,
    state: SupervisorState,
    reports: Seq<Seq<bool>>,
    seen: Seq<Observation>,
    index: int,
)
    requires
        !state.halted,
        state.session_present,
        !state.latch.is_connected,
        !state.latch.was_connected,
        seen.len() == reports.len(),
        forall|i: int| 0 <= i < seen.len() ==> (#[trigger] seen[i]).link_up,
        0 <= index < reports.len(),
    ensures
        ({
            let found = state_at_tick(config, state, reports, seen, index);
            &&& !found.halted
            &&& found.session_present
            &&& found.latch.is_connected == connected_at(reports, index)
            &&& found.latch.was_connected == connected_at(reports, index - 1)
        }),
    decreases index,
{
    if index > 0 {
        lemma_state_at_tick(config, state, reports, seen, index - 1);
        assert(seen[index - 1].link_up);
        let before = state_at_tick(config, state, reports, seen, index - 1);
        let ticked = tick_model(config, before, seen[index - 1]).0;
        lemma_reports_keep_the_previous_read(ticked, reports[index]);
        assert(state_at_tick(config, state, reports, seen, index) == state_after_reports(
            ticked,
            reports[index],
        ));
    } else {
        lemma_reports_keep_the_previous_read(state, reports[index]);
        assert(state_at_tick(config, state, reports, seen, index) == state_after_reports(
            state,
            reports[index],
        ));
        assert(!connected_at(reports, index - 1));
    }
}

/// The shapes that the commands of a tick can take.
pub open spec fn tick_shape(config: Config, seen: Observation, commands: Seq<Command>) -> bool {
    let scanning = show(config, Indication::WifiScan, seen.rssi);
    let weak = show(config, Indication::WifiWeakSignal, seen.rssi);
    ||| commands == seq![Command::Halt]
    ||| commands == seq![Command::SetTxPower(config.wifi_max_tx_power), scanning, Command::ConnectLink]
    ||| commands == seq![scanning, Command::ConnectLink]
    ||| commands == seq![Command::CreateSession]
    ||| commands == seq![Command::Publish]
    ||| commands == seq![show(config, Indication::MqttConnecting, seen.rssi)]
    ||| commands == seq![Command::DisconnectLink]
    ||| commands == seq![show(config, Indication::AllConnected, seen.rssi)]
    ||| commands == Seq::<Command>::empty()
    ||| commands == seq![weak]
    ||| commands == seq![weak, Command::DisconnectLink]
}

/// The commands of a tick take one of a few shapes, and a command that can
/// fail is the last of its list.
pub proof fn lemma_tick_commands(config: Config, state: SupervisorState, seen: Observation)
    ensures
        ({
            let commands = tick_model(config, state, seen).1;
            &&& tick_shape(config, seen, commands)
            &&& forall|i: int|
                0 <= i < commands.len() && (#[trigger] commands[i] == Command::ConnectLink
                    || commands[i] == Command::CreateSession || commands[i] == Command::Publish
                    || commands[i] == Command::DisconnectLink) ==> i == commands.len() - 1
        }),
{
}

/// The phase in which a tick finds the node decides what the tick asks for:
/// the link is brought up exactly when it is down, the client is created
/// exactly when it is missing, and the link is taken down exactly when the
/// session is lost or the weak spell has run its time.
pub proof fn lemma_phase_decides(config: Config, state: SupervisorState, seen: Observation)
    ensures
        ({
            let phase = phase_of(config, state, seen);
            let commands = tick_model(config, state, seen).1;
            &&& commands.contains(Command::Halt) <==> phase == Phase::Halted
            &&& commands.contains(Command::ConnectLink) <==> phase == Phase::LinkDown
            &&& commands.contains(Command::CreateSession) <==> phase == Phase::SessionPending
            &&& commands.contains(Command::DisconnectLink) <==> phase == Phase::SessionLost || phase
                == Phase::Sleeping
            &&& commands.contains(Command::Publish) ==> phase == Phase::SessionEstablished
        }),
{
    let commands = tick_model(config, state, seen).1;
    lemma_tick_commands(config, state, seen);
    if commands.len() > 0 {
        assert(commands[commands.len() - 1] == commands.last());
        assert(commands[0] == commands.first());
    }
}

/// A signal that stays weak brings the reconnection about on schedule.
///
/// Let the node run with its client in place and its session connected, on a
/// link that came up at `link_since` with no weak spell under way, and let
/// every tick from `link_since` on, one a second, find the link up and the
/// signal weak. Then the tick `offset` seconds after link-up takes the link
/// down exactly when `offset` is the settling time plus the weak time, and no
/// earlier tick does.
pub proof fn lemma_reconnect_on_schedule(
    config: Config,
    state: SupervisorState,
    rssi: Option<i32>,
    link_since: u32,
    offset: nat,
)
    requires
        !state.halted,
        state.session_present,
        state.latch.is_connected,
        state.latch.was_connected,
        state.link_since == Some(link_since),
        state.weak_since is None,
        signal_is_weak(config, rssi),
        offset <= config.wifi_ignore_rssi_seconds + config.wifi_disconnect_seconds,
        link_since + offset <= u32::MAX,
    ensures
        ({
            let before = state_after_weak_ticks(config, state, rssi, link_since as int, link_since + offset);
            let seen = Observation { now: (link_since + offset) as u32, link_up: true, rssi };
            tick_model(config, before, seen).1.contains(Command::DisconnectLink) <==> offset
                == config.wifi_ignore_rssi_seconds + config.wifi_disconnect_seconds
        }),
{
    let until = link_since + offset;
    lemma_weak_ticks(config, state, rssi, link_since, link_since as int, until);
    let before = state_after_weak_ticks(config, state, rssi, link_since as int, until);
    let seen = Observation { now: until as u32, link_up: true, rssi };
    let commands = tick_model(config, before, seen).1;
    lemma_tick_commands(config, before, seen);
    let verdict = judge(config, before.link_since, before.weak_since, seen.now, rssi).1;
    if verdict == SignalVerdict::GiveUp {
        assert(commands[1] == Command::DisconnectLink);
    }
}

/// The state after ticks at every second from `from` up to, not including,
/// `until`, each of which finds the link up and the signal at `rssi`.
pub open spec fn state_after_weak_ticks(
    config: Config,
    state: SupervisorState,
    rssi: Option<i32>,
    from: int,
    until: int,
) -> SupervisorState
    decreases until - from,
{
    if from >= until {
        state
    } else {
        state_after_weak_ticks(
            config,
            tick_model(config, state, Observation { now: from as u32, link_up: true, rssi }).0,
            rssi,
            from + 1,
            until,
        )
    }
}

/// The induction behind [`lemma_reconnect_on_schedule`]: as long as the link
/// is not given up, the ticks change nothing but the weak spell, which starts
/// when the settling time is over.
proof fn lemma_weak_ticks(
    config: Config,
    state: SupervisorState,
    rssi: Option<i32>,
    link_since: u32,
    at: int,
    until: int,
)
    requires
        !state.halted,
        state.session_present,
        state.latch.is_connected,
        state.latch.was_connected,
        state.link_since == Some(link_since),
        state.weak_since == spell_at(config, link_since, link_since, at),
        signal_is_weak(config, rssi),
        link_since <= at <= until,
        until <= link_since + config.wifi_ignore_rssi_seconds + config.wifi_disconnect_seconds,
        until <= u32::MAX,
    ensures
        ({
            let after = state_after_weak_ticks(config, state, rssi, at, until);
            &&& !after.halted
            &&& after.session_present
            &&& after.latch == state.latch
            &&& after.link_since == state.link_since
            &&& after.weak_since == spell_at(config, link_since, link_since, until)
        }),
    decreases until - at,
{
    if at < until {
        let seen = Observation { now: at as u32, link_up: true, rssi };
        let next = tick_model(config, state, seen).0;
        lemma_weak_ticks(config, next, rssi, link_since, at + 1, until);
    }
}

/// The state after a run of events.
pub open spec fn state_after(config: Config, state: SupervisorState, events: Seq<Event>) -> SupervisorState
    decreases events.len(),
{
    if events.len() == 0 {
        state
    } else {
        step_model(config, state_after(config, state, events.drop_last()), events.last()).0
    }
}

/// Once the node has stopped, it stays stopped. Whatever it is told from
/// then on, and however much of it: it remains halted, it answers a tick or
/// a report with `Halt` alone and a notification with nothing, and so asks
/// for nothing on the link or the session and leaves the indicator as it is.
pub proof fn lemma_halted_is_final(
    config: Config,
    state: SupervisorState,
    events: Seq<Event>,
    next: Event,
)
    requires
        state.halted,
    ensures
        ({
            let reached = state_after(config, state, events);
            let answer = step_model(config, reached, next).1;
            &&& reached.halted
            &&& step_model(config, reached, next).0.halted
            &&& next is SessionReported || step_model(config, reached, next).0 == reached
            &&& answer == if next is SessionReported {
                Seq::<Command>::empty()
            } else {
                seq![Command::Halt]
            }
            &&& forall|i: int|
                0 <= i < answer.len() ==> !acts_on_link_or_session(#[trigger] answer[i]) && !(answer[i] is Show)
        }),
    decreases events.len(),
{
    if events.len() > 0 {
        lemma_halted_is_final(config, state, events.drop_last(), events.last());
    }
}

/// A failed announcement stops the node: the answer is the fatal colour, the
/// pause, and `Halt`; the fatal colour is the last colour ever shown.
pub proof fn lemma_failed_publish_is_fatal(config: Config, state: SupervisorState, rssi: Option<i32>)
    requires
        !state.halted,
    ensures
        ({
            let stopped = published_model(config, state, PublishOutcome::Failed, rssi);
            &&& stopped.0.halted
            &&& stopped.1 == seq![
                Command::Show(fatal_color()),
                Command::Sleep(POST_FATAL_PAUSE_SECONDS),
                Command::Halt,
            ]
            &&& forall|i: int|
                0 <= i < stopped.1.len() ==> !acts_on_link_or_session(#[trigger] stopped.1[i])
        }),
{
}

/// The transmit power moves only upwards, only to the configured maximum,
/// and only on a tick that finds the link down after the time allowed for a
/// first stable connection has run out without one. It never leaves the
/// range between the starting power and the maximum, and so never exceeds
/// what the radio accepts.
pub proof fn lemma_tx_power_escalation(
    config: Config,
    state: SupervisorState,
    seen: Observation,
    connect: ConnectOutcome,
    publish: PublishOutcome,
    flag: bool,
    report: Option<bool>,
)
    requires
        config.valid(),
        state_fits(config, state),
    ensures
        ({
            let after = tick_model(config, state, seen).0;
            &&& state_fits(config, after)
            &&& after.tx_power != state.tx_power ==> {
                &&& after.tx_power == config.wifi_max_tx_power
                &&& state.tx_power < after.tx_power
                &&& !seen.link_up
                &&& !state.ever_stable
                &&& elapsed_between(state.power_on, seen.now) >= config.mqtt_disconnected_timeout
            }
            &&& tick_model(config, state, seen).1.contains(
                Command::SetTxPower(config.wifi_max_tx_power),
            ) <==> !state.halted && !seen.link_up && should_escalate(config, state, seen.now)
            &&& config.tx_power_managed() ==> after.tx_power <= MAX_TX_POWER_DBM
        }),
        link_attempted_model(state, connect, seen.now).0.tx_power == state.tx_power,
        session_created_model(config, state, flag).0.tx_power == state.tx_power,
        published_model(config, state, publish, seen.rssi).0.tx_power == state.tx_power,
        link_disconnected_model(config, state, flag).0.tx_power == state.tx_power,
        session_event_model(state, report).tx_power == state.tx_power,
{
    lemma_tick_commands(config, state, seen);
    let commands = tick_model(config, state, seen).1;
    if !state.halted && !seen.link_up && should_escalate(config, state, seen.now) {
        assert(commands[0] == Command::SetTxPower(config.wifi_max_tx_power));
    }
}

/// From power-on, through whatever happens, a managed transmit power stays
/// between the starting power and the configured maximum, and so within what
/// the radio accepts.
pub proof fn lemma_tx_power_stays_in_bounds(config: Config, now: u32, events: Seq<Event>)
    requires
        config.valid(),
    ensures
        state_fits(config, state_after(config, initial_state(config, now), events)),
        config.tx_power_managed() ==> state_after(config, initial_state(config, now), events).tx_power
            <= MAX_TX_POWER_DBM,
    decreases events.len(),
{
    if events.len() > 0 {
        lemma_tx_power_stays_in_bounds(config, now, events.drop_last());
        let reached = state_after(config, initial_state(config, now), events.drop_last());
        match events.last() {
            Event::Tick(seen) => {
                lemma_tx_power_escalation(
                    config,
                    reached,
                    seen,
                    ConnectOutcome::Connected,
                    PublishOutcome::Published,
                    true,
                    None,
                );
            },
            _ => {},
        }
    }
}

/// Giving a connection up is followed by the backoff: once the link is down
/// the node shows the sleeping colour and stays down for the configured
/// time, and no answer to a report ever asks for the link to be brought up;
/// only a later tick does.
pub proof fn lemma_backoff_before_reconnect(
    config: Config,
    state: SupervisorState,
    connect: ConnectOutcome,
    publish: PublishOutcome,
    flag: bool,
    now: u32,
    rssi: Option<i32>,
)
    requires
        !state.halted,
    ensures
        link_disconnected_model(config, state, true) == (
            state,
            seq![show(config, Indication::Sleeping, None), Command::Sleep(config.mqtt_reconnect_timeout)],
        ),
        !link_disconnected_model(config, state, flag).1.contains(Command::ConnectLink),
        !link_attempted_model(state, connect, now).1.contains(Command::ConnectLink),
        !session_created_model(config, state, flag).1.contains(Command::ConnectLink),
        !published_model(config, state, publish, rssi).1.contains(Command::ConnectLink),
{
}

/// A configuration that passes validation sets up a link: what the node
/// checks at power-on covers what the link checks for itself.
pub proof fn lemma_valid_config_sets_up_link(config: Config)
    requires
        config.valid(),
    ensures
        WiFi::fault(&config) is None,
        config.effective_auth() is Some,
{
}

} // verus!
