//! Judging the signal of an established link: a weak signal counts only once
//! the link has settled, and must then last before the link is given up.

use crate::config::Config;
use crate::utils::elapsed_between;
use crate::utils::elapsed_seconds;
use vstd::prelude::*;

verus! {

/// What one sample of the signal leads to.
#[derive(Clone, Copy, Debug, PartialEq, Eq, Structural)]
pub enum SignalVerdict {
    /// The signal is good enough.
    Good,
    /// The signal is weak, but the link is too young to be judged.
    Settling,
    /// The signal is weak and has not been weak for long enough yet.
    Weak,
    /// The signal has been weak for too long: give the link up.
    GiveUp,
}

/// Whether a reading counts as weak: below the threshold, or missing where a
/// missing reading is to be taken for the worst.
pub open spec fn signal_is_weak(config: Config, rssi: Option<i32>) -> bool {
    match rssi {
        Some(dbm) => dbm < config.wifi_disconnect_rssi,
        None => config.wifi_missing_rssi_is_weak,
    }
}

/// Whether the link, up since `link_since`, is still too young at `now` for
/// its signal to be judged. A link of unknown age is not.
pub open spec fn link_is_settling(config: Config, link_since: Option<u32>, now: u32) -> bool {
    match link_since {
        Some(since) => elapsed_between(since, now) < config.wifi_ignore_rssi_seconds,
        None => false,
    }
}

/// The verdict on one sample taken at `now`, and the start of the weak spell
/// to carry to the next sample.
///
/// A good sample ends any weak spell. A weak sample on a settling link is
/// passed over. Any other weak sample continues the weak spell, or starts
/// one at `now`; once the spell has lasted for the configured time the link
/// is given up and the spell is over.
pub open spec fn judge(
    config: Config,
    link_since: Option<u32>,
    weak_since: Option<u32>,
    now: u32,
    rssi: Option<i32>,
) -> (Option<u32>, SignalVerdict) {
    if !signal_is_weak(config, rssi) {
        (None, SignalVerdict::Good)
    } else if link_is_settling(config, link_since, now) {
        (weak_since, SignalVerdict::Settling)
    } else {
        let start = match weak_since {
            Some(since) => since,
            None => now,
        };
        if elapsed_between(start, now) >= config.wifi_disconnect_seconds {
            (None, SignalVerdict::GiveUp)
        } else {
            (Some(start), SignalVerdict::Weak)
        }
    }
}

/// Judges one sample of the signal; see [`judge`].
pub fn judge_signal(
    config: &Config,
    link_since: Option<u32>,
    weak_since: Option<u32>,
    now: u32,
    rssi: Option<i32>,
) -> (judged: (Option<u32>, SignalVerdict))
    ensures
        judged == judge(*config, link_since, weak_since, now, rssi),
        !signal_is_weak(*config, rssi) ==> judged.0 is None,
{
    let weak = match rssi {
        Some(dbm) => dbm < config.wifi_disconnect_rssi,
        None => config.wifi_missing_rssi_is_weak,
    };
    if !weak {
        return (None, SignalVerdict::Good);
    }
    if let Some(since) = link_since {
        if elapsed_seconds(since, now) < config.wifi_ignore_rssi_seconds {
            return (weak_since, SignalVerdict::Settling);
        }
    }
    let start = match weak_since {
        Some(since) => since,
        None => now,
    };
    if elapsed_seconds(start, now) >= config.wifi_disconnect_seconds {
        (None, SignalVerdict::GiveUp)
    } else {
        (Some(start), SignalVerdict::Weak)
    }
}

/// The start of the weak spell after weak samples of `rssi` at every second
/// from `from` up to, not including, `until`; a sample that gives the link up
/// ends the spell.
pub open spec fn weak_spell_after(
    config: Config,
    link_since: Option<u32>,
    weak_since: Option<u32>,
    rssi: Option<i32>,
    from: int,
    until: int,
) -> Option<u32>
    decreases until - from,
{
    if from >= until {
        weak_since
    } else {
        weak_spell_after(
            config,
            link_since,
            judge(config, link_since, weak_since, from as u32, rssi).0,
            rssi,
            from + 1,
            until,
        )
    }
}

/// The second at which a signal that turns weak at `first`, on a link up
/// since `link_since`, is first judged: `first` itself, or the end of the
/// settling time if that comes later.
pub open spec fn first_judged(config: Config, link_since: u32, first: int) -> int {
    if first >= link_since + config.wifi_ignore_rssi_seconds {
        first
    } else {
        link_since + config.wifi_ignore_rssi_seconds
    }
}

/// With no weak spell under way, a signal sampled weak once a second from
/// `first` on carries no spell until it is first judged, and from then on a
/// spell that began at that second.
pub proof fn lemma_weak_spell_start(
    config: Config,
    link_since: u32,
    rssi: Option<i32>,
    first: u32,
    until: int,
)
    requires
        signal_is_weak(config, rssi),
        link_since <= first <= until,
        until <= first_judged(config, link_since, first as int) + config.wifi_disconnect_seconds,
        until <= u32::MAX,
    ensures
        weak_spell_after(config, Some(link_since), None, rssi, first as int, until) == if until
            > first_judged(config, link_since, first as int) {
            Some(first_judged(config, link_since, first as int) as u32)
        } else {
            None
        },
{
    lemma_weak_spell_from(config, link_since, rssi, first, first as int, until);
}

/// The induction behind [`lemma_weak_spell_start`]: the same claim for a run
/// that has already reached `at`.
proof fn lemma_weak_spell_from(
    config: Config,
    link_since: u32,
    rssi: Option<i32>,
    first: u32,
    at: int,
    until: int,
)
    requires
        signal_is_weak(config, rssi),
        link_since <= first <= at <= until,
        until <= first_judged(config, link_since, first as int) + config.wifi_disconnect_seconds,
        until <= u32::MAX,
    ensures
        weak_spell_after(
            config,
            Some(link_since),
            spell_at(config, link_since, first, at),
            rssi,
            at,
            until,
        ) == spell_at(config, link_since, first, until),
    decreases until - at,
{
    if at < until {
        let before = spell_at(config, link_since, first, at);
        let after = judge(config, Some(link_since), before, at as u32, rssi).0;
        assert(after == spell_at(config, link_since, first, at + 1));
        lemma_weak_spell_from(config, link_since, rssi, first, at + 1, until);
    }
}

/// The weak spell carried into the sample at `at` of a signal weak since
/// `first`.
pub open spec fn spell_at(config: Config, link_since: u32, first: u32, at: int) -> Option<u32> {
    if at > first_judged(config, link_since, first as int) {
        Some(first_judged(config, link_since, first as int) as u32)
    } else {
        None
    }
}

/// A signal that stays weak is given up on schedule, and not before.
///
/// On a link up since `link_since`, let the signal be sampled weak once a
/// second from `first` on, with no weak spell under way at `first`. Then the
/// sample taken `offset` seconds after `first` gives the link up exactly when
/// it is taken the configured weak time after the signal was first judged.
/// For a signal that is weak from the second the link came up, that is the
/// settling time plus the weak time after link-up.
pub proof fn lemma_weak_signal_gives_up_on_schedule(
    config: Config,
    link_since: u32,
    rssi: Option<i32>,
    first: u32,
    offset: nat,
)
    requires
        signal_is_weak(config, rssi),
        link_since <= first,
        first + offset <= first_judged(config, link_since, first as int)
            + config.wifi_disconnect_seconds,
        first + offset <= u32::MAX,
    ensures
        ({
            let carried = weak_spell_after(
                config,
                Some(link_since),
                None,
                rssi,
                first as int,
                first + offset,
            );
            let verdict = judge(config, Some(link_since), carried, (first + offset) as u32, rssi).1;
            &&& verdict == SignalVerdict::GiveUp <==> first + offset == first_judged(
                config,
                link_since,
                first as int,
            ) + config.wifi_disconnect_seconds
            &&& first == link_since ==> (verdict == SignalVerdict::GiveUp <==> offset
                == config.wifi_ignore_rssi_seconds + config.wifi_disconnect_seconds)
        }),
{
    lemma_weak_spell_start(config, link_since, rssi, first, first + offset);
}

/// One good sample amid weak ones starts the count afresh.
///
/// Whatever weak spell was under way, after a good sample at `good_at` the
/// link is not given up by any of the weak samples that follow it second by
/// second for less than the configured weak time.
pub proof fn lemma_good_sample_restarts_the_count(
    config: Config,
    link_since: u32,
    weak_since: Option<u32>,
    good_at: u32,
    good_rssi: Option<i32>,
    weak_rssi: Option<i32>,
    offset: nat,
)
    requires
        !signal_is_weak(config, good_rssi),
        signal_is_weak(config, weak_rssi),
        link_since <= good_at,
        offset < config.wifi_disconnect_seconds,
        good_at + 1 + offset <= u32::MAX,
    ensures
        ({
            let cleared = judge(config, Some(link_since), weak_since, good_at, good_rssi).0;
            let carried = weak_spell_after(
                config,
                Some(link_since),
                cleared,
                weak_rssi,
                good_at + 1,
                good_at + 1 + offset,
            );
            &&& cleared is None
            &&& judge(config, Some(link_since), carried, (good_at + 1 + offset) as u32, weak_rssi).1
                != SignalVerdict::GiveUp
        }),
{
    lemma_weak_signal_gives_up_on_schedule(config, link_since, weak_rssi, (good_at + 1) as u32, offset);
}

} // verus!
