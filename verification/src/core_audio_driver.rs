//! The driver built on an output unit object: it remembers whether output is
//! enabled and decides when the unit has to be started or stopped.

use vstd::prelude::*;

verus! {

/// What the output unit has to be told.
#[derive(Clone, Copy, Debug, PartialEq, Eq)]
pub enum UnitCommand {
    /// Start the unit.
    Start,
    /// Stop the unit.
    Stop,
    /// Leave the unit as it is.
    Keep,
}

/// The command that takes a unit that is `running` (or not) to the wanted state.
pub open spec fn command_between(running: bool, wanted: bool) -> UnitCommand {
    if running == wanted {
        UnitCommand::Keep
    } else if wanted {
        UnitCommand::Start
    } else {
        UnitCommand::Stop
    }
}

/// Whether a unit that is `running` (or not) runs after it obeys `command`.
pub open spec fn running_after(running: bool, command: UnitCommand) -> bool {
    match command {
        UnitCommand::Start => true,
        UnitCommand::Stop => false,
        UnitCommand::Keep => running,
    }
}

/// Whether `command` asks a unit for what it already does.
pub open spec fn is_redundant(running: bool, command: UnitCommand) -> bool {
    (command == UnitCommand::Start && running) || (command == UnitCommand::Stop && !running)
}

/// The command that takes a unit that is `running` (or not) to the wanted
/// state; a fresh unit is not running.
pub fn command_to_reach(running: bool, wanted: bool) -> (c: UnitCommand)
    ensures
        c == command_between(running, wanted),
{
    if running == wanted {
        UnitCommand::Keep
    } else if wanted {
        UnitCommand::Start
    } else {
        UnitCommand::Stop
    }
}

/// The state of an output driver: whether output is enabled.
#[derive(Debug)]
pub struct CoreAudioDriver {
    is_enabled: bool,
}

impl CoreAudioDriver {
    /// Whether output is enabled.
    pub closed spec fn enabled(self) -> bool {
        self.is_enabled
    }

    /// A new driver over a freshly created unit, which is not running yet.
    /// Output is enabled from the start, so the unit is told to start, once.
    pub fn new() -> (r: (CoreAudioDriver, UnitCommand))
        ensures
            r.0.enabled(),
            r.1 == command_between(false, true),
            r.1 == UnitCommand::Start,
    {
        let driver = CoreAudioDriver { is_enabled: true };
        let command = command_to_reach(false, driver.is_enabled);
        (driver, command)
    }

    /// Enables or disables output. Returns what the unit has to be told:
    /// nothing when the setting does not change, else start or stop.
    pub fn set_is_enabled(&mut self, is_enabled: bool) -> (c: UnitCommand)
        ensures
            final(self).enabled() == is_enabled,
            c == command_between(old(self).enabled(), is_enabled),
    {
        if is_enabled == self.is_enabled {
            return UnitCommand::Keep;
        }
        let c = if is_enabled {
            UnitCommand::Start
        } else {
            UnitCommand::Stop
        };
        self.is_enabled = is_enabled;
        c
    }

    /// Whether output is enabled.
    pub fn is_enabled(&self) -> (b: bool)
        ensures
            b == self.enabled(),
    {
        self.is_enabled
    }
}

/// The flag after a driver enabled (or not) receives the requests in order.
pub open spec fn flag_after(enabled: bool, requests: Seq<bool>) -> bool
    decreases requests.len(),
{
    if requests.len() == 0 {
        enabled
    } else {
        flag_after(requests[0], requests.drop_first())
    }
}

/// Whether the unit runs after it obeys, in order, the commands a driver
/// enabled (or not) issues for the requests.
pub open spec fn unit_after(running: bool, enabled: bool, requests: Seq<bool>) -> bool
    decreases requests.len(),
{
    if requests.len() == 0 {
        running
    } else {
        unit_after(
            running_after(running, command_between(enabled, requests[0])),
            requests[0],
            requests.drop_first(),
        )
    }
}

/// Whether some command issued for the requests, by a driver enabled (or not)
/// over a unit running (or not), asks the unit for what it already does.
pub open spec fn issues_redundant(running: bool, enabled: bool, requests: Seq<bool>) -> bool
    decreases requests.len(),
{
    if requests.len() == 0 {
        false
    } else {
        let c = command_between(enabled, requests[0]);
        is_redundant(running, c) || issues_redundant(
            running_after(running, c),
            requests[0],
            requests.drop_first(),
        )
    }
}

/// Of two requests in a row, the later one decides the flag.
pub proof fn lemma_last_request_wins(enabled: bool, first: bool, second: bool)
    ensures
        flag_after(enabled, seq![first, second]) == second,
{
    reveal_with_fuel(flag_after, 3);
    assert(seq![first, second].drop_first() =~= seq![second]);
    assert(seq![second].drop_first() =~= Seq::<bool>::empty());
}

/// A unit that runs exactly when output is enabled keeps doing so after it
/// obeys the command for any request.
pub proof fn lemma_unit_follows_request(running: bool, enabled: bool, wanted: bool)
    requires
        running == enabled,
    ensures
        running_after(running, command_between(enabled, wanted)) == wanted,
        !is_redundant(running, command_between(enabled, wanted)),
{
}

/// Over any sequence of requests, a unit that starts out running exactly
/// when output is enabled ends up running exactly when the last request
/// enabled output, and is never told to do what it already does.
pub proof fn lemma_unit_tracks_requests(running: bool, enabled: bool, requests: Seq<bool>)
    requires
        running == enabled,
    ensures
        unit_after(running, enabled, requests) == flag_after(enabled, requests),
        !issues_redundant(running, enabled, requests),
    decreases requests.len(),
{
    if requests.len() > 0 {
        lemma_unit_follows_request(running, enabled, requests[0]);
        lemma_unit_tracks_requests(
            running_after(running, command_between(enabled, requests[0])),
            requests[0],
            requests.drop_first(),
        );
    }
}

} // verus!
