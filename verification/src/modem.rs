//! The actuation sequencer: the fixed three-send, two-delay protocol that
//! releases the door, as an explicit state machine.
//!
//! The serial device itself lives outside the library. A driver starts the
//! machine with `SequencerEvent::Start` and then, for each returned action,
//! performs it (sends the line, or suspends for the delay) and feeds the
//! outcome back as the next event, until the machine answers
//! `SequencerAction::Stop`. The run succeeded exactly when the final state is
//! `Done`; any send failure moves the machine to `Failed`, which issues no
//! further command. A single driver runs one sequence at a time; the steps of
//! one run are never interleaved with another's.

use vstd::prelude::*;
use vstd::seq_lib::*;
use vstd::string::StringExecFns;

verus! {

/// How long the device gets to apply the extended-result-code mode before the
/// dial command follows, in milliseconds.
pub const MODE_APPLY_DELAY_MILLIS: u64 = 100;

/// How long the dial state is held so the door strike actuates, in
/// milliseconds. A safety-critical constant, not a tunable.
pub const DOOR_HOLD_DELAY_MILLIS: u64 = 10000;

/// The three modem commands of the door-open sequence, in protocol order.
#[derive(Clone, Copy, Debug, PartialEq, Eq, Structural)]
pub enum AtCommand {
    /// `ATX1`: enable extended result codes / dial-tone detection.
    EnableExtendedCodes,
    /// `ATD*1240`: dial the fixed feature code that pulses the door relay.
    DialReleaseCode,
    /// `ATD`: a bare dial, which cancels the prior dial state.
    CancelDial,
}

/// The text of one sequence command, without its line terminator.
pub open spec fn spec_at_line(cmd: AtCommand) -> Seq<char> {
    match cmd {
        AtCommand::EnableExtendedCodes => "ATX1"@,
        AtCommand::DialReleaseCode => "ATD*1240"@,
        AtCommand::CancelDial => "ATD"@,
    }
}

/// The line to send for one sequence command.
pub fn at_command_line(cmd: AtCommand) -> (r: String)
    ensures
        r@ == spec_at_line(cmd),
{
    match cmd {
        AtCommand::EnableExtendedCodes => String::from_str("ATX1"),
        AtCommand::DialReleaseCode => String::from_str("ATD*1240"),
        AtCommand::CancelDial => String::from_str("ATD"),
    }
}

/// Where the sequence stands. Each non-terminal state waits for exactly one
/// kind of event; `Done` still awaits the outcome of the final send.
#[derive(Clone, Copy, Debug, PartialEq, Eq, Structural)]
pub enum SequencerState {
    /// Nothing sent yet; waiting for the driver to start.
    Init,
    /// The mode-set command is in flight.
    ModeSet,
    /// Waiting out the mode-apply delay before dialing.
    Dialing,
    /// The dial command is in flight; the relay pulses on its success.
    Releasing,
    /// Waiting out the hold delay before cancelling the dial.
    Cancelling,
    /// The cancel command was issued; the sequence succeeded once it is
    /// acknowledged.
    Done,
    /// A step failed, or an event arrived that the state does not expect; no
    /// further command is ever issued.
    Failed,
}

/// What the driver reports back to the machine.
#[derive(Clone, Copy, Debug, PartialEq, Eq, Structural)]
pub enum SequencerEvent {
    /// Begin the sequence.
    Start,
    /// The transport accepted the last line.
    SendOk,
    /// The transport failed to accept the last line.
    SendErr,
    /// The requested delay has elapsed.
    DelayDone,
}

/// What the machine asks the driver to do next.
#[derive(Clone, Copy, Debug, PartialEq, Eq, Structural)]
pub enum SequencerAction {
    /// Send the command's line over the serial connection.
    Send { cmd: AtCommand },
    /// Suspend for the given time.
    Delay { millis: u64 },
    /// The run is over; the final state says how it went.
    Stop,
}

/// The transition table of the sequencer. Every event other than the one the
/// state waits for (a send failure above all) moves to `Failed`, which
/// absorbs everything and commands nothing.
pub open spec fn spec_sequencer_step(s: SequencerState, e: SequencerEvent) -> (
    SequencerState,
    SequencerAction,
) {
    match (s, e) {
        (SequencerState::Init, SequencerEvent::Start) => (
            SequencerState::ModeSet,
            (SequencerAction::Send { cmd: AtCommand::EnableExtendedCodes }),
        ),
        (SequencerState::ModeSet, SequencerEvent::SendOk) => (
            SequencerState::Dialing,
            (SequencerAction::Delay { millis: MODE_APPLY_DELAY_MILLIS }),
        ),
        (SequencerState::Dialing, SequencerEvent::DelayDone) => (
            SequencerState::Releasing,
            (SequencerAction::Send { cmd: AtCommand::DialReleaseCode }),
        ),
        (SequencerState::Releasing, SequencerEvent::SendOk) => (
            SequencerState::Cancelling,
            (SequencerAction::Delay { millis: DOOR_HOLD_DELAY_MILLIS }),
        ),
        (SequencerState::Cancelling, SequencerEvent::DelayDone) => (
            SequencerState::Done,
            (SequencerAction::Send { cmd: AtCommand::CancelDial }),
        ),
        (SequencerState::Done, SequencerEvent::SendOk) => (SequencerState::Done,
        SequencerAction::Stop),
        _ => (SequencerState::Failed, SequencerAction::Stop),
    }
}

/// Advances the sequence by one event.
pub fn sequencer_step(s: SequencerState, e: SequencerEvent) -> (r: (
    SequencerState,
    SequencerAction,
))
    ensures
        r == spec_sequencer_step(s, e),
{
    match (s, e) {
        (SequencerState::Init, SequencerEvent::Start) => (
            SequencerState::ModeSet,
            SequencerAction::Send { cmd: AtCommand::EnableExtendedCodes },
        ),
        (SequencerState::ModeSet, SequencerEvent::SendOk) => (
            SequencerState::Dialing,
            SequencerAction::Delay { millis: MODE_APPLY_DELAY_MILLIS },
        ),
        (SequencerState::Dialing, SequencerEvent::DelayDone) => (
            SequencerState::Releasing,
            SequencerAction::Send { cmd: AtCommand::DialReleaseCode },
        ),
        (SequencerState::Releasing, SequencerEvent::SendOk) => (
            SequencerState::Cancelling,
            SequencerAction::Delay { millis: DOOR_HOLD_DELAY_MILLIS },
        ),
        (SequencerState::Cancelling, SequencerEvent::DelayDone) => (
            SequencerState::Done,
            SequencerAction::Send { cmd: AtCommand::CancelDial },
        ),
        (SequencerState::Done, SequencerEvent::SendOk) => (
            SequencerState::Done,
            SequencerAction::Stop,
        ),
        _ => (SequencerState::Failed, SequencerAction::Stop),
    }
}

/// The run of the machine over a whole event sequence: the state it ends in
/// and the actions it issued, in order.
pub open spec fn spec_run(s: SequencerState, events: Seq<SequencerEvent>) -> (
    SequencerState,
    Seq<SequencerAction>,
)
    decreases events.len(),
{
    if events.len() == 0 {
        (s, Seq::empty())
    } else {
        let (s1, a) = spec_sequencer_step(s, events[0]);
        let (s2, rest) = spec_run(s1, events.drop_first());
        (s2, seq![a] + rest)
    }
}

/// The actions with an effect on the device: the sends and the delays,
/// without the `Stop` markers.
pub open spec fn effects_of(actions: Seq<SequencerAction>) -> Seq<SequencerAction>
    decreases actions.len(),
{
    if actions.len() == 0 {
        Seq::empty()
    } else {
        let head: Seq<SequencerAction> = if actions[0] is Stop {
            Seq::empty()
        } else {
            seq![actions[0]]
        };
        head + effects_of(actions.drop_first())
    }
}

/// The full effect sequence of a successful run: the three sends with the
/// two delays between them, in protocol order.
pub open spec fn full_door_sequence() -> Seq<SequencerAction> {
    seq![
        (SequencerAction::Send { cmd: AtCommand::EnableExtendedCodes }),
        (SequencerAction::Delay { millis: MODE_APPLY_DELAY_MILLIS }),
        (SequencerAction::Send { cmd: AtCommand::DialReleaseCode }),
        (SequencerAction::Delay { millis: DOOR_HOLD_DELAY_MILLIS }),
        (SequencerAction::Send { cmd: AtCommand::CancelDial }),
    ]
}

/// The effects a state may still produce: the suffix of the full sequence
/// that lies ahead of it.
pub open spec fn pending_effects(s: SequencerState) -> Seq<SequencerAction> {
    match s {
        SequencerState::Init => full_door_sequence(),
        SequencerState::ModeSet => full_door_sequence().skip(1),
        SequencerState::Dialing => full_door_sequence().skip(2),
        SequencerState::Releasing => full_door_sequence().skip(3),
        SequencerState::Cancelling => full_door_sequence().skip(4),
        SequencerState::Done => Seq::empty(),
        SequencerState::Failed => Seq::empty(),
    }
}

/// Whatever events arrive, a run from any state issues its pending effects
/// in order and without repetition or insertion: the effects of the run are
/// a prefix of the state's pending effects, and they are all of them exactly
/// when the run ends in `Done`. From `Init`, the pending effects are the full
/// door sequence, so a successful run emits `ATX1`, the mode-apply delay,
/// `ATD*1240`, the hold delay, and `ATD`, in that order and nothing else,
/// while a run cut short by a failure stops at a prefix: a failed dial is
/// never followed by the cancel command.
pub proof fn lemma_actuation_order(s: SequencerState, events: Seq<SequencerEvent>)
    ensures
        effects_of(spec_run(s, events).1).is_prefix_of(pending_effects(s)),
        spec_run(s, events).0 is Done ==> effects_of(spec_run(s, events).1) == pending_effects(s),
    decreases events.len(),
{
    if events.len() == 0 {
    } else {
        let (s1, a) = spec_sequencer_step(s, events[0]);
        let (s2, rest) = spec_run(s1, events.drop_first());
        lemma_actuation_order(s1, events.drop_first());
        assert(spec_run(s, events).1 == seq![a] + rest);
        assert((seq![a] + rest).drop_first() =~= rest);
        if a is Stop {
            assert(effects_of(seq![a] + rest) =~= effects_of(rest));
            if s1 is Failed {
                lemma_failure_halts(events.drop_first());
            }
        } else {
            assert(effects_of(seq![a] + rest) =~= seq![a] + effects_of(rest));
            assert(seq![a] + pending_effects(s1) =~= pending_effects(s));
        }
    }
}

/// Once the machine has failed it stays failed and never issues another
/// effect, whatever events still arrive.
pub proof fn lemma_failure_halts(events: Seq<SequencerEvent>)
    ensures
        spec_run(SequencerState::Failed, events).0 is Failed,
        effects_of(spec_run(SequencerState::Failed, events).1) == Seq::<SequencerAction>::empty(),
    decreases events.len(),
{
    if events.len() == 0 {
    } else {
        let (s1, a) = spec_sequencer_step(SequencerState::Failed, events[0]);
        lemma_failure_halts(events.drop_first());
        let rest = spec_run(s1, events.drop_first()).1;
        assert((seq![a] + rest).drop_first() =~= rest);
        assert(effects_of(seq![a] + rest) =~= effects_of(rest));
    }
}

} // verus!
