use doorbot::modem::at_command_line;
use doorbot::modem::sequencer_step;
use doorbot::modem::AtCommand;
use doorbot::modem::SequencerAction;
use doorbot::modem::SequencerEvent;
use doorbot::modem::SequencerState;
use doorbot::modem::DOOR_HOLD_DELAY_MILLIS;
use doorbot::modem::MODE_APPLY_DELAY_MILLIS;

/// Drives the sequencer, answering every send with the scripted outcome and
/// every delay with its completion; records each effect as text.
fn drive(send_outcomes: &[bool]) -> (SequencerState, Vec<String>) {
    let mut state = SequencerState::Init;
    let mut event = SequencerEvent::Start;
    let mut effects: Vec<String> = Vec::new();
    let mut sends = 0usize;
    loop {
        let (next, action) = sequencer_step(state, event);
        state = next;
        match action {
            SequencerAction::Send { cmd } => {
                effects.push(format!("send {}", at_command_line(cmd)));
                let ok = send_outcomes.get(sends).copied().unwrap_or(true);
                sends += 1;
                event = if ok { SequencerEvent::SendOk } else { SequencerEvent::SendErr };
            }
            SequencerAction::Delay { millis } => {
                effects.push(format!("delay {}", millis));
                event = SequencerEvent::DelayDone;
            }
            SequencerAction::Stop => break,
        }
    }
    (state, effects)
}

#[test]
fn successful_run_emits_the_exact_sequence() {
    let (state, effects) = drive(&[true, true, true]);
    assert!(matches!(state, SequencerState::Done));
    assert_eq!(
        effects,
        vec![
            "send ATX1".to_string(),
            format!("delay {}", MODE_APPLY_DELAY_MILLIS),
            "send ATD*1240".to_string(),
            format!("delay {}", DOOR_HOLD_DELAY_MILLIS),
            "send ATD".to_string(),
        ]
    );
}

#[test]
fn dial_failure_prevents_the_cancel_send() {
    let (state, effects) = drive(&[true, false]);
    assert!(matches!(state, SequencerState::Failed));
    assert_eq!(
        effects,
        vec![
            "send ATX1".to_string(),
            format!("delay {}", MODE_APPLY_DELAY_MILLIS),
            "send ATD*1240".to_string(),
        ]
    );
}

#[test]
fn first_send_failure_stops_everything() {
    let (state, effects) = drive(&[false]);
    assert!(matches!(state, SequencerState::Failed));
    assert_eq!(effects, vec!["send ATX1".to_string()]);
}

#[test]
fn final_send_failure_is_a_failure() {
    let (state, effects) = drive(&[true, true, false]);
    assert!(matches!(state, SequencerState::Failed));
    assert_eq!(effects.len(), 5);
}

#[test]
fn command_lines_match_the_protocol() {
    assert_eq!(at_command_line(AtCommand::EnableExtendedCodes), "ATX1");
    assert_eq!(at_command_line(AtCommand::DialReleaseCode), "ATD*1240");
    assert_eq!(at_command_line(AtCommand::CancelDial), "ATD");
    assert_eq!(MODE_APPLY_DELAY_MILLIS, 100);
    assert_eq!(DOOR_HOLD_DELAY_MILLIS, 10_000);
}
