//! Reading turn changes from transcripts.

use std::path::PathBuf;

use herdr_codex::observer::{Observer, ObserverAction, ObserverEvent, POLL_INTERVAL_MILLIS};
use herdr_codex::path::TranscriptPath;
use herdr_codex::reader::{Reader, TranscriptError};
use herdr_codex::registration::{Observation, Registration, TerminalId};
use herdr_codex::time::Timestamp;
use herdr_codex::turn::{Event, Record, Turn, TurnPhase};

const META: &str = "{\"type\":\"session_meta\",\"payload\":{\"id\":\"session\"}}\n";

fn fixture() -> Registration {
    Registration {
        terminal_id: TerminalId {
            name: "terminal".into(),
        },
        generation: 1,
        session_id: "session".into(),
        path: TranscriptPath::new(PathBuf::from("/tmp/herdr-codex-terminal.jsonl")),
        current_turn_hook: false,
        replay_after: None,
    }
}

fn event(kind: &str, id: &str) -> String {
    format!(
        r#"{{"type":"event_msg","payload":{{"type":"{kind}","turn_id":"{id}","extra":true}}}}"#
    ) + "\n"
}

fn turn(id: &str, phase: TurnPhase) -> Turn {
    Turn {
        id: id.into(),
        phase,
    }
}

fn parse_record(line: &[u8]) -> Option<Record> {
    let line: serde_json::Value = serde_json::from_slice(line).ok()?;
    let payload = line.get("payload")?;
    let text = |key: &str| payload.get(key)?.as_str().map(str::to_string);
    match line.get("type")?.as_str()? {
        "session_meta" => Some(Record::Session { id: text("id")? }),
        "event_msg" => Some(Record::Event(match payload.get("type")?.as_str()? {
            "task_started" => Event::Started {
                turn_id: text("turn_id")?,
            },
            "task_complete" => Event::Complete {
                turn_id: text("turn_id")?,
            },
            "turn_aborted" => Event::Aborted {
                turn_id: text("turn_id")?,
            },
            _ => Event::Other,
        })),
        _ => Some(Record::Other),
    }
}

/// A transcript held in memory, with the reader that follows it.
struct Transcript {
    contents: Vec<u8>,
    reader: Reader,
}

impl Transcript {
    fn open(registration: Registration, contents: &str) -> Self {
        Self {
            contents: contents.as_bytes().to_vec(),
            reader: Reader::open(registration),
        }
    }

    fn append(&mut self, bytes: &[u8]) {
        self.contents.extend_from_slice(bytes);
    }

    fn read_available(&mut self, replay: bool) -> Result<Vec<(Turn, bool)>, TranscriptError> {
        let length = self.contents.len() as u64;
        let taken = self.reader.consumed().min(length) as usize;
        let data = &self.contents[taken..];
        let lines = self.reader.finished_lines(data);
        let records = lines.iter().map(|line| parse_record(line)).collect();
        self.reader.read_available(length, data, &records, replay)
    }
}

#[test]
fn handoff_replays_only_unapplied_turn_changes_in_order() {
    for (saved, suffix, expected) in [
        (turn("a", TurnPhase::Completed), "".into(), vec![]),
        (
            turn("a", TurnPhase::Completed),
            format!(
                "{}{}",
                event("task_started", "b"),
                event("task_complete", "b")
            ),
            vec![
                turn("b", TurnPhase::Active),
                turn("b", TurnPhase::Completed),
            ],
        ),
        (
            turn("a", TurnPhase::Active),
            format!(
                "{}{}",
                event("task_complete", "a"),
                event("task_started", "b")
            ),
            vec![
                turn("a", TurnPhase::Completed),
                turn("b", TurnPhase::Active),
            ],
        ),
        (
            turn("a", TurnPhase::Active),
            format!(
                "{}{}",
                event("turn_aborted", "a"),
                event("task_started", "b")
            ),
            vec![turn("a", TurnPhase::Aborted), turn("b", TurnPhase::Active)],
        ),
    ] {
        let mut registration = fixture();
        registration.replay_after = Some(saved.clone());
        let prefix = format!("{META}{}", event("task_started", "a"));
        let prefix = if saved.phase == TurnPhase::Completed {
            format!("{prefix}{}", event("task_complete", "a"))
        } else {
            prefix
        };
        let mut transcript = Transcript::open(registration, &format!("{prefix}{suffix}"));
        assert_eq!(
            transcript.read_available(true).unwrap(),
            expected
                .into_iter()
                .map(|turn| (turn, false))
                .collect::<Vec<_>>()
        );
    }
}

#[test]
fn replay_reduces_history_and_append_matches_turn_ids_and_partial_lines() {
    let history = [
        META.into(),
        event("task_started", "old"),
        event("task_started", "current"),
    ]
    .concat();
    let mut transcript = Transcript::open(fixture(), &history);
    assert_eq!(
        transcript.read_available(true).unwrap(),
        vec![(turn("current", TurnPhase::Active), true)]
    );
    transcript.append(event("task_complete", "old").as_bytes());
    let abort = event("turn_aborted", "current");
    transcript.append(&abort.as_bytes()[..abort.len() - 1]);
    assert!(transcript.read_available(false).unwrap().is_empty());
    transcript.append(b"\n");
    assert_eq!(
        transcript.read_available(false).unwrap(),
        vec![(turn("current", TurnPhase::Aborted), false)]
    );
    assert!(transcript.read_available(false).unwrap().is_empty());
}

#[test]
fn live_hook_replay_keeps_only_its_current_start_and_outcome() {
    for (event_name, phase) in [
        ("task_complete", TurnPhase::Completed),
        ("turn_aborted", TurnPhase::Aborted),
    ] {
        let mut registration = fixture();
        registration.current_turn_hook = true;
        let mut transcript = Transcript::open(
            registration,
            &format!(
                "{META}{}{}{}{}",
                event("task_started", "old"),
                event("task_complete", "old"),
                event("task_started", "current"),
                event(event_name, "current"),
            ),
        );
        assert_eq!(
            transcript.read_available(true).unwrap(),
            vec![
                (turn("current", TurnPhase::Active), false),
                (turn("current", phase), false),
            ]
        );
    }
}

#[test]
fn empty_and_unrecognized_replay_have_no_state_and_wrong_session_is_rejected() {
    for contents in ["", "{\"type\":\"future_record\",\"payload\":{}}\n", META] {
        let mut transcript = Transcript::open(fixture(), contents);
        assert!(transcript.read_available(true).unwrap().is_empty());
    }
    let mut transcript = Transcript::open(fixture(), &META.replace("session\"", "another\""));
    assert!(transcript.read_available(true).is_err());
}

#[test]
fn observer_wakes_without_pty_output_and_releases_authority_on_read_failure() {
    let registration = fixture();
    let mut transcript = Transcript::open(
        registration.clone(),
        &format!(
            "{META}{}{}",
            event("task_started", "old"),
            event("task_complete", "old")
        ),
    );
    let at = Timestamp { nanos: 7 };
    let pass = |transcript: &mut Transcript, replay: bool| match transcript.read_available(replay) {
        Ok(changes) => ObserverEvent::Passed { changes, at },
        Err(_) => ObserverEvent::Failed { at },
    };
    let sent = |action: ObserverAction| -> Observation {
        match action {
            ObserverAction::Send(observation) => observation,
            other => panic!("unexpected action {other:?}"),
        }
    };

    let (mut observer, action) = Observer::start(registration.clone());
    assert_eq!(*observer.registration(), registration);
    assert!(matches!(action, ObserverAction::Read { replay: true }));
    let initial = sent(observer.step(pass(&mut transcript, true)));
    assert!(initial.replay);
    assert!(!initial.unavailable);
    assert_eq!(initial.observed_at, at);
    assert_eq!(initial.turn.unwrap().phase, TurnPhase::Completed);
    assert!(matches!(
        observer.step(ObserverEvent::Delivered),
        ObserverAction::Rest { millis: 250 }
    ));

    transcript.append(event("task_started", "new").as_bytes());
    assert!(matches!(
        observer.step(ObserverEvent::Rested),
        ObserverAction::Read { replay: false }
    ));
    let live = sent(observer.step(pass(&mut transcript, false)));
    assert!(!live.replay);
    assert_eq!(live.turn.unwrap().phase, TurnPhase::Active);
    assert!(matches!(
        observer.step(ObserverEvent::Delivered),
        ObserverAction::Rest { .. }
    ));

    transcript.contents.clear();
    assert!(matches!(
        observer.step(ObserverEvent::Rested),
        ObserverAction::Read { replay: false }
    ));
    let lost = sent(observer.step(pass(&mut transcript, false)));
    assert!(lost.unavailable);
    assert_eq!(lost.turn, None);
    assert_eq!(lost.registration, registration);
    assert!(matches!(
        observer.step(ObserverEvent::Delivered),
        ObserverAction::Stop
    ));
}

#[test]
fn an_observer_reports_every_change_before_it_rests() {
    let at = Timestamp { nanos: 1 };
    let (mut observer, _) = Observer::start(fixture());
    let changes = vec![
        (turn("a", TurnPhase::Active), false),
        (turn("a", TurnPhase::Completed), false),
        (turn("b", TurnPhase::Active), true),
    ];
    let mut action = observer.step(ObserverEvent::Passed {
        changes: changes.clone(),
        at,
    });
    for (expected, replay) in changes {
        match action {
            ObserverAction::Send(observation) => {
                assert_eq!(observation.turn, Some(expected));
                assert_eq!(observation.replay, replay);
            }
            other => panic!("unexpected action {other:?}"),
        }
        action = observer.step(ObserverEvent::Delivered);
    }
    assert!(matches!(
        action,
        ObserverAction::Rest {
            millis: POLL_INTERVAL_MILLIS
        }
    ));
}

#[test]
fn an_observer_that_nobody_hears_ends_silently() {
    let at = Timestamp { nanos: 1 };
    let (mut observer, _) = Observer::start(fixture());
    let changes = vec![
        (turn("a", TurnPhase::Active), false),
        (turn("a", TurnPhase::Completed), false),
    ];
    assert!(matches!(
        observer.step(ObserverEvent::Passed { changes, at }),
        ObserverAction::Send(_)
    ));
    assert!(matches!(
        observer.step(ObserverEvent::Closed),
        ObserverAction::Stop
    ));
    assert!(matches!(
        observer.step(ObserverEvent::Rested),
        ObserverAction::Stop
    ));

    let (mut observer, _) = Observer::start(fixture());
    assert!(matches!(
        observer.step(ObserverEvent::Failed { at }),
        ObserverAction::Send(_)
    ));
    assert!(matches!(
        observer.step(ObserverEvent::Closed),
        ObserverAction::Stop
    ));
}

#[test]
fn lines_come_out_whole_wherever_the_file_was_cut() {
    let contents = b"first\nsecond\n\nthird";
    for cut in 0..contents.len() {
        let mut reader = Reader::open(fixture());
        let mut lines = Vec::new();
        for data in [&contents[..cut], &contents[cut..]] {
            let finished = reader.finished_lines(data);
            // Looking at the lines takes nothing in.
            assert_eq!(reader.finished_lines(data), finished);
            let records = finished.iter().map(|_| None).collect();
            let length = contents.len() as u64;
            assert_eq!(
                reader.read_available(length, data, &records, false),
                Ok(vec![])
            );
            lines.extend(finished);
        }
        assert_eq!(
            lines,
            vec![b"first\n".to_vec(), b"second\n".to_vec(), b"\n".to_vec()]
        );
        assert_eq!(reader.consumed(), 19);
    }
}

#[test]
fn a_truncated_transcript_is_an_error() {
    let mut transcript = Transcript::open(fixture(), META);
    transcript.read_available(true).unwrap();
    transcript.contents.pop();
    assert_eq!(
        transcript.read_available(false),
        Err(TranscriptError::Truncated)
    );
    assert_eq!(transcript.reader.consumed(), META.len() as u64);
    assert_eq!(
        TranscriptError::Truncated.message(),
        "Codex transcript was truncated"
    );
}

#[test]
fn a_foreign_session_stops_the_pass_behind_its_line() {
    let own = format!("{META}{}", event("task_started", "a"));
    let foreign = META.replace("session\"", "another\"");
    let rest = format!(
        "{}{}",
        event("task_complete", "a"),
        event("task_started", "b")
    );
    let mut transcript = Transcript::open(fixture(), &format!("{own}{foreign}{rest}"));
    assert_eq!(
        transcript.read_available(false),
        Err(TranscriptError::SessionMismatch)
    );
    assert_eq!(
        transcript.reader.consumed() as usize,
        own.len() + foreign.len()
    );
    // What stands behind that line is read by the next pass.
    assert_eq!(
        transcript.read_available(false).unwrap(),
        vec![
            (turn("a", TurnPhase::Completed), false),
            (turn("b", TurnPhase::Active), false),
        ]
    );
    assert_eq!(transcript.reader.consumed(), transcript.contents.len() as u64);
    assert_eq!(
        TranscriptError::SessionMismatch.message(),
        "Codex transcript session does not match"
    );
}

#[test]
fn a_saved_turn_that_is_not_there_is_an_error() {
    let mut registration = fixture();
    registration.replay_after = Some(turn("missing", TurnPhase::Active));
    let mut transcript = Transcript::open(
        registration,
        &format!("{META}{}", event("task_started", "a")),
    );
    assert_eq!(
        transcript.read_available(true),
        Err(TranscriptError::SavedTurnMissing)
    );
    assert_eq!(
        TranscriptError::SavedTurnMissing.message(),
        "Saved Codex turn was not found in transcript"
    );
}

#[test]
fn a_handoff_starts_at_the_first_occurrence_of_the_saved_turn() {
    let mut registration = fixture();
    registration.replay_after = Some(turn("a", TurnPhase::Active));
    let mut transcript = Transcript::open(
        registration,
        &format!(
            "{META}{}{}{}",
            event("task_started", "a"),
            event("task_started", "b"),
            event("task_started", "a")
        ),
    );
    assert_eq!(
        transcript.read_available(true).unwrap(),
        vec![
            (turn("b", TurnPhase::Active), false),
            (turn("a", TurnPhase::Active), false),
        ]
    );
}

#[test]
fn nothing_is_reported_before_the_session_is_named() {
    let mut transcript = Transcript::open(fixture(), &event("task_started", "a"));
    assert!(transcript.read_available(true).unwrap().is_empty());
    transcript.append(event("task_complete", "a").as_bytes());
    assert!(transcript.read_available(false).unwrap().is_empty());
    transcript.append(META.as_bytes());
    transcript.append(event("task_started", "b").as_bytes());
    assert_eq!(
        transcript.read_available(false).unwrap(),
        vec![(turn("b", TurnPhase::Active), false)]
    );
}

#[test]
fn an_end_without_a_start_is_a_turn_of_its_own() {
    let mut transcript = Transcript::open(
        fixture(),
        &format!("{META}{}", event("task_complete", "a")),
    );
    assert_eq!(
        transcript.read_available(true).unwrap(),
        vec![(turn("a", TurnPhase::Completed), true)]
    );
    let mut registration = fixture();
    registration.current_turn_hook = true;
    let mut transcript = Transcript::open(
        registration,
        &format!("{META}{}", event("task_complete", "a")),
    );
    assert!(transcript.read_available(true).unwrap().is_empty());
}

#[test]
fn a_repeated_record_is_reported_once() {
    let mut transcript = Transcript::open(fixture(), META);
    transcript.read_available(true).unwrap();
    for _ in 0..2 {
        transcript.append(event("task_started", "a").as_bytes());
    }
    transcript.append(b"not a record\n");
    for _ in 0..2 {
        transcript.append(event("turn_aborted", "a").as_bytes());
    }
    assert_eq!(
        transcript.read_available(false).unwrap(),
        vec![
            (turn("a", TurnPhase::Active), false),
            (turn("a", TurnPhase::Aborted), false),
        ]
    );
}

#[test]
fn two_live_passes_report_what_one_does() {
    let contents = [
        META.into(),
        event("task_started", "a"),
        event("task_complete", "a"),
        event("task_complete", "stale"),
        event("task_started", "b"),
        event("turn_aborted", "b"),
    ]
    .concat();
    let mut whole = Transcript::open(fixture(), &contents);
    let expected = whole.read_available(false).unwrap();
    assert_eq!(expected.len(), 4);
    for cut in 0..contents.len() {
        let mut pieces = Transcript::open(fixture(), &contents[..cut]);
        let mut changes = pieces.read_available(false).unwrap();
        pieces.append(contents[cut..].as_bytes());
        changes.extend(pieces.read_available(false).unwrap());
        assert_eq!(changes, expected);
    }
}

#[test]
fn a_handoff_reports_what_the_last_process_would_have() {
    let applied = [
        META.into(),
        event("task_started", "a"),
        event("task_complete", "a"),
        event("task_started", "b"),
    ]
    .concat();
    let further = [
        event("turn_aborted", "b"),
        event("task_started", "c"),
        event("task_complete", "c"),
    ]
    .concat();
    let mut last = Transcript::open(fixture(), &applied);
    let saved = last.read_available(false).unwrap().pop().unwrap().0;
    last.append(further.as_bytes());
    let live = last.read_available(false).unwrap();
    assert_eq!(live.len(), 3);

    let mut registration = fixture();
    registration.replay_after = Some(saved);
    let mut next = Transcript::open(registration, &format!("{applied}{further}"));
    assert_eq!(next.read_available(true).unwrap(), live);
}

#[test]
fn a_session_named_late_lets_a_handoff_report_from_there() {
    let mut registration = fixture();
    registration.replay_after = Some(turn("a", TurnPhase::Active));
    let mut transcript = Transcript::open(
        registration,
        &[
            event("task_started", "a"),
            event("task_complete", "a"),
            META.into(),
            event("task_started", "b"),
        ]
        .concat(),
    );
    assert_eq!(
        transcript.read_available(true).unwrap(),
        vec![(turn("b", TurnPhase::Active), false)]
    );
}

#[test]
fn a_live_pass_of_a_handoff_reports_everything() {
    let mut registration = fixture();
    registration.replay_after = Some(turn("a", TurnPhase::Active));
    let mut transcript = Transcript::open(
        registration,
        &format!("{META}{}", event("task_started", "a")),
    );
    assert!(transcript.read_available(true).unwrap().is_empty());
    transcript.append(event("task_complete", "a").as_bytes());
    assert_eq!(
        transcript.read_available(false).unwrap(),
        vec![(turn("a", TurnPhase::Completed), false)]
    );
}
