use minimal::codec::{MessageBody, MinimalMessage};
use minimal::commands::{parse_line, LineAction};
use minimal::dispatch::{Notice, RoomState};
use minimal::identity::PeerId;
use minimal::session::{session_payload_ends, terminal_large_enough, SessionAction, SessionDims,
    SessionEvent};
use minimal::codec::encode;

fn pid(tag: u8) -> PeerId {
    let mut bytes = [0u8; 32];
    bytes[0] = tag;
    PeerId::from_bytes(bytes)
}

#[test]
fn plain_text_is_chat() {
    assert!(matches!(parse_line(b"hello there\n"), LineAction::Chat));
}

#[test]
fn a_line_is_a_command_only_when_it_starts_with_slash() {
    assert!(matches!(parse_line(b" /min\n"), LineAction::Chat));
}

#[test]
fn empty_line_is_chat() {
    assert!(matches!(parse_line(b""), LineAction::Chat));
}

#[test]
fn nick_takes_the_rest_of_the_line() {
    match parse_line(b"/nick Bea\n") {
        LineAction::Nick { name } => assert_eq!(name, b"Bea".to_vec()),
        _ => panic!("expected a nick"),
    }
}

#[test]
fn nick_keeps_inner_spacing() {
    match parse_line(b"/nick  two  words \n") {
        LineAction::Nick { name } => assert_eq!(name, b" two  words".to_vec()),
        _ => panic!("expected a nick"),
    }
}

#[test]
fn bare_nick_gives_an_empty_name() {
    match parse_line(b"/nick\n") {
        LineAction::Nick { name } => assert!(name.is_empty()),
        _ => panic!("expected a nick"),
    }
}

#[test]
fn quit_and_min_parse() {
    assert!(matches!(parse_line(b"/quit\n"), LineAction::Quit));
    assert!(matches!(parse_line(b"/min\n"), LineAction::Min));
    assert!(matches!(parse_line(b"/min"), LineAction::Min));
}

#[test]
fn unknown_commands_are_rejected() {
    assert!(matches!(parse_line(b"/mood great\n"), LineAction::Unknown));
    assert!(matches!(parse_line(b"/\n"), LineAction::Unknown));
}

#[test]
fn chat_line_is_broadcast_as_typed() {
    let mut room = RoomState::new(pid(1));
    let outcome = room.handle_line(b"hello\n", 0);
    assert!(!outcome.quit);
    assert!(outcome.notices.is_empty());
    match MinimalMessage::from_bytes(&outcome.broadcast.unwrap()).unwrap() {
        MessageBody::Chat { from, text } => {
            assert!(from.eq_id(&pid(1)));
            assert_eq!(text, b"hello\n".to_vec());
        }
        _ => panic!("expected chat"),
    }
}

#[test]
fn nick_line_broadcasts_about_me_and_confirms() {
    let mut room = RoomState::new(pid(1));
    let outcome = room.handle_line(b"/nick Bea\n", 0);
    match &outcome.notices[0] {
        Notice::NickChanged { new_name } => assert_eq!(new_name, &b"Bea".to_vec()),
        _ => panic!("expected a confirmation"),
    }
    match MinimalMessage::from_bytes(&outcome.broadcast.unwrap()).unwrap() {
        MessageBody::AboutMe { from, name } => {
            assert!(from.eq_id(&pid(1)));
            assert_eq!(name, b"Bea".to_vec());
        }
        _ => panic!("expected an announcement"),
    }
}

#[test]
fn quit_line_quits_and_broadcasts_nothing() {
    let mut room = RoomState::new(pid(1));
    let outcome = room.handle_line(b"/quit\n", 0);
    assert!(outcome.quit);
    assert!(outcome.broadcast.is_none());
    assert!(outcome.notices.is_empty());
}

#[test]
fn unknown_line_reports_and_broadcasts_nothing() {
    let mut room = RoomState::new(pid(1));
    let outcome = room.handle_line(b"/mood great\n", 0);
    assert!(!outcome.quit);
    assert!(outcome.broadcast.is_none());
    match &outcome.notices[0] {
        Notice::UnknownCommand { line } => assert_eq!(line, &b"/mood great".to_vec()),
        _ => panic!("expected an unknown-command notice"),
    }
}

#[test]
fn terminal_size_threshold_is_30_by_7() {
    assert!(terminal_large_enough(30, 7));
    assert!(!terminal_large_enough(29, 7));
    assert!(!terminal_large_enough(30, 6));
    assert!(terminal_large_enough(100, 40));
}

#[test]
fn quit_key_aborts_the_session() {
    let mut dims = SessionDims { cols: 80, rows: 24 };
    let action = dims.step(&SessionEvent::KeyChar { c: b'q' });
    assert_eq!(action, SessionAction::AbortQuit);
    let action = dims.step(&SessionEvent::KeyChar { c: b'a' });
    assert_eq!(action, SessionAction::Redraw);
}

#[test]
fn resize_below_the_minimum_aborts() {
    let mut dims = SessionDims { cols: 80, rows: 24 };
    let action = dims.step(&SessionEvent::Resized { cols: 10, rows: 4 });
    assert_eq!(action, SessionAction::AbortTooSmall);
    assert_eq!(dims.cols, 10);
    assert_eq!(dims.rows, 4);
    let action = dims.step(&SessionEvent::Resized { cols: 80, rows: 24 });
    assert_eq!(action, SessionAction::Redraw);
}

#[test]
fn mouse_movement_marks_the_next_cell() {
    let mut dims = SessionDims { cols: 80, rows: 24 };
    let action = dims.step(&SessionEvent::MouseMoved { col: 3, row: 5 });
    assert_eq!(action, SessionAction::MarkCursor { col: 4, row: 6 });
}

#[test]
fn losing_raw_mode_stops_without_broadcasting() {
    let mut dims = SessionDims { cols: 80, rows: 24 };
    let action = dims.step(&SessionEvent::RawModeLost);
    assert_eq!(action, SessionAction::StopOpponentGone);
}

#[test]
fn session_listener_stops_on_the_peers_abort() {
    let abort = encode(MessageBody::GameAborted);
    assert_eq!(session_payload_ends(&abort), Ok(true));
    let chat = encode(MessageBody::Chat { from: pid(2), text: b"x".to_vec() });
    assert_eq!(session_payload_ends(&chat), Ok(false));
    assert!(session_payload_ends(&[0u8; 3]).is_err());
}
