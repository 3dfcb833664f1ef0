use minimal::identity::PeerId;
use minimal::matchmaking::{MatchSlot, MinDecision};

fn pid(tag: u8) -> PeerId {
    let mut bytes = [0u8; 32];
    bytes[0] = tag;
    PeerId::from_bytes(bytes)
}

#[test]
fn starts_empty() {
    let slot = MatchSlot::empty();
    assert!(slot.current().is_none());
}

#[test]
fn request_seats_the_sender() {
    let mut slot = MatchSlot::empty();
    slot.on_game_request(&pid(1));
    assert!(slot.current().unwrap().eq_id(&pid(1)));
}

#[test]
fn later_request_overwrites_the_earlier_one() {
    // last request wins; the slot never holds more than one challenger
    let mut slot = MatchSlot::empty();
    slot.on_game_request(&pid(1));
    slot.on_game_request(&pid(2));
    assert!(slot.current().unwrap().eq_id(&pid(2)));
}

#[test]
fn game_start_empties_the_slot() {
    let mut slot = MatchSlot::empty();
    slot.on_game_request(&pid(1));
    slot.on_game_start();
    assert!(slot.current().is_none());
}

#[test]
fn game_start_on_an_empty_slot_keeps_it_empty() {
    let mut slot = MatchSlot::empty();
    slot.on_game_start();
    assert!(slot.current().is_none());
}

#[test]
fn slot_after_any_sequence_is_decided_by_the_last_event() {
    let mut slot = MatchSlot::empty();
    slot.on_game_request(&pid(1));
    slot.on_game_start();
    slot.on_game_request(&pid(2));
    slot.on_game_request(&pid(3));
    slot.on_game_start();
    assert!(slot.current().is_none());
}

#[test]
fn local_min_on_an_empty_slot_queues_this_node() {
    let mut slot = MatchSlot::empty();
    let me = pid(10);
    match slot.local_min(&me, 42) {
        MinDecision::Queued => {}
        _ => panic!("expected to queue"),
    }
    assert!(slot.current().unwrap().eq_id(&me));
}

#[test]
fn local_min_on_a_held_slot_accepts_and_clears() {
    let mut slot = MatchSlot::empty();
    let challenger = pid(1);
    slot.on_game_request(&challenger);
    match slot.local_min(&pid(10), 42) {
        MinDecision::Accept { orig_sender, game_id } => {
            assert!(orig_sender.eq_id(&challenger));
            assert_eq!(game_id, 42);
        }
        _ => panic!("expected to accept"),
    }
    assert!(slot.current().is_none());
}
