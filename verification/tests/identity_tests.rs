use minimal::identity::{bytes_from_str, pad32, session_topic, room_topic, host_secret_seed,
    host_peer_id, PeerId};
use minimal::bootstrap::{plan_for, Role, CONNECTION_TIMEOUT_SECS};

#[test]
fn pads_short_input_with_zero_bytes() {
    let id = bytes_from_str("abc");
    assert_eq!(&id[..3], b"abc");
    assert!(id[3..].iter().all(|&b| b == 0));
}

#[test]
fn empty_input_is_all_zero_bytes() {
    assert_eq!(bytes_from_str(""), [0u8; 32]);
}

#[test]
fn input_of_exactly_32_bytes_is_kept_whole() {
    let s = "abcdefghijklmnopqrstuvwxyz012345";
    assert_eq!(s.len(), 32);
    assert_eq!(&bytes_from_str(s)[..], s.as_bytes());
}

#[test]
fn long_input_is_truncated_to_its_first_32_bytes() {
    let a = "abcdefghijklmnopqrstuvwxyz0123456789";
    let b = "abcdefghijklmnopqrstuvwxyz012345XYZ";
    assert_eq!(bytes_from_str(a), bytes_from_str(b));
    assert_eq!(&bytes_from_str(a)[..], &a.as_bytes()[..32]);
}

#[test]
fn equal_length_short_inputs_with_different_bytes_differ() {
    assert_ne!(pad32(b"abc"), pad32(b"abd"));
}

#[test]
fn room_topic_is_the_padded_prefixed_version() {
    let topic = room_topic();
    let seed = b"the-rivulet/minimal/topic/0.4.0";
    assert_eq!(&topic[..seed.len()], &seed[..]);
    assert!(topic[seed.len()..].iter().all(|&b| b == 0));
}

#[test]
fn host_seed_is_the_padded_prefixed_version() {
    let seed = host_secret_seed();
    let expect = b"the-rivulet/minimal/host/0.4.0";
    assert_eq!(&seed[..expect.len()], &expect[..]);
    assert!(seed[expect.len()..].iter().all(|&b| b == 0));
}

#[test]
fn host_identity_is_not_the_seed_itself() {
    // the public key is derived from the secret bytes, not a copy of them
    let host = host_peer_id();
    assert_ne!(*host.as_bytes(), host_secret_seed());
}

#[test]
fn host_identity_is_deterministic() {
    assert!(host_peer_id().eq_id(&host_peer_id()));
}

#[test]
fn session_topic_embeds_the_id_bytes_zero_padded() {
    // ids are drawn as 64-bit floats; their raw bytes key the topic
    let game_id: f64 = 123456789.5;
    let topic = session_topic(game_id.to_bits());
    assert_eq!(&topic[..8], &game_id.to_le_bytes()[..]);
    assert!(topic[8..].iter().all(|&b| b == 0));
}

#[test]
fn short_label_is_lowercase_hex_of_the_first_five_bytes() {
    let mut bytes = [0u8; 32];
    bytes[0] = 0x0a;
    bytes[1] = 0xff;
    bytes[2] = 0x00;
    bytes[3] = 0x12;
    bytes[4] = 0xcd;
    bytes[5] = 0x99;
    let label = PeerId::from_bytes(bytes).short_label();
    assert_eq!(label, b"0aff0012cd".to_vec());
}

#[test]
fn peer_equality_is_byte_equality() {
    let mut a = [7u8; 32];
    let b = a;
    assert!(PeerId::from_bytes(a).eq_id(&PeerId::from_bytes(b)));
    a[31] = 8;
    assert!(!PeerId::from_bytes(a).eq_id(&PeerId::from_bytes(b)));
}

#[test]
fn open_plan_hosts_with_the_deterministic_key_and_no_timeout() {
    let plan = plan_for(Role::Open);
    assert!(plan.is_host);
    assert_eq!(plan.topic, room_topic());
    assert_eq!(plan.host_secret, Some(host_secret_seed()));
    assert!(plan.bootstrap_peer.is_none());
    assert!(plan.join_timeout_secs.is_none());
}

#[test]
fn join_plan_locates_the_host_under_a_ten_second_bound() {
    let plan = plan_for(Role::Join);
    assert!(!plan.is_host);
    assert_eq!(plan.topic, room_topic());
    assert!(plan.host_secret.is_none());
    assert!(plan.bootstrap_peer.unwrap().eq_id(&host_peer_id()));
    assert_eq!(plan.join_timeout_secs, Some(10));
    assert_eq!(CONNECTION_TIMEOUT_SECS, 10);
}
