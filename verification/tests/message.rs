use core_challenges::wire::WireError;
use core_challenges::{Challenge, P2PMessage, Solution};

fn samples() -> Vec<P2PMessage> {
    vec![
        P2PMessage::Challenge(Challenge { name: "pow".to_string(), payload: vec![1, 2, 3] }),
        P2PMessage::Challenge(Challenge { name: String::new(), payload: vec![] }),
        P2PMessage::Challenge(Challenge { name: "dummy".to_string(), payload: vec![0; 300] }),
        P2PMessage::Reply(Solution { payload: vec![] }),
        P2PMessage::Reply(Solution { payload: vec![252, 31, 128, 115, 7] }),
        P2PMessage::YouWin(String::new()),
        P2PMessage::YouWin("Solución inválida".to_string()),
    ]
}

#[test]
fn every_message_survives_the_round_trip() {
    for m in samples() {
        assert_eq!(P2PMessage::decode(&m.encode()), Ok(m));
    }
}

#[test]
fn empty_you_win_survives_the_round_trip() {
    let m = P2PMessage::YouWin(String::new());
    assert_eq!(m.encode(), vec![2, 0]);
    assert_eq!(P2PMessage::decode(&[2, 0]), Ok(m));
}

#[test]
fn empty_challenge_payload_survives_the_round_trip() {
    let m = P2PMessage::Challenge(Challenge { name: "pow".to_string(), payload: vec![] });
    assert_eq!(m.encode(), vec![0, 3, b'p', b'o', b'w', 0]);
    assert_eq!(P2PMessage::decode(&m.encode()), Ok(m));
}

#[test]
fn variants_are_tagged_in_order_of_declaration() {
    let c = P2PMessage::Challenge(Challenge { name: "a".to_string(), payload: vec![9] });
    let r = P2PMessage::Reply(Solution { payload: vec![9, 8] });
    let w = P2PMessage::YouWin("ok".to_string());
    assert_eq!(c.encode(), vec![0, 1, b'a', 1, 9]);
    assert_eq!(r.encode(), vec![1, 2, 9, 8]);
    assert_eq!(w.encode(), vec![2, 2, b'o', b'k']);
}

#[test]
fn messages_match_the_encoder_of_record() {
    let config = bincode::config::standard();
    let c = P2PMessage::Challenge(Challenge { name: "pow".to_string(), payload: vec![5; 400] });
    assert_eq!(c.encode(), bincode::encode_to_vec((0u32, "pow", vec![5u8; 400]), config).unwrap());
    let r = P2PMessage::Reply(Solution { payload: vec![1, 2] });
    assert_eq!(r.encode(), bincode::encode_to_vec((1u32, vec![1u8, 2]), config).unwrap());
    let w = P2PMessage::YouWin("razón".to_string());
    assert_eq!(w.encode(), bincode::encode_to_vec((2u32, "razón"), config).unwrap());
}

#[test]
fn bytes_behind_a_message_are_ignored() {
    let m = P2PMessage::Reply(Solution { payload: vec![4] });
    let mut bytes = m.encode();
    bytes.extend_from_slice(&[1, 2, 3]);
    assert_eq!(P2PMessage::decode(&bytes), Ok(m));
}

#[test]
fn an_unknown_tag_is_refused() {
    assert_eq!(P2PMessage::decode(&[3, 0]), Err(WireError::UnknownVariant(3)));
    assert_eq!(P2PMessage::decode(&[251, 44, 1]), Err(WireError::UnknownVariant(300)));
}

#[test]
fn broken_messages_are_refused() {
    assert_eq!(P2PMessage::decode(&[]), Err(WireError::BadInteger));
    assert_eq!(P2PMessage::decode(&[0]), Err(WireError::BadInteger));
    assert_eq!(P2PMessage::decode(&[0, 3, b'p']), Err(WireError::LengthOverrun));
    assert_eq!(P2PMessage::decode(&[0, 1, b'p']), Err(WireError::BadInteger));
    assert_eq!(P2PMessage::decode(&[0, 1, b'p', 4, 1]), Err(WireError::LengthOverrun));
    assert_eq!(P2PMessage::decode(&[1, 2, 1]), Err(WireError::LengthOverrun));
    assert_eq!(P2PMessage::decode(&[2, 1, 0xff]), Err(WireError::BadText));
    assert_eq!(P2PMessage::decode(&[0, 1, 0xff, 0]), Err(WireError::BadText));
}
