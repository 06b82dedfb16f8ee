use dpedal::model::{ComputerInput, Config, DpedalInput, Mapping, Profile};
use dpedal::protocol::{
    decode_frame, encode_frame, frame_message, packets, CobsAccumulator, FeedResult, PacketAction,
    Request, Response, WebConfig, COBS_BUFFER_SIZE,
};
use dpedal::store::ConfigFlash;

fn message(len: usize) -> Vec<u8> {
    (0..len).map(|i| (i % 7) as u8).collect()
}

fn success(r: FeedResult) -> Vec<u8> {
    match r {
        FeedResult::Success(d) => d,
        other => panic!("expected a frame, got {:?}", other),
    }
}

#[test]
fn cobs_known_encodings() {
    assert_eq!(encode_frame(&[]), vec![1]);
    assert_eq!(encode_frame(&[0]), vec![1, 1]);
    assert_eq!(encode_frame(&[0x11, 0x22, 0x00, 0x33]), vec![3, 0x11, 0x22, 2, 0x33]);
    let long: Vec<u8> = (1..=254u32).map(|i| i as u8).collect();
    let mut expected = vec![0xff];
    expected.extend(&long);
    assert_eq!(encode_frame(&long), expected);
    assert_eq!(decode_frame(&[3, 0x11, 0x22, 2, 0x33]), Some(vec![0x11, 0x22, 0x00, 0x33]));
    assert_eq!(decode_frame(&[5, 1]), None);
}

#[test]
fn cobs_round_trips() {
    for len in [0usize, 1, 6, 253, 254, 255, 600] {
        let m = message(len);
        assert_eq!(decode_frame(&encode_frame(&m)), Some(m.clone()));
        let ones = vec![1u8; len];
        assert_eq!(decode_frame(&encode_frame(&ones)), Some(ones));
    }
}

#[test]
fn split_frame_decodes_like_whole_frame() {
    let m = message(300);
    let frame = frame_message(&m);
    let mut whole = CobsAccumulator::new();
    assert_eq!(success(whole.feed(&frame)), m);
    for size in [1usize, 2, 17, 63, 64] {
        let mut acc = CobsAccumulator::new();
        let pieces: Vec<&[u8]> = frame.chunks(size).collect();
        for p in &pieces[..pieces.len() - 1] {
            assert!(matches!(acc.feed(p), FeedResult::Consumed));
        }
        assert_eq!(success(acc.feed(pieces[pieces.len() - 1])), m);
    }
}

#[test]
fn overflow_then_recovery() {
    let mut acc = CobsAccumulator::new();
    let big = vec![1u8; COBS_BUFFER_SIZE + 100];
    let mut saw_overflow = false;
    for p in big.chunks(64) {
        if matches!(acc.feed(p), FeedResult::OverFull) {
            saw_overflow = true;
        }
    }
    assert!(saw_overflow);
    // The end of the oversized message.
    let _ = acc.feed(&[0]);
    let m = message(40);
    let frame = frame_message(&m);
    assert!(matches!(acc.feed(&frame[..10]), FeedResult::Consumed));
    assert_eq!(success(acc.feed(&frame[10..])), m);
    assert!(matches!(acc.feed(&[]), FeedResult::Consumed));
    assert!(matches!(acc.feed(&[9, 1, 0]), FeedResult::DeserError));
}

#[test]
fn packets_are_at_most_sixty_four_bytes() {
    let frame = message(130);
    let p = packets(&frame);
    assert_eq!(p.len(), 3);
    assert_eq!(p[0], frame[..64].to_vec());
    assert_eq!(p[1], frame[64..128].to_vec());
    assert_eq!(p[2], frame[128..].to_vec());
    assert!(packets(&[]).is_empty());
}

#[test]
fn session_rejects_bad_frames_and_keeps_going() {
    let mut web = WebConfig::new();
    let big = vec![1u8; COBS_BUFFER_SIZE + 1];
    let mut rejected = false;
    for p in big.chunks(64) {
        if matches!(web.receive(p), PacketAction::Reject) {
            rejected = true;
        }
    }
    assert!(rejected);
    assert!(matches!(web.receive(&[0]), PacketAction::Decode(_) | PacketAction::Reject));
    let frame = frame_message(&[0, 1]);
    match web.receive(&frame) {
        PacketAction::Decode(d) => assert_eq!(d, vec![0, 1]),
        other => panic!("expected a request, got {:?}", other),
    }
}

#[test]
fn get_and_set_config_requests() {
    let mut flash = ConfigFlash::erased();
    assert_eq!(
        WebConfig::handle_request(&mut flash, &Request::GetConfig, None),
        Response::GetConfig(Err(()))
    );
    let blob = vec![4u8, 5, 6];
    let config = Config::default();
    assert_eq!(
        WebConfig::handle_request(&mut flash, &Request::SetConfig(blob.clone()), Some(&config)),
        Response::SetConfig
    );
    assert_eq!(
        WebConfig::handle_request(&mut flash, &Request::GetConfig, None),
        Response::GetConfig(Ok(blob.clone()))
    );
    assert_eq!(
        WebConfig::handle_request(&mut flash, &Request::SetConfig(vec![9]), None),
        Response::ProtocolError
    );
    assert_eq!(
        WebConfig::handle_request(&mut flash, &Request::GetConfig, None),
        Response::GetConfig(Ok(blob))
    );
}

#[test]
fn set_config_with_twenty_five_mappings_is_refused() {
    let mut flash = ConfigFlash::erased();
    let mut config = Config::default();
    let one = Mapping { input: vec![DpedalInput::DpadUp], output: vec![ComputerInput::Nothing] };
    config.profiles = vec![Profile { mappings: vec![one; 25] }];
    let before = flash.region.clone();
    assert_eq!(
        WebConfig::handle_request(&mut flash, &Request::SetConfig(vec![1, 2]), Some(&config)),
        Response::ProtocolError
    );
    assert_eq!(flash.region, before);
}
