use slc_oxide::Meta;
use siliconv::action::{Action, PlayerButton, RestartType, TimePoint, TimedAction};
use siliconv::container::{Slc2Meta, Slc3Action, Slc3Contents, Slc3RecordKind};
use siliconv::dynamic::DynamicReplay;
use siliconv::error::CodecError;
use siliconv::format::Format;
use siliconv::meta::{MetaField, MetaKey, SilicateMeta};
use siliconv::replay::Replay;
use siliconv::silicate::{decode_slc1_record, detect_format, encode_slc3_records, SilicateReplay};
use siliconv::version::GameVersion;

fn tps(v: f64) -> u64 {
    v.to_bits()
}

fn at(frame: u64, action: Action) -> TimedAction {
    TimedAction { time: TimePoint::Frame(frame), action, position: None }
}

fn player(button: PlayerButton, hold: bool, player2: bool) -> Action {
    Action::Player { button, hold, player2 }
}

fn read_text(e: &CodecError) -> String {
    match e {
        CodecError::ReadError(m) => m.clone(),
        CodecError::WriteError(m) => panic!("expected a read error, got write error {m}"),
    }
}

fn slc1_bytes(rate: f64, records: &[u32], seed: Option<u64>) -> Vec<u8> {
    let mut b = rate.to_le_bytes().to_vec();
    b.extend_from_slice(&(records.len() as u32).to_le_bytes());
    for r in records {
        b.extend_from_slice(&r.to_le_bytes());
    }
    if let Some(s) = seed {
        b.extend_from_slice(&s.to_le_bytes());
    }
    b
}

fn empty_slc3(rate: f64, seed: u64) -> Vec<u8> {
    let mut b = b"SLC3RPLY".to_vec();
    b.extend_from_slice(&64u16.to_le_bytes());
    b.extend_from_slice(&rate.to_le_bytes());
    b.extend_from_slice(&seed.to_le_bytes());
    b.extend_from_slice(&1u32.to_le_bytes());
    b.extend_from_slice(&0u32.to_le_bytes());
    b.extend_from_slice(&[0u8; 40]);
    b.push(0xCC);
    b
}

#[test]
fn slc1_record_unpacks_bit_fields() {
    let r = decode_slc1_record(0x0000_0027);
    assert_eq!(r, Some(at(2, player(PlayerButton::Right, true, false))));
}

#[test]
fn slc1_record_with_bit_three_is_second_player() {
    // 0x29 sets bits 0, 3 and 5: hold, the second player, frame 2, and
    // button code 0, which no button stands for.
    assert_eq!(decode_slc1_record(0x0000_0029), None);
    let bytes = slc1_bytes(240.0, &[0x29], None);
    assert!(matches!(SilicateReplay::read_slc1(&bytes), Err(CodecError::ReadError(_))));
}

#[test]
fn slc1_record_second_player_and_left() {
    // frame 7, player 2, code 2 (left), released
    let state: u32 = (7 << 4) | 0b1000 | (2 << 1);
    assert_eq!(decode_slc1_record(state), Some(at(7, player(PlayerButton::Left, false, true))));
}

#[test]
fn slc1_record_code_zero_is_refused() {
    assert_eq!(decode_slc1_record(0x0000_0031), None);
}

#[test]
fn slc1_seed_falls_back_without_trailing_bytes() {
    let bytes = slc1_bytes(240.0, &[0x27, 0x32], None);
    assert_eq!(bytes.len(), 8 + 4 + 2 * 4);
    let r = SilicateReplay::read_slc1(&bytes).unwrap().into_replay();
    let meta = SilicateMeta::from_fields(&r.meta);
    assert_eq!(meta.seed, 2137);
    assert_eq!(meta.tps_bits, tps(240.0));
    assert_eq!(r.format, Format::Slc1);
    assert_eq!(r.game_version, GameVersion { major: 22, minor: 60 });
    assert_eq!(
        r.actions,
        vec![
            at(2, player(PlayerButton::Right, true, false)),
            at(3, player(PlayerButton::Jump, false, false)),
        ]
    );
}

#[test]
fn slc1_reads_trailing_seed() {
    let bytes = slc1_bytes(360.0, &[0x27], Some(42));
    let r = SilicateReplay::read_slc1(&bytes).unwrap().into_replay();
    let meta = SilicateMeta::from_fields(&r.meta);
    assert_eq!(meta.seed, 42);
    assert_eq!(meta.tps_bits, tps(360.0));
}

#[test]
fn slc1_short_seed_falls_back() {
    let mut bytes = slc1_bytes(240.0, &[0x27], None);
    bytes.extend_from_slice(&[1, 2, 3]);
    let r = SilicateReplay::read_slc1(&bytes).unwrap().into_replay();
    assert_eq!(SilicateMeta::from_fields(&r.meta).seed, 2137);
}

#[test]
fn slc1_truncated_records_fail() {
    let mut bytes = slc1_bytes(240.0, &[0x27, 0x27], None);
    bytes.truncate(bytes.len() - 1);
    assert!(matches!(SilicateReplay::read_slc1(&bytes), Err(CodecError::ReadError(_))));
    assert!(matches!(SilicateReplay::read_slc1(&[0u8; 5]), Err(CodecError::ReadError(_))));
}

#[test]
fn slc1_button_code_zero_fails() {
    let bytes = slc1_bytes(240.0, &[0x27, 0x30], None);
    assert!(matches!(SilicateReplay::read_slc1(&bytes), Err(CodecError::ReadError(_))));
}

#[test]
fn format_is_told_by_header() {
    assert_eq!(detect_format(b"SLC3RPLYxx").unwrap(), Format::Slc3);
    assert_eq!(detect_format(b"SILLabcd").unwrap(), Format::Slc2);
    assert_eq!(detect_format(b"SLC3RPLX").unwrap(), Format::Slc1);
    assert_eq!(detect_format(&[0u8; 12]).unwrap(), Format::Slc1);
    assert!(matches!(detect_format(b"SLC3"), Err(CodecError::ReadError(_))));
}

#[test]
fn slc3_without_action_atom_fails() {
    let bytes = empty_slc3(240.0, 5);
    let e = SilicateReplay::read_slc3(&bytes).err().unwrap();
    assert!(read_text(&e).contains("missing action atom"));
    let e = SilicateReplay::read(&bytes).err().unwrap();
    assert!(read_text(&e).contains("missing action atom"));
}

#[test]
fn slc3_contents_use_first_action_atom() {
    let rec = |frame: u64, kind: u8| Slc3Action {
        frame,
        kind,
        holding: true,
        player2: false,
        seed: 9,
        tps_bits: tps(480.0),
    };
    let c = Slc3Contents {
        tps_bits: tps(240.0),
        seed: 11,
        atoms: vec![None, Some(vec![rec(1, 1), rec(4, 5), rec(6, 7), rec(6, 0)]), Some(vec![rec(9, 2)])],
    };
    let r = SilicateReplay::from_slc3_contents(&c).ok().unwrap().into_replay();
    assert_eq!(
        r.actions,
        vec![
            at(1, player(PlayerButton::Jump, true, false)),
            at(4, Action::Restart { restart_type: RestartType::RestartFull, seed: Some(9) }),
            at(6, Action::TPS { tps_bits: tps(480.0) }),
            at(6, Action::Empty),
        ]
    );
    assert_eq!(r.format, Format::Slc3);
    assert_eq!(r.game_version, GameVersion { major: 22, minor: 74 });
    assert_eq!(SilicateMeta::from_fields(&r.meta), SilicateMeta { tps_bits: tps(240.0), seed: 11 });
    let none = Slc3Contents { tps_bits: 0, seed: 0, atoms: vec![None] };
    let e = SilicateReplay::from_slc3_contents(&none).err().unwrap();
    assert_eq!(read_text(&e), "missing action atom in slc3 replay");
}

#[test]
fn slc3_garbage_is_a_read_error() {
    let e = SilicateReplay::read_slc3(b"SLC3RPLY\x01\x00").err().unwrap();
    assert!(read_text(&e).starts_with("failed to read slc3 replay: "));
}

#[test]
fn unknown_hint_is_refused() {
    let e = DynamicReplay::read(&[], "xyz").err().unwrap();
    assert!(read_text(&e).contains("could not determine format"));
}

#[test]
fn slc_hint_reads_silicate() {
    let bytes = slc1_bytes(240.0, &[0x27], Some(3));
    let d = DynamicReplay::read(&bytes, "slc").ok().unwrap();
    assert_eq!(d.0.format, Format::Slc1);
    assert_eq!(d.0.actions.len(), 1);
}

#[test]
fn missing_tps_defaults_to_240() {
    let fields = vec![MetaField { key: MetaKey::Seed, value: 77, default: None }];
    let m = SilicateMeta::from_fields(&fields);
    assert_eq!(f64::from_bits(m.tps_bits), 240.0);
    assert_eq!(m.seed, 77);
    let m = SilicateMeta::from_fields(&vec![]);
    assert_eq!(m, SilicateMeta { tps_bits: tps(240.0), seed: 0 });
}

#[test]
fn meta_fields_round_trip() {
    let m = SilicateMeta { tps_bits: tps(144.0), seed: 123 };
    assert_eq!(SilicateMeta::from_fields(&m.fields()), m);
}

#[test]
fn deltas_follow_absolute_frames() {
    let actions = vec![
        at(10, player(PlayerButton::Jump, true, false)),
        at(10, player(PlayerButton::Jump, false, false)),
        at(25, player(PlayerButton::Left, true, true)),
    ];
    let recs = encode_slc3_records(&actions);
    let deltas: Vec<u64> = recs.iter().map(|r| r.delta).collect();
    assert_eq!(deltas, vec![10, 0, 15]);
    let mut frame = 0;
    let mut frames = Vec::new();
    for r in &recs {
        assert_eq!(r.base, frame);
        frame += r.delta;
        frames.push(frame);
    }
    assert_eq!(frames, vec![10, 10, 25]);
}

#[test]
fn encoder_drops_late_frames_and_skips_noops() {
    let actions = vec![
        at(5, Action::Empty),
        at(8, Action::Restart { restart_type: RestartType::Death, seed: None }),
        at(3, player(PlayerButton::Jump, true, false)),
        at(9, Action::TPS { tps_bits: tps(60.0) }),
    ];
    let recs = encode_slc3_records(&actions);
    assert_eq!(recs.len(), 2);
    assert_eq!((recs[0].base, recs[0].delta), (5, 3));
    assert_eq!(
        recs[0].kind,
        Slc3RecordKind::Death { restart_type: RestartType::Death, seed: 2137 }
    );
    assert_eq!((recs[1].base, recs[1].delta), (8, 1));
    assert_eq!(recs[1].kind, Slc3RecordKind::Tps { tps_bits: tps(60.0) });
}

#[test]
fn slc3_write_then_read_round_trips() {
    let actions = vec![
        at(10, player(PlayerButton::Jump, true, false)),
        at(10, player(PlayerButton::Jump, false, false)),
        at(25, player(PlayerButton::Right, true, true)),
        at(40, Action::Restart { restart_type: RestartType::Restart, seed: None }),
        at(41, Action::Restart { restart_type: RestartType::Death, seed: Some(99) }),
        at(300, Action::TPS { tps_bits: tps(480.0) }),
        at(70000, player(PlayerButton::Left, false, false)),
    ];
    let meta = SilicateMeta { tps_bits: tps(360.0), seed: 4242 };
    let replay = Replay {
        meta: meta.fields(),
        actions: actions.clone(),
        format: Format::Slc1,
        game_version: GameVersion { major: 22, minor: 60 },
    };
    let bytes = SilicateReplay::new(replay).write().ok().unwrap();
    assert_eq!(&bytes[0..8], b"SLC3RPLY");
    let back = SilicateReplay::read(&bytes).ok().unwrap().into_replay();
    let mut expected = actions;
    expected[3] = at(40, Action::Restart { restart_type: RestartType::Restart, seed: Some(2137) });
    assert_eq!(back.actions, expected);
    assert_eq!(SilicateMeta::from_fields(&back.meta), meta);
    assert_eq!(back.format, Format::Slc3);
}

#[test]
fn slc3_write_applies_default_tps() {
    let replay = Replay {
        meta: vec![MetaField { key: MetaKey::Seed, value: 8, default: None }],
        actions: vec![at(1, player(PlayerButton::Jump, true, false))],
        format: Format::Slc2,
        game_version: GameVersion { major: 22, minor: 74 },
    };
    let bytes = SilicateReplay::new(replay).write_slc3().ok().unwrap();
    let back = SilicateReplay::read_slc3(&bytes).ok().unwrap().into_replay();
    assert_eq!(SilicateMeta::from_fields(&back.meta), SilicateMeta { tps_bits: tps(240.0), seed: 8 });
}

#[test]
fn slc2_container_is_read() {
    let mut r = slc_oxide::Replay::<Slc2Meta>::new(240.0, Slc2Meta { seed: 31, reserved: vec![7; 56] });
    let p = |button: u8, hold: bool, player_2: bool| {
        slc_oxide::InputData::Player(slc_oxide::PlayerInput { hold, player_2, button })
    };
    r.add_input(5, p(1, true, false));
    r.add_input(6, slc_oxide::InputData::Skip);
    r.add_input(9, p(3, false, true));
    r.add_input(12, slc_oxide::InputData::Restart);
    r.add_input(13, slc_oxide::InputData::RestartFull);
    r.add_input(14, slc_oxide::InputData::Death);
    r.add_input(20, slc_oxide::InputData::TPS(120.0));
    let mut bytes = Vec::new();
    r.write(&mut bytes).unwrap();
    assert_eq!(&bytes[0..4], b"SILL");
    let back = SilicateReplay::read(&bytes).ok().unwrap().into_replay();
    assert_eq!(back.format, Format::Slc2);
    assert_eq!(back.game_version, GameVersion { major: 22, minor: 74 });
    assert_eq!(SilicateMeta::from_fields(&back.meta), SilicateMeta { tps_bits: tps(240.0), seed: 31 });
    assert_eq!(
        back.actions,
        vec![
            at(5, player(PlayerButton::Jump, true, false)),
            at(9, player(PlayerButton::Right, false, true)),
            at(12, Action::Restart { restart_type: RestartType::Restart, seed: None }),
            at(13, Action::Restart { restart_type: RestartType::RestartFull, seed: None }),
            at(14, Action::Restart { restart_type: RestartType::Death, seed: None }),
            at(20, Action::TPS { tps_bits: tps(120.0) }),
        ]
    );
}

#[test]
fn slc2_bad_container_is_a_read_error() {
    let e = SilicateReplay::read_slc2(b"SILL\x00\x00").err().unwrap();
    assert!(read_text(&e).starts_with("failed to read slc2 replay: "));
}

#[test]
fn slc2_meta_block_round_trips() {
    assert_eq!(Slc2Meta::size(), 64);
    let reserved: Vec<u8> = (0..56).collect();
    let m = Slc2Meta { seed: 0x0102_0304_0506_0708, reserved: reserved.clone() };
    let block = m.to_bytes();
    assert_eq!(block.len(), 64);
    assert_eq!(&block[0..8], &[8, 7, 6, 5, 4, 3, 2, 1]);
    assert_eq!(&block[8..64], reserved.as_slice());
    let back = Slc2Meta::from_bytes(&block);
    assert_eq!(back.seed, m.seed);
    assert_eq!(back.reserved, reserved);
    let short = Slc2Meta::from_bytes(&[]);
    assert_eq!((short.seed, short.reserved), (0, vec![0u8; 56]));
    let padded = Slc2Meta { seed: 1, reserved: vec![] }.to_bytes();
    assert!(padded[8..64].iter().all(|b| *b == 0));
}

#[test]
fn slc1_errors_name_the_revision() {
    let e = SilicateReplay::read_slc1(&[0u8; 5]).err().unwrap();
    assert_eq!(read_text(&e), "failed to read slc1 replay: unexpected end of stream");
    let e = SilicateReplay::read(&[0u8; 3]).err().unwrap();
    assert!(read_text(&e).starts_with("failed to read replay: "));
}

fn slc2_head(length: u64, blobs: &[(u64, u64, u64)]) -> Vec<u8> {
    let mut b = b"SILL".to_vec();
    b.extend_from_slice(&240.0f64.to_le_bytes());
    b.extend_from_slice(&64u64.to_le_bytes());
    b.extend_from_slice(&[0u8; 64]);
    b.extend_from_slice(&length.to_le_bytes());
    b.extend_from_slice(&(blobs.len() as u64).to_le_bytes());
    for (size, start, len) in blobs {
        b.extend_from_slice(&size.to_le_bytes());
        b.extend_from_slice(&start.to_le_bytes());
        b.extend_from_slice(&len.to_le_bytes());
    }
    b
}

#[test]
fn slc2_blob_with_wrong_start_is_refused() {
    let mut b = slc2_head(1, &[(1, 5, 1)]);
    b.push(0x24);
    b.extend_from_slice(b"EOM");
    let e = SilicateReplay::read_slc2(&b).err().unwrap();
    assert_eq!(read_text(&e), "failed to read slc2 replay: malformed container");
}

#[test]
fn slc2_huge_input_count_is_refused() {
    let mut b = slc2_head(u64::MAX, &[]);
    b.extend_from_slice(b"EOM");
    let e = SilicateReplay::read_slc2(&b).err().unwrap();
    assert_eq!(read_text(&e), "failed to read slc2 replay: malformed container");
}

#[test]
fn slc2_frame_overflow_is_refused() {
    let mut b = slc2_head(40, &[(8, 0, 40)]);
    for _ in 0..40 {
        b.extend_from_slice(&(u64::MAX & !0x1f).to_le_bytes());
    }
    b.extend_from_slice(b"EOM");
    let e = SilicateReplay::read_slc2(&b).err().unwrap();
    assert_eq!(read_text(&e), "failed to read slc2 replay: malformed container");
}

#[test]
fn slc3_huge_action_count_is_refused() {
    let mut b = empty_slc3(240.0, 1);
    let footer = b.pop().unwrap();
    b.extend_from_slice(&1u32.to_le_bytes());
    b.extend_from_slice(&0u64.to_le_bytes());
    b.extend_from_slice(&u64::MAX.to_le_bytes());
    b.push(footer);
    let e = SilicateReplay::read_slc3(&b).err().unwrap();
    assert_eq!(read_text(&e), "failed to read slc3 replay: malformed container");
}

#[test]
fn slc3_huge_opaque_atom_is_refused() {
    let mut b = empty_slc3(240.0, 1);
    let footer = b.pop().unwrap();
    b.extend_from_slice(&0u32.to_le_bytes());
    b.extend_from_slice(&u64::MAX.to_le_bytes());
    b.push(footer);
    let e = SilicateReplay::read_slc3(&b).err().unwrap();
    assert_eq!(read_text(&e), "failed to read slc3 replay: malformed container");
}

#[test]
fn slc2_written_by_library_with_many_inputs_is_read() {
    let mut r = slc_oxide::Replay::<Slc2Meta>::new(240.0, Slc2Meta { seed: 1, reserved: vec![0; 56] });
    for i in 0..300u64 {
        let p = slc_oxide::PlayerInput { hold: i % 2 == 0, player_2: false, button: 1 };
        r.add_input(i * 37 + (i / 10) * 5000, slc_oxide::InputData::Player(p));
    }
    let mut bytes = Vec::new();
    r.write(&mut bytes).unwrap();
    let back = match SilicateReplay::read_slc2(&bytes) {
        Ok(r) => r.into_replay(),
        Err(e) => panic!("{}", read_text(&e)),
    };
    assert_eq!(back.actions.len(), 300);
}

#[test]
fn slc3_long_replay_round_trips_through_framing_check() {
    let mut actions = Vec::new();
    for i in 0..400u64 {
        let f = i * 10;
        actions.push(at(f, player(PlayerButton::Jump, true, false)));
        actions.push(at(f, player(PlayerButton::Jump, false, false)));
    }
    actions.push(at(5000, Action::Restart { restart_type: RestartType::Death, seed: Some(3) }));
    actions.push(at(5000 + (1u64 << 40), player(PlayerButton::Left, true, true)));
    let replay = Replay {
        meta: SilicateMeta { tps_bits: tps(240.0), seed: 9 }.fields(),
        actions: actions.clone(),
        format: Format::Slc3,
        game_version: GameVersion { major: 22, minor: 74 },
    };
    let bytes = SilicateReplay::new(replay).write().ok().unwrap();
    let back = match SilicateReplay::read(&bytes) {
        Ok(r) => r.into_replay(),
        Err(e) => panic!("{}", read_text(&e)),
    };
    assert_eq!(back.actions, actions);
}
