use ripped::replay::{ParseError, Replay};
use ripped::state::{State, Theme};

/// Builds the start-block payload of a minimal replay file: one human
/// player on the given stage, the other ports empty. Without a name tag
/// the file claims format version 0.1; with one, version 1.3 (the first
/// with name tags).
fn start_payload(stage: u16, character: u8, name_tag: Option<&[u8]>) -> Vec<u8> {
    let mut start = vec![0u8; if name_tag.is_some() { 416 } else { 320 }];
    // format version (major, minor, patch, build)
    if name_tag.is_some() {
        start[0] = 1;
        start[1] = 3;
    } else {
        start[1] = 1;
    }
    // stage, big-endian
    start[18] = (stage >> 8) as u8;
    start[19] = (stage & 0xff) as u8;
    // per-port blocks of 36 bytes from offset 100: character, player type
    // (0 = human), starting stocks; an invalid type marks the port empty
    start[100] = character;
    start[101] = 0;
    start[102] = 4;
    for port in 1..4 {
        start[100 + port * 36 + 1] = 0xff;
    }
    if let Some(tag) = name_tag {
        // version 1.3 name-tag block of port 0, after four 8-byte blocks
        start[352..352 + tag.len()].copy_from_slice(tag);
    }
    start
}

/// Wraps a start-block payload as a whole replay file: signature, raw
/// length, event payload sizes, the start event, and a game-end event.
fn replay_file(start: &[u8]) -> Vec<u8> {
    let start_size = start.len() as u16;
    let mut raw = vec![
        0x35, // event payload sizes
        0x07,
        0x36, // game start
        (start_size >> 8) as u8,
        (start_size & 0xff) as u8,
        0x39, // game end
        0x00,
        0x01,
        0x36,
    ];
    raw.extend_from_slice(start);
    raw.extend_from_slice(&[0x39, 0x03]); // game end: resolved
    let mut file = vec![
        0x7b, 0x55, 0x03, 0x72, 0x61, 0x77, 0x5b, 0x24, 0x55, 0x23, 0x6c,
    ];
    file.extend_from_slice(&(raw.len() as u32).to_be_bytes());
    file.extend_from_slice(&raw);
    file.push(0x7d);
    file
}

fn fresh_state() -> State {
    match State::new() {
        Ok(s) => s,
        Err(_) => panic!("opening the in-memory database failed"),
    }
}

#[test]
fn new_state_defaults() {
    let state = fresh_state();
    assert_eq!(state.theme, Theme::Light);
    assert_eq!(state.folder, "/home/odd/.slippi");
    assert!(!state.include_subfolders);
    assert!(state.replays.is_empty());
}

#[test]
fn toggle_theme_switches() {
    let mut state = fresh_state();
    state.toggle_theme();
    assert_eq!(state.theme, Theme::Dark);
}

#[test]
fn toggle_theme_twice_returns_to_original() {
    let mut state = fresh_state();
    state.toggle_theme();
    state.toggle_theme();
    assert_eq!(state.theme, Theme::Light);
}

#[test]
fn files_pattern_of_folder_alone() {
    let mut state = fresh_state();
    state.folder = String::from("/tmp/replays");
    state.include_subfolders = false;
    assert_eq!(state.files_pattern(), "/tmp/replays/*.slp");
}

#[test]
fn files_pattern_with_subfolders() {
    let mut state = fresh_state();
    state.folder = String::from("/tmp/replays");
    state.include_subfolders = true;
    assert_eq!(state.files_pattern(), "/tmp/replays/**/*.slp");
}

#[test]
fn no_files_yield_no_replays() {
    let mut state = fresh_state();
    state.load_replays(&Vec::new());
    assert!(state.replays.is_empty());
}

#[test]
fn invalid_bytes_are_rejected() {
    assert_eq!(Replay::new(b"not a replay").err(), Some(ParseError));
    assert_eq!(Replay::new(&[]).err(), Some(ParseError));
}

#[test]
fn short_raw_length_is_rejected() {
    // a declared raw length smaller than the payload table and start
    // event it must cover is rejected by the header guard
    let mut file = replay_file(&start_payload(31, 20, None));
    file[11] = 0;
    file[12] = 0;
    file[13] = 0;
    file[14] = 1;
    assert_eq!(Replay::new(&file).err(), Some(ParseError));
}

#[test]
fn oversized_tail_is_rejected() {
    // a tail after the raw element beyond the metadata cap is rejected
    let mut file = replay_file(&start_payload(31, 20, None));
    file.resize(file.len() + 9000, 0x20);
    assert_eq!(Replay::new(&file).err(), Some(ParseError));
}

#[test]
fn decodes_stage_and_player() {
    let file = replay_file(&start_payload(31, 20, None));
    let replay = match Replay::new(&file) {
        Ok(r) => r,
        Err(_) => panic!("a well-formed replay was rejected"),
    };
    assert_eq!(replay.stage, 31);
    assert_eq!(replay.players.len(), 1);
    assert_eq!(replay.players[0].character, 20);
    assert_eq!(replay.players[0].name_tag, None);
}

#[test]
fn decodes_name_tag() {
    let file = replay_file(&start_payload(2, 9, Some(b"TAG")));
    let replay = match Replay::new(&file) {
        Ok(r) => r,
        Err(_) => panic!("a well-formed replay was rejected"),
    };
    assert_eq!(replay.players.len(), 1);
    assert_eq!(replay.players[0].name_tag, Some(String::from("TAG")));
}

#[test]
fn load_replays_keeps_accepted_files_in_order() {
    let mut state = fresh_state();
    let files = vec![
        replay_file(&start_payload(3, 1, None)),
        b"garbage".to_vec(),
        replay_file(&start_payload(8, 2, None)),
    ];
    state.load_replays(&files);
    assert_eq!(state.replays.len(), 2);
    assert_eq!(state.replays[0].stage, 3);
    assert_eq!(state.replays[0].players[0].character, 1);
    assert_eq!(state.replays[1].stage, 8);
    assert_eq!(state.replays[1].players[0].character, 2);
}

#[test]
fn load_replays_replaces_the_list() {
    let mut state = fresh_state();
    state.load_replays(&vec![replay_file(&start_payload(3, 1, None))]);
    assert_eq!(state.replays.len(), 1);
    state.load_replays(&vec![
        replay_file(&start_payload(4, 5, None)),
        replay_file(&start_payload(6, 7, None)),
    ]);
    assert_eq!(state.replays.len(), 2);
    assert_eq!(state.replays[0].stage, 4);
}
