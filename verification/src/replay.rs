//! Replay metadata: the stage and the players of one recorded match.
//!
//! Decoding the binary replay format is the work of the outside parser;
//! this module keeps only the metadata that the browser shows, as plain
//! values, and states that the decoded record is a function of the file's
//! bytes alone. A verified guard over the file's header stands before
//! the decoder, keeping out the inputs on which it would not return
//! normally.

use vstd::prelude::*;

verus! {

/// A participant of a recorded match: the character picked and the
/// optional name tag shown in game.
pub struct Player {
    /// The game's numeric code for the chosen character.
    pub character: u8,
    /// The name tag, when one was set.
    pub name_tag: Option<String>,
}

/// The mathematical image of a `Player`.
pub struct PlayerView {
    pub character: u8,
    pub name_tag: Option<Seq<char>>,
}

impl View for Player {
    type V = PlayerView;

    open spec fn view(&self) -> PlayerView {
        PlayerView {
            character: self.character,
            name_tag: match self.name_tag {
                Some(t) => Some(t@),
                None => None,
            },
        }
    }
}

/// The metadata of one recorded match: the arena it was played on and
/// the players that took part, in port order.
pub struct Replay {
    /// The game's numeric code for the stage.
    pub stage: u16,
    /// The players of the match.
    pub players: Vec<Player>,
}

/// The mathematical image of a `Replay`.
pub struct ReplayView {
    pub stage: u16,
    pub players: Seq<PlayerView>,
}

impl View for Replay {
    type V = ReplayView;

    open spec fn view(&self) -> ReplayView {
        ReplayView {
            stage: self.stage,
            players: self.players@.map_values(|p: Player| p@),
        }
    }
}

/// The error returned for a file that is rejected, by the guard over
/// its header or by the decoder itself.
#[derive(Clone, Copy, Debug, PartialEq, Eq, Structural)]
pub struct ParseError;

/// The longest tail, in bytes, that may follow a file's raw element.
/// The tail holds the metadata section, which the decoder reads by
/// recursing into nested maps at a few bytes per level; the cap keeps
/// that recursion shallow. Real metadata sections are far smaller.
pub const METADATA_LIMIT: usize = 8192;

/// Whether the bytes open with the fixed eleven-byte file signature,
/// with room for the four-byte raw-element length after it.
pub open spec fn has_signature(bytes: Seq<u8>) -> bool {
    &&& bytes.len() >= 15
    &&& bytes[0] == 0x7b
    &&& bytes[1] == 0x55
    &&& bytes[2] == 0x03
    &&& bytes[3] == 0x72
    &&& bytes[4] == 0x61
    &&& bytes[5] == 0x77
    &&& bytes[6] == 0x5b
    &&& bytes[7] == 0x24
    &&& bytes[8] == 0x55
    &&& bytes[9] == 0x23
    &&& bytes[10] == 0x6c
}

/// The declared length of the raw element: a big-endian 32-bit count
/// right after the signature.
pub open spec fn raw_length(bytes: Seq<u8>) -> int {
    bytes[11] * 0x1000000 + bytes[12] * 0x10000 + bytes[13] * 0x100 + bytes[14]
}

/// The number of entries of the event-payload table.
pub open spec fn table_len(bytes: Seq<u8>) -> int {
    (bytes[16] - 1) / 3
}

/// The event code of one table entry.
pub open spec fn entry_code(bytes: Seq<u8>, k: int) -> u8 {
    bytes[17 + 3 * k]
}

/// The payload size of one table entry, big-endian.
pub open spec fn entry_size(bytes: Seq<u8>, k: int) -> int {
    bytes[18 + 3 * k] * 256 + bytes[19 + 3 * k]
}

/// The size the table declares for the game-start event, among its
/// first `n` entries; a later entry overrides an earlier one, as in the
/// decoder.
pub open spec fn start_event_size(bytes: Seq<u8>, n: int) -> Option<int>
    decreases n,
{
    if n <= 0 {
        None
    } else if entry_code(bytes, n - 1) == 0x36 {
        Some(entry_size(bytes, n - 1))
    } else {
        start_event_size(bytes, n - 1)
    }
}

/// Whether the table declares a game-end event.
pub open spec fn end_event_declared(bytes: Seq<u8>) -> bool {
    exists|k: int| 0 <= k < table_len(bytes) && entry_code(bytes, k) == 0x39
}

/// Whether the decoder would read the event-payload table in full: the
/// table event and its size byte are present, the size leaves whole
/// three-byte entries, the entries all lie within the bytes and declare
/// no zero size, and both the game-start and the game-end event are
/// declared.
pub open spec fn table_parses(bytes: Seq<u8>) -> bool {
    &&& bytes.len() >= 17
    &&& bytes[15] == 0x35
    &&& bytes[16] % 3 == 1
    &&& bytes.len() >= 16 + bytes[16]
    &&& (forall|k: int| 0 <= k < table_len(bytes) ==> entry_size(bytes, k) != 0)
    &&& start_event_size(bytes, table_len(bytes)) is Some
    &&& end_event_declared(bytes)
}

/// The bytes on which the decoder may be called. Bytes without the
/// signature, with a zero raw length or with a table the decoder
/// refuses are admitted: on those the decoder stops with an error of
/// its own before anything else is read. On the rest the guard demands
/// what the decoder assumes without checking: a raw length that covers
/// at least the payload table and the start event, since the
/// frame-skip arithmetic subtracts what those consumed from the raw
/// length and would otherwise underflow; and a tail after the raw
/// element no longer than `METADATA_LIMIT`, since the metadata reader
/// recurses into nested maps and an overlong tail could exhaust the
/// stack.
pub open spec fn decode_guard(bytes: Seq<u8>) -> bool {
    if !has_signature(bytes) {
        true
    } else if raw_length(bytes) == 0 {
        true
    } else if !table_parses(bytes) {
        true
    } else {
        start_event_size(bytes, table_len(bytes)) matches Some(s)
            && raw_length(bytes) >= 2 + bytes[16] + s
            && bytes.len() <= 15 + raw_length(bytes) + METADATA_LIMIT
    }
}

/// The record that the library keeps for one file's bytes: what the
/// decoder reads where the guard admits the bytes, nothing otherwise.
pub open spec fn replay_of_file(bytes: Seq<u8>) -> Option<ReplayView> {
    if decode_guard(bytes) {
        parsed_replay(bytes)
    } else {
        None
    }
}

/// Decides `decode_guard` by reading the file's header exactly as the
/// specification does.
fn decode_guard_check(bytes: &[u8]) -> (b: bool)
    ensures
        b == decode_guard(bytes@),
{
    if bytes.len() < 15 {
        return true;
    }
    if bytes[0] != 0x7b || bytes[1] != 0x55 || bytes[2] != 0x03 || bytes[3] != 0x72
        || bytes[4] != 0x61 || bytes[5] != 0x77 || bytes[6] != 0x5b || bytes[7] != 0x24
        || bytes[8] != 0x55 || bytes[9] != 0x23 || bytes[10] != 0x6c {
        return true;
    }
    let raw_len: u64 = (bytes[11] as u64) * 0x1000000 + (bytes[12] as u64) * 0x10000
        + (bytes[13] as u64) * 0x100 + (bytes[14] as u64);
    assert(raw_len == raw_length(bytes@));
    if raw_len == 0 {
        return true;
    }
    if bytes.len() < 17 {
        return true;
    }
    if bytes[15] != 0x35 {
        return true;
    }
    let size: usize = bytes[16] as usize;
    if size % 3 != 1 {
        return true;
    }
    if bytes.len() < 16 + size {
        return true;
    }
    let entries: usize = (size - 1) / 3;
    assert(size == 3 * entries + 1);
    assert(entries == table_len(bytes@));
    let mut start_size: Option<u32> = None;
    let mut end_declared = false;
    for k in 0..entries
        invariant
            bytes@.len() >= 17 + 3 * entries,
            entries == table_len(bytes@),
            forall|j: int| 0 <= j < k ==> entry_size(bytes@, j) != 0,
            end_declared == exists|j: int| 0 <= j < k && entry_code(bytes@, j) == 0x39,
            match start_size {
                Some(s) => start_event_size(bytes@, k as int) == Some(s as int),
                None => start_event_size(bytes@, k as int) is None,
            },
    {
        let code: u8 = bytes[17 + 3 * k];
        let sz: u32 = (bytes[18 + 3 * k] as u32) * 256 + (bytes[19 + 3 * k] as u32);
        assert(code == entry_code(bytes@, k as int));
        assert(sz == entry_size(bytes@, k as int));
        if sz == 0 {
            // one zero-size entry has the decoder refuse the whole table
            return true;
        }
        if code == 0x36 {
            start_size = Some(sz);
        } else if code == 0x39 {
            end_declared = true;
        }
    }
    let declared = match start_size {
        Some(s) => s,
        None => {
            // the game-start event is missing: the decoder refuses the table
            return true;
        }
    };
    if !end_declared {
        // the game-end event is missing: the decoder refuses the table
        return true;
    }
    assert(table_parses(bytes@));
    let predicted: u64 = 2 + size as u64 + declared as u64;
    raw_len >= predicted && bytes.len() as u64 <= 15 + raw_len + METADATA_LIMIT as u64
}

/// The metadata that the replay decoder reads from a file's bytes, or
/// nothing when it rejects them. The decoder's result depends on the
/// bytes alone.
pub uninterp spec fn parsed_replay(bytes: Seq<u8>) -> Option<ReplayView>;

#[verifier::external_type_specification]
#[verifier::external_body]
pub struct ExPeppiIoError(peppi::io::Error);

/// Relies on peppi's replay decoder, `peppi::io::slippi::read`: what it
/// reads from a replay's bytes is a function of those bytes alone.
/// Frame data is skipped; only the start block's stage and players are
/// kept. The decoder does not return normally on every input — its
/// frame-skip arithmetic underflows on a raw length shorter than the
/// events already read, and its metadata reader recurses without a
/// depth limit — so `decode_guard` keeps such inputs out.
#[verifier::external_body]
fn decode_replay(bytes: &[u8]) -> (r: Result<Replay, peppi::io::Error>)
    requires
        decode_guard(bytes@),
    ensures
        r matches Ok(rep) ==> parsed_replay(bytes@) == Some(rep@),
        r is Err ==> parsed_replay(bytes@) is None,
{
    let opts = peppi::io::slippi::de::Opts {
        skip_frames: true,
        ..Default::default()
    };
    let game = peppi::io::slippi::read(std::io::Cursor::new(bytes), Some(&opts))?;
    let players = game
        .start
        .players
        .into_iter()
        .map(|p| Player {
            character: p.character,
            name_tag: p.name_tag.map(|t| t.0),
        })
        .collect();
    Ok(Replay { stage: game.start.stage, players })
}

impl Replay {
    /// Builds the metadata record of one replay from the raw bytes of
    /// its file: the decoded record when the guard admits the bytes and
    /// the decoder accepts them, and `ParseError` otherwise.
    pub fn new(bytes: &[u8]) -> (r: Result<Replay, ParseError>)
        ensures
            r matches Ok(rep) ==> replay_of_file(bytes@) == Some(rep@),
            r is Err ==> replay_of_file(bytes@) is None,
            (r is Ok) == (replay_of_file(bytes@) is Some),
    {
        if !decode_guard_check(bytes) {
            return Err(ParseError);
        }
        match decode_replay(bytes) {
            Ok(rep) => Ok(rep),
            Err(_) => Err(ParseError),
        }
    }
}

} // verus!
