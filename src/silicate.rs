//! The Silicate replay format: its three revisions, read into the unified
//! model, and the newest one written back.

use vstd::prelude::*;
use crate::action::{Action, PlayerButton, RestartType, TimePoint, TimedAction};
use crate::bytes::{le_u32, le_u64, read_u32_le, read_u64_le};
use crate::container::{
    atom_view, button_in_range, parse_slc2, parse_slc3, slc2_error_message, slc2_parsed,
    slc3_error_message, slc3_parsed, Slc2Contents, Slc2Entry, Slc2Input, Slc3Action, Slc3Contents,
    atom_records, new_action_atom, push_death, push_player, push_tps, slc3_written,
    write_slc3_container, Slc3Record, Slc3RecordKind,
};
use crate::framing::{check_slc2_framing, check_slc3_framing, slc2_framing_ok, slc3_framing_ok};
use crate::meta::{lemma_fields_round_trip, lookup_or, MetaKey, DEFAULT_SEED, DEFAULT_TPS_BITS};
use crate::error::CodecError;
use crate::format::Format;
use crate::meta::{MetaField, SilicateMeta};
use crate::replay::Replay;
use crate::version::GameVersion;

verus! {

/// The seed used where a revision carries none.
pub const FALLBACK_SEED: u64 = 2137;

/// A replay read from, or to be written as, a Silicate file.
pub struct SilicateReplay {
    pub inner: Replay,
}

/// Whether `r` holds exactly the given parts.
pub open spec fn replay_is(
    r: Replay,
    meta: SilicateMeta,
    actions: Seq<TimedAction>,
    format: Format,
    major: u16,
    minor: u16,
) -> bool {
    &&& r.meta@ == meta.spec_fields()
    &&& r.actions@ == actions
    &&& r.format == format
    &&& r.game_version == (GameVersion { major, minor })
}

/// A read error with the text `t`.
pub open spec fn read_error_is(r: Result<SilicateReplay, CodecError>, t: Seq<char>) -> bool {
    r matches Err(CodecError::ReadError(m)) && m@ == t
}

fn read_error(text: &str) -> (r: CodecError)
    ensures
        r matches CodecError::ReadError(m) && m@ == text@,
{
    CodecError::ReadError(String::from_str(text))
}

/// A read error made of `prefix` followed by `detail`.
fn prefixed_error(prefix: &str, detail: &str) -> (r: CodecError)
    ensures
        r matches CodecError::ReadError(m) && m@ == prefix@ + detail@,
{
    CodecError::ReadError(String::from_str(prefix).concat(detail))
}

// ---------------------------------------------------------------------------
// Revision 1: `f64` rate, `u32` count, packed `u32` records, optional seed.

/// The button a code in `1..=3` stands for.
pub open spec fn button_of_code(code: u32) -> PlayerButton {
    if code == 1 {
        PlayerButton::Jump
    } else if code == 2 {
        PlayerButton::Left
    } else {
        PlayerButton::Right
    }
}

/// The button code held in bits 1 and 2 of a packed record.
pub open spec fn slc1_code(state: u32) -> u32 {
    (state & 0b0110) >> 1
}

/// The action a packed record stands for: frame in bits 4 and up, the
/// second player in bit 3, the button in bits 1 and 2, the hold in bit 0.
pub open spec fn slc1_action(state: u32) -> TimedAction {
    TimedAction {
        time: TimePoint::Frame((state >> 4u32) as u64),
        action: Action::Player {
            button: button_of_code(slc1_code(state)),
            hold: state & 0b0001 != 0,
            player2: state & 0b1000 != 0,
        },
        position: None,
    }
}

/// The number of records a revision-1 stream announces.
pub open spec fn slc1_count(b: Seq<u8>) -> int {
    le_u32(b, 8) as int
}

/// Where the records of a revision-1 stream end.
pub open spec fn slc1_end(b: Seq<u8>) -> int {
    12 + 4 * slc1_count(b)
}

/// The `i`-th packed record of a revision-1 stream.
pub open spec fn slc1_state(b: Seq<u8>, i: int) -> u32 {
    le_u32(b, 12 + 4 * i)
}

/// A revision-1 stream holds its header and all its records, and no record
/// has button code 0.
pub open spec fn slc1_well_formed(b: Seq<u8>) -> bool {
    &&& b.len() >= 12
    &&& b.len() >= slc1_end(b)
    &&& forall|i: int| 0 <= i < slc1_count(b) ==> slc1_code(#[trigger] slc1_state(b, i)) != 0
}

/// The actions of a revision-1 stream, one per record.
pub open spec fn slc1_actions(b: Seq<u8>) -> Seq<TimedAction> {
    Seq::new(slc1_count(b) as nat, |i: int| slc1_action(slc1_state(b, i)))
}

/// The metadata of a revision-1 stream: the seed after the records when
/// all eight of its bytes are there, else the fallback.
pub open spec fn slc1_meta(b: Seq<u8>) -> SilicateMeta {
    SilicateMeta {
        tps_bits: le_u64(b, 0),
        seed: if b.len() >= slc1_end(b) + 8 {
            le_u64(b, slc1_end(b))
        } else {
            FALLBACK_SEED
        },
    }
}

/// What reading a revision-1 stream gives.
pub open spec fn slc1_result(b: Seq<u8>, r: Result<SilicateReplay, CodecError>) -> bool {
    if slc1_well_formed(b) {
        r matches Ok(s) && replay_is(s.inner, slc1_meta(b), slc1_actions(b), Format::Slc1, 22, 60)
    } else {
        read_error_is(
            r,
            "failed to read slc1 replay: "@ + if b.len() < 12 || b.len() < slc1_end(b) {
                "unexpected end of stream"@
            } else {
                "invalid button code"@
            },
        )
    }
}

/// Unpacks one revision-1 record; `None` for button code 0, which no
/// button stands for.
pub fn decode_slc1_record(state: u32) -> (r: Option<TimedAction>)
    ensures
        r == (if slc1_code(state) == 0 {
            None
        } else {
            Some(slc1_action(state))
        }),
{
    let code = (state & 0b0110) >> 1;
    let button = if code == 0 {
        return None;
    } else if code == 1 {
        PlayerButton::Jump
    } else if code == 2 {
        PlayerButton::Left
    } else {
        PlayerButton::Right
    };
    let action = Action::Player { button, hold: state & 0b0001 != 0, player2: state & 0b1000 != 0 };
    Some(TimedAction::at_frame((state >> 4u32) as u64, action))
}

impl SilicateReplay {
    /// Reads the oldest revision: no header, a rate, a record count, the
    /// packed records, and a seed that defaults to 2137 when the stream
    /// ends before it. A record with button code 0 is refused.
    pub fn read_slc1(bytes: &[u8]) -> (r: Result<SilicateReplay, CodecError>)
        ensures
            slc1_result(bytes@, r),
    {
        let len = bytes.len();
        if len < 12 {
            return Err(prefixed_error("failed to read slc1 replay: ", "unexpected end of stream"));
        }
        let tps_bits = read_u64_le(bytes, 0);
        let count = read_u32_le(bytes, 8);
        let end: u64 = 12 + 4 * (count as u64);
        if (len as u64) < end {
            return Err(prefixed_error("failed to read slc1 replay: ", "unexpected end of stream"));
        }
        let ghost b = bytes@;
        let mut actions: Vec<TimedAction> = Vec::new();
        let mut i: u32 = 0;
        while i < count
            invariant
                b == bytes@,
                len == b.len(),
                count == slc1_count(b),
                end == slc1_end(b),
                end <= len,
                i <= count,
                actions@ == slc1_actions(b).take(i as int),
                forall|j: int| 0 <= j < i ==> slc1_code(#[trigger] slc1_state(b, j)) != 0,
            decreases count - i,
        {
            let at: usize = 12 + 4 * (i as usize);
            let state = read_u32_le(bytes, at);
            let a = match decode_slc1_record(state) {
                Some(a) => a,
                None => {
                    assert(state == slc1_state(b, i as int));
                    assert(!slc1_well_formed(b));
                    return Err(prefixed_error("failed to read slc1 replay: ", "invalid button code"));
                },
            };
            actions.push(a);
            proof {
                assert(slc1_actions(b).take(i + 1) =~= slc1_actions(b).take(i as int).push(a));
            }
            i = i + 1;
        }
        assert(actions@ =~= slc1_actions(b));
        let seed = if len - (end as usize) >= 8 {
            read_u64_le(bytes, end as usize)
        } else {
            FALLBACK_SEED
        };
        let meta = SilicateMeta { tps_bits, seed };
        let inner = Replay {
            meta: meta.fields(),
            actions,
            format: Format::Slc1,
            game_version: GameVersion::new(22, 60),
        };
        Ok(SilicateReplay { inner })
    }
}


// ---------------------------------------------------------------------------
// Revision 2: a `SILL` container with a flat input list.

/// The action a revision-2 input stands for; `None` for a skip.
pub open spec fn slc2_action(x: Slc2Input) -> Option<Action> {
    match x {
        Slc2Input::Skip => None,
        Slc2Input::Player { button, hold, player2 } => Some(
            Action::Player { button: button_of_code(button as u32), hold, player2 },
        ),
        Slc2Input::Restart => Some(Action::Restart { restart_type: RestartType::Restart, seed: None }),
        Slc2Input::RestartFull => Some(
            Action::Restart { restart_type: RestartType::RestartFull, seed: None },
        ),
        Slc2Input::Death => Some(Action::Restart { restart_type: RestartType::Death, seed: None }),
        Slc2Input::Tps { tps_bits } => Some(Action::TPS { tps_bits }),
    }
}

/// The actions of a revision-2 input list: one per input but skips, in order.
pub open spec fn slc2_actions(inputs: Seq<Slc2Entry>) -> Seq<TimedAction>
    decreases inputs.len(),
{
    if inputs.len() == 0 {
        Seq::empty()
    } else {
        let rest = slc2_actions(inputs.drop_last());
        match slc2_action(inputs.last().input) {
            Some(a) => rest.push(
                TimedAction { time: TimePoint::Frame(inputs.last().frame), action: a, position: None },
            ),
            None => rest,
        }
    }
}

/// What reading a revision-2 stream gives.
pub open spec fn slc2_result(b: Seq<u8>, r: Result<SilicateReplay, CodecError>) -> bool {
    if !slc2_framing_ok(b) {
        read_error_is(r, "failed to read slc2 replay: malformed container"@)
    } else {
    match slc2_parsed(b) {
        Some((tps_bits, seed, inputs)) => r matches Ok(s) && replay_is(
            s.inner,
            SilicateMeta { tps_bits, seed },
            slc2_actions(inputs),
            Format::Slc2,
            22,
            74,
        ),
        None => read_error_is(r, "failed to read slc2 replay: "@ + slc2_error_message(b)),
    }
    }
}

/// Maps one revision-2 input to its action; `None` for a skip.
pub fn decode_slc2_input(x: Slc2Input) -> (r: Option<Action>)
    requires
        button_in_range(x),
    ensures
        r == slc2_action(x),
{
    match x {
        Slc2Input::Skip => None,
        Slc2Input::Player { button, hold, player2 } => {
            let button = if button == 1 {
                PlayerButton::Jump
            } else if button == 2 {
                PlayerButton::Left
            } else {
                PlayerButton::Right
            };
            Some(Action::Player { button, hold, player2 })
        },
        Slc2Input::Restart => Some(Action::Restart { restart_type: RestartType::Restart, seed: None }),
        Slc2Input::RestartFull => Some(
            Action::Restart { restart_type: RestartType::RestartFull, seed: None },
        ),
        Slc2Input::Death => Some(Action::Restart { restart_type: RestartType::Death, seed: None }),
        Slc2Input::Tps { tps_bits } => Some(Action::TPS { tps_bits }),
    }
}

// ---------------------------------------------------------------------------
// Revision 3: an `SLC3RPLY` container of typed atoms.

/// The records of the first action atom, if there is one.
pub open spec fn first_action_atom(atoms: Seq<Option<Seq<Slc3Action>>>) -> Option<Seq<Slc3Action>>
    decreases atoms.len(),
{
    if atoms.len() == 0 {
        None
    } else if atoms[0] is Some {
        atoms[0]
    } else {
        first_action_atom(atoms.drop_first())
    }
}

/// The action a revision-3 record stands for, by its action-type code.
pub open spec fn slc3_action(a: Slc3Action) -> Action {
    if a.kind == 1 {
        Action::Player { button: PlayerButton::Jump, hold: a.holding, player2: a.player2 }
    } else if a.kind == 2 {
        Action::Player { button: PlayerButton::Left, hold: a.holding, player2: a.player2 }
    } else if a.kind == 3 {
        Action::Player { button: PlayerButton::Right, hold: a.holding, player2: a.player2 }
    } else if a.kind == 4 {
        Action::Restart { restart_type: RestartType::Restart, seed: Some(a.seed) }
    } else if a.kind == 5 {
        Action::Restart { restart_type: RestartType::RestartFull, seed: Some(a.seed) }
    } else if a.kind == 6 {
        Action::Restart { restart_type: RestartType::Death, seed: Some(a.seed) }
    } else if a.kind == 7 {
        Action::TPS { tps_bits: a.tps_bits }
    } else {
        Action::Empty
    }
}

/// The timed action of a revision-3 record.
pub open spec fn slc3_timed(a: Slc3Action) -> TimedAction {
    TimedAction { time: TimePoint::Frame(a.frame), action: slc3_action(a), position: None }
}

/// The actions of an action atom, one per record, in order.
pub open spec fn slc3_actions(records: Seq<Slc3Action>) -> Seq<TimedAction> {
    records.map_values(|a: Slc3Action| slc3_timed(a))
}

/// What a revision-3 container gives: an error when it has no action atom.
pub open spec fn slc3_contents_result(
    tps_bits: u64,
    seed: u64,
    atoms: Seq<Option<Seq<Slc3Action>>>,
    r: Result<SilicateReplay, CodecError>,
) -> bool {
    match first_action_atom(atoms) {
        Some(records) => r matches Ok(s) && replay_is(
            s.inner,
            SilicateMeta { tps_bits, seed },
            slc3_actions(records),
            Format::Slc3,
            22,
            74,
        ),
        None => r matches Err(CodecError::ReadError(m)) && m@ == "missing action atom in slc3 replay"@,
    }
}

/// What reading a revision-3 stream gives.
pub open spec fn slc3_result(b: Seq<u8>, r: Result<SilicateReplay, CodecError>) -> bool {
    if !slc3_framing_ok(b) {
        read_error_is(r, "failed to read slc3 replay: malformed container"@)
    } else {
        match slc3_parsed(b) {
            Some((tps_bits, seed, atoms)) => slc3_contents_result(tps_bits, seed, atoms, r),
            None => read_error_is(r, "failed to read slc3 replay: "@ + slc3_error_message(b)),
        }
    }
}


/// Maps one revision-3 record to its timed action.
pub fn decode_slc3_action(a: &Slc3Action) -> (r: TimedAction)
    ensures
        r == slc3_timed(*a),
{
    let action = if a.kind == 1 {
        Action::Player { button: PlayerButton::Jump, hold: a.holding, player2: a.player2 }
    } else if a.kind == 2 {
        Action::Player { button: PlayerButton::Left, hold: a.holding, player2: a.player2 }
    } else if a.kind == 3 {
        Action::Player { button: PlayerButton::Right, hold: a.holding, player2: a.player2 }
    } else if a.kind == 4 {
        Action::Restart { restart_type: RestartType::Restart, seed: Some(a.seed) }
    } else if a.kind == 5 {
        Action::Restart { restart_type: RestartType::RestartFull, seed: Some(a.seed) }
    } else if a.kind == 6 {
        Action::Restart { restart_type: RestartType::Death, seed: Some(a.seed) }
    } else if a.kind == 7 {
        Action::TPS { tps_bits: a.tps_bits }
    } else {
        Action::Empty
    };
    TimedAction::at_frame(a.frame, action)
}

impl SilicateReplay {
    /// Builds the replay that a decoded revision-2 container stands for.
    pub fn from_slc2_contents(c: &Slc2Contents) -> (r: SilicateReplay)
        requires
            forall|i: int| 0 <= i < c.inputs@.len() ==> button_in_range((#[trigger] c.inputs@[i]).input),
        ensures
            replay_is(
                r.inner,
                SilicateMeta { tps_bits: c.tps_bits, seed: c.seed },
                slc2_actions(c.inputs@),
                Format::Slc2,
                22,
                74,
            ),
    {
        let mut actions: Vec<TimedAction> = Vec::new();
        let mut i: usize = 0;
        while i < c.inputs.len()
            invariant
                i <= c.inputs@.len(),
                forall|k: int| 0 <= k < c.inputs@.len() ==> button_in_range((#[trigger] c.inputs@[k]).input),
                actions@ == slc2_actions(c.inputs@.take(i as int)),
            decreases c.inputs.len() - i,
        {
            let e = c.inputs[i];
            proof {
                assert(c.inputs@.take(i + 1).drop_last() =~= c.inputs@.take(i as int));
                assert(c.inputs@.take(i + 1).last() == e);
            }
            match decode_slc2_input(e.input) {
                Some(a) => actions.push(TimedAction::at_frame(e.frame, a)),
                None => {},
            }
            i = i + 1;
        }
        assert(c.inputs@.take(c.inputs@.len() as int) =~= c.inputs@);
        let meta = SilicateMeta { tps_bits: c.tps_bits, seed: c.seed };
        let inner = Replay {
            meta: meta.fields(),
            actions,
            format: Format::Slc2,
            game_version: GameVersion::new(22, 74),
        };
        SilicateReplay { inner }
    }

    /// Reads a revision-2 container. Its metadata block holds the seed; every
    /// input but a skip becomes an action, and resets carry no seed.
    pub fn read_slc2(bytes: &[u8]) -> (r: Result<SilicateReplay, CodecError>)
        ensures
            slc2_result(bytes@, r),
    {
        if !check_slc2_framing(bytes) {
            return Err(read_error("failed to read slc2 replay: malformed container"));
        }
        match parse_slc2(bytes) {
            Ok(c) => Ok(Self::from_slc2_contents(&c)),
            Err(text) => {
                Err(prefixed_error("failed to read slc2 replay: ", text.as_str()))
            },
        }
    }

    /// Builds the replay that a decoded revision-3 container stands for,
    /// from the records of its first action atom.
    pub fn from_slc3_contents(c: &Slc3Contents) -> (r: Result<SilicateReplay, CodecError>)
        ensures
            slc3_contents_result(c.tps_bits, c.seed, c@.2, r),
    {
        let ghost atoms = c@.2;
        let mut k: usize = 0;
        assert(atoms.skip(0) =~= atoms);
        while k < c.atoms.len()
            invariant
                atoms == c@.2,
                atoms.len() == c.atoms@.len(),
                k <= atoms.len(),
                first_action_atom(atoms) == first_action_atom(atoms.skip(k as int)),
            decreases c.atoms.len() - k,
        {
            assert(atoms.skip(k as int).drop_first() =~= atoms.skip(k + 1));
            assert(atoms.skip(k as int)[0] == atom_view(c.atoms@[k as int]));
            match &c.atoms[k] {
                Some(records) => {
                    let mut actions: Vec<TimedAction> = Vec::new();
                    let mut j: usize = 0;
                    while j < records.len()
                        invariant
                            j <= records@.len(),
                            actions@ == slc3_actions(records@.take(j as int)),
                        decreases records.len() - j,
                    {
                        let a = decode_slc3_action(&records[j]);
                        actions.push(a);
                        assert(slc3_actions(records@.take(j + 1)) =~= slc3_actions(
                            records@.take(j as int),
                        ).push(a));
                        j = j + 1;
                    }
                    assert(records@.take(records@.len() as int) =~= records@);
                    let meta = SilicateMeta { tps_bits: c.tps_bits, seed: c.seed };
                    let inner = Replay {
                        meta: meta.fields(),
                        actions,
                        format: Format::Slc3,
                        game_version: GameVersion::new(22, 74),
                    };
                    return Ok(SilicateReplay { inner });
                },
                None => {},
            }
            k = k + 1;
        }
        assert(atoms.skip(k as int).len() == 0);
        Err(read_error("missing action atom in slc3 replay"))
    }

    /// Reads a revision-3 container; it fails when the container holds no
    /// action atom.
    pub fn read_slc3(bytes: &[u8]) -> (r: Result<SilicateReplay, CodecError>)
        ensures
            slc3_result(bytes@, r),
    {
        if !check_slc3_framing(bytes) {
            return Err(read_error("failed to read slc3 replay: malformed container"));
        }
        match parse_slc3(bytes) {
            Ok(c) => Self::from_slc3_contents(&c),
            Err(text) => {
                Err(prefixed_error("failed to read slc3 replay: ", text.as_str()))
            },
        }
    }
}


// ---------------------------------------------------------------------------
// Telling the revisions apart.

/// `SLC3RPLY`, the header of revision 3.
pub open spec fn slc3_magic() -> Seq<u8> {
    seq![0x53u8, 0x4C, 0x43, 0x33, 0x52, 0x50, 0x4C, 0x59]
}

/// `SILL`, the start of revision 2.
pub open spec fn slc2_magic() -> Seq<u8> {
    seq![0x53u8, 0x49, 0x4C, 0x4C]
}

/// The revision of a stream, judged by its first eight bytes; `None` when
/// it is shorter than that.
pub open spec fn sniff(b: Seq<u8>) -> Option<Format> {
    if b.len() < 8 {
        None
    } else if b.take(8) == slc3_magic() {
        Some(Format::Slc3)
    } else if b.take(4) == slc2_magic() {
        Some(Format::Slc2)
    } else {
        Some(Format::Slc1)
    }
}

/// Classifies a stream by its first eight bytes: revision 3 by its full
/// header, revision 2 by its first four bytes, anything else revision 1.
pub fn detect_format(bytes: &[u8]) -> (r: Result<Format, CodecError>)
    ensures
        match sniff(bytes@) {
            Some(f) => r == Ok::<Format, CodecError>(f),
            None => r matches Err(CodecError::ReadError(m)) && m@
                == "failed to read replay: unexpected end of stream"@,
        },
{
    if bytes.len() < 8 {
        return Err(read_error("failed to read replay: unexpected end of stream"));
    }
    let ghost b = bytes@;
    let two = bytes[0] == 0x53 && bytes[1] == 0x49 && bytes[2] == 0x4C && bytes[3] == 0x4C;
    let three = bytes[0] == 0x53 && bytes[1] == 0x4C && bytes[2] == 0x43 && bytes[3] == 0x33
        && bytes[4] == 0x52 && bytes[5] == 0x50 && bytes[6] == 0x4C && bytes[7] == 0x59;
    proof {
        if three {
            assert(b.take(8) =~= slc3_magic());
        } else {
            if b.take(8) == slc3_magic() {
                assert(b.take(8)[0] == b[0] && b.take(8)[7] == b[7]);
                assert(b.take(8)[1] == b[1] && b.take(8)[2] == b[2] && b.take(8)[3] == b[3]);
                assert(b.take(8)[4] == b[4] && b.take(8)[5] == b[5] && b.take(8)[6] == b[6]);
            }
        }
        if two {
            assert(b.take(4) =~= slc2_magic());
        } else if b.take(4) == slc2_magic() {
            assert(b.take(4)[0] == b[0] && b.take(4)[1] == b[1]);
            assert(b.take(4)[2] == b[2] && b.take(4)[3] == b[3]);
        }
    }
    if three {
        Ok(Format::Slc3)
    } else if two {
        Ok(Format::Slc2)
    } else {
        Ok(Format::Slc1)
    }
}

/// What reading a Silicate stream of any revision gives.
pub open spec fn silicate_result(b: Seq<u8>, r: Result<SilicateReplay, CodecError>) -> bool {
    match sniff(b) {
        None => read_error_is(r, "failed to read replay: unexpected end of stream"@),
        Some(Format::Slc3) => slc3_result(b, r),
        Some(Format::Slc2) => slc2_result(b, r),
        Some(Format::Slc1) => slc1_result(b, r),
    }
}

// ---------------------------------------------------------------------------
// Writing revision 3.

/// The frame of a timed action.
pub open spec fn frame_of(a: TimedAction) -> u64 {
    match a.time {
        TimePoint::Frame(f) => f,
    }
}

/// What a revision-3 record is made of for an action; `None` for a no-op.
/// A reset without seed is given the fallback seed.
pub open spec fn record_kind(a: Action) -> Option<Slc3RecordKind> {
    match a {
        Action::Player { button, hold, player2 } => Some(
            Slc3RecordKind::Player { button, holding: hold, player2 },
        ),
        Action::Restart { restart_type, seed } => Some(
            Slc3RecordKind::Death {
                restart_type,
                seed: match seed {
                    Some(s) => s,
                    None => FALLBACK_SEED,
                },
            },
        ),
        Action::TPS { tps_bits } => Some(Slc3RecordKind::Tps { tps_bits }),
        Action::Empty => None,
    }
}

/// The records for `actions`, the previous kept frame being `current`. An
/// action before `current` is dropped; any other moves `current` to its
/// frame, and gives a record with the distance as delta unless it is a no-op.
pub open spec fn encode_from(current: u64, actions: Seq<TimedAction>) -> Seq<Slc3Record>
    decreases actions.len(),
{
    if actions.len() == 0 {
        Seq::empty()
    } else {
        let f = frame_of(actions[0]);
        if f < current {
            encode_from(current, actions.drop_first())
        } else {
            let rest = encode_from(f, actions.drop_first());
            match record_kind(actions[0].action) {
                Some(kind) => seq![Slc3Record { base: current, delta: (f - current) as u64, kind }]
                    + rest,
                None => rest,
            }
        }
    }
}

/// The revision-3 records for a list of actions, starting from frame 0.
pub open spec fn slc3_records(actions: Seq<TimedAction>) -> Seq<Slc3Record> {
    encode_from(0, actions)
}

/// Delta-encodes actions into revision-3 records, in their stored order.
pub fn encode_slc3_records(actions: &Vec<TimedAction>) -> (r: Vec<Slc3Record>)
    ensures
        r@ == slc3_records(actions@),
        forall|i: int| 0 <= i < r@.len() ==> (#[trigger] r@[i]).base + r@[i].delta <= u64::MAX,
{
    let mut out: Vec<Slc3Record> = Vec::new();
    let mut current: u64 = 0;
    let mut i: usize = 0;
    assert(actions@.skip(0) =~= actions@);
    while i < actions.len()
        invariant
            i <= actions@.len(),
            slc3_records(actions@) == out@ + encode_from(current, actions@.skip(i as int)),
            forall|k: int| 0 <= k < out@.len() ==> (#[trigger] out@[k]).base + out@[k].delta <= u64::MAX,
        decreases actions.len() - i,
    {
        let ghost s = actions@.skip(i as int);
        assert(s.drop_first() =~= actions@.skip(i + 1));
        assert(s[0] == actions@[i as int]);
        let a = actions[i];
        let TimePoint::Frame(f) = a.time;
        if f >= current {
            let kind = match a.action {
                Action::Player { button, hold, player2 } => Some(
                    Slc3RecordKind::Player { button, holding: hold, player2 },
                ),
                Action::Restart { restart_type, seed } => Some(
                    Slc3RecordKind::Death {
                        restart_type,
                        seed: match seed {
                            Some(s) => s,
                            None => FALLBACK_SEED,
                        },
                    },
                ),
                Action::TPS { tps_bits } => Some(Slc3RecordKind::Tps { tps_bits }),
                Action::Empty => None,
            };
            match kind {
                Some(kind) => {
                    let rec = Slc3Record { base: current, delta: f - current, kind };
                    let ghost old_out = out@;
                    out.push(rec);
                    assert(old_out + (seq![rec] + encode_from(f, actions@.skip(i + 1))) =~= out@
                        + encode_from(f, actions@.skip(i + 1)));
                },
                None => {},
            }
            current = f;
        }
        i = i + 1;
    }
    assert(actions@.skip(i as int) =~= Seq::<TimedAction>::empty());
    assert(out@ + Seq::<Slc3Record>::empty() =~= out@);
    out
}

/// The bytes of the revision-3 file for a replay: its metadata resolved
/// with defaults, and its actions delta-encoded.
pub open spec fn slc3_file(r: Replay) -> Seq<u8> {
    slc3_written(
        lookup_or(r.meta@, MetaKey::Tps, DEFAULT_TPS_BITS),
        lookup_or(r.meta@, MetaKey::Seed, DEFAULT_SEED),
        slc3_records(r.actions@),
    )
}

impl SilicateReplay {
    /// Writes the replay as a revision-3 container, whatever revision it
    /// was read from. Writing into memory always succeeds; the `Result` is
    /// kept for the write error of the format's interface.
    pub fn write_slc3(&self) -> (r: Result<Vec<u8>, CodecError>)
        ensures
            r matches Ok(out) && out@ == slc3_file(self.inner),
            r matches Ok(out) ==> out@.len() >= 8 && out@.subrange(0, 8) == slc3_magic(),
    {
        let meta = SilicateMeta::from_fields(&self.inner.meta);
        let records = encode_slc3_records(&self.inner.actions);
        let mut atom = new_action_atom();
        let mut i: usize = 0;
        while i < records.len()
            invariant
                i <= records@.len(),
                atom_records(atom) == records@.take(i as int),
                forall|k: int| 0 <= k < records@.len() ==> (#[trigger] records@[k]).base + records@[k].delta <= u64::MAX,
            decreases records.len() - i,
        {
            let rec = records[i];
            match rec.kind {
                Slc3RecordKind::Player { button, holding, player2 } => push_player(
                    &mut atom,
                    rec.base,
                    rec.delta,
                    button,
                    holding,
                    player2,
                ),
                Slc3RecordKind::Death { restart_type, seed } => push_death(
                    &mut atom,
                    rec.base,
                    rec.delta,
                    restart_type,
                    seed,
                ),
                Slc3RecordKind::Tps { tps_bits } => push_tps(&mut atom, rec.base, rec.delta, tps_bits),
            }
            assert(records@.take(i + 1) =~= records@.take(i as int).push(rec));
            i = i + 1;
        }
        assert(records@.take(records@.len() as int) =~= records@);
        match write_slc3_container(meta.tps_bits, meta.seed, atom) {
            Ok(out) => Ok(out),
            Err(_) => Err(CodecError::WriteError(String::from_str("failed to write slc3 replay"))),
        }
    }

    /// Wraps a replay for writing.
    pub fn new(replay: Replay) -> (r: SilicateReplay)
        ensures
            r.inner == replay,
    {
        SilicateReplay { inner: replay }
    }

    /// The replay this value holds.
    pub fn into_replay(self) -> (r: Replay)
        ensures
            r == self.inner,
    {
        self.inner
    }

    /// Reads a Silicate replay of any revision, telling the revision by the
    /// stream's first eight bytes.
    pub fn read(bytes: &[u8]) -> (r: Result<SilicateReplay, CodecError>)
        ensures
            silicate_result(bytes@, r),
    {
        match detect_format(bytes) {
            Ok(Format::Slc3) => Self::read_slc3(bytes),
            Ok(Format::Slc2) => Self::read_slc2(bytes),
            Ok(Format::Slc1) => Self::read_slc1(bytes),
            Err(e) => Err(e),
        }
    }

    /// Writes the replay; this is always revision 3.
    pub fn write(&self) -> (r: Result<Vec<u8>, CodecError>)
        ensures
            r matches Ok(out) && out@ == slc3_file(self.inner),
            r matches Ok(out) ==> out@.len() >= 8 && out@.subrange(0, 8) == slc3_magic(),
    {
        self.write_slc3()
    }
}


// ---------------------------------------------------------------------------
// Writing and reading back.

/// The action-type code of a record kind.
pub open spec fn kind_code(k: Slc3RecordKind) -> u8 {
    match k {
        Slc3RecordKind::Player { button, .. } => match button {
            PlayerButton::Jump => 1u8,
            PlayerButton::Left => 2u8,
            PlayerButton::Right => 3u8,
        },
        Slc3RecordKind::Death { restart_type, .. } => match restart_type {
            RestartType::Restart => 4u8,
            RestartType::RestartFull => 5u8,
            RestartType::Death => 6u8,
        },
        Slc3RecordKind::Tps { .. } => 7u8,
    }
}

/// The record that a written record is read back as: at frame
/// `base + delta`, with the fields its kind does not carry set as the
/// container library's record constructors set them.
pub open spec fn record_as_read(r: Slc3Record) -> Slc3Action {
    Slc3Action {
        frame: (r.base + r.delta) as u64,
        kind: kind_code(r.kind),
        holding: match r.kind {
            Slc3RecordKind::Player { holding, .. } => holding,
            _ => false,
        },
        player2: match r.kind {
            Slc3RecordKind::Player { player2, .. } => player2,
            _ => false,
        },
        seed: match r.kind {
            Slc3RecordKind::Death { seed, .. } => seed,
            _ => 0,
        },
        tps_bits: match r.kind {
            Slc3RecordKind::Tps { tps_bits } => tps_bits,
            _ => DEFAULT_TPS_BITS,
        },
    }
}

/// An action as it comes back from revision 3: a reset without seed gets
/// the fallback seed.
pub open spec fn with_seed(a: TimedAction) -> TimedAction {
    match a.action {
        Action::Restart { restart_type, seed: None } => TimedAction {
            action: Action::Restart { restart_type, seed: Some(FALLBACK_SEED) },
            ..a
        },
        _ => a,
    }
}

/// Actions that revision 3 carries whole: frames in non-decreasing order,
/// no no-op, and no position.
pub open spec fn round_trip_ready(s: Seq<TimedAction>) -> bool {
    &&& forall|i: int| 0 <= i < s.len() ==> !((#[trigger] s[i]).action is Empty)
    &&& forall|i: int| 0 <= i < s.len() ==> (#[trigger] s[i]).position is None
    &&& forall|i: int, j: int|
        0 <= i <= j < s.len() ==> frame_of(#[trigger] s[i]) <= frame_of(#[trigger] s[j])
}

proof fn lemma_encode_from_round_trip(c: u64, s: Seq<TimedAction>)
    requires
        round_trip_ready(s),
        s.len() > 0 ==> c <= frame_of(s[0]),
    ensures
        slc3_actions(encode_from(c, s).map_values(|r: Slc3Record| record_as_read(r)))
            == s.map_values(|a: TimedAction| with_seed(a)),
    decreases s.len(),
{
    let g = |r: Slc3Record| record_as_read(r);
    let h = |a: TimedAction| with_seed(a);
    if s.len() == 0 {
        assert(encode_from(c, s).map_values(g) =~= Seq::<Slc3Action>::empty());
        assert(slc3_actions(Seq::<Slc3Action>::empty()) =~= s.map_values(h));
    } else {
        let f = frame_of(s[0]);
        let t = s.drop_first();
        assert forall|i: int, j: int| 0 <= i <= j < t.len() implies frame_of(#[trigger] t[i])
            <= frame_of(#[trigger] t[j]) by {
            assert(t[i] == s[i + 1] && t[j] == s[j + 1]);
        }
        assert forall|i: int| 0 <= i < t.len() implies !((#[trigger] t[i]).action is Empty) && t[i].position is None by {
            assert(t[i] == s[i + 1]);
        }
        if t.len() > 0 {
            assert(t[0] == s[1]);
            assert(frame_of(s[0]) <= frame_of(s[1]));
        }
        lemma_encode_from_round_trip(f, t);
        let rest = encode_from(f, t);
        let kind = record_kind(s[0].action)->Some_0;
        let rec = Slc3Record { base: c, delta: (f - c) as u64, kind };
        assert(encode_from(c, s) == seq![rec] + rest);
        assert((seq![rec] + rest).map_values(g) =~= seq![record_as_read(rec)] + rest.map_values(g));
        let rd = rest.map_values(g);
        assert(slc3_actions(seq![record_as_read(rec)] + rd) =~= seq![slc3_timed(record_as_read(rec))]
            + slc3_actions(rd));
        assert(s.map_values(h) =~= seq![with_seed(s[0])] + t.map_values(h));
        assert(slc3_timed(record_as_read(rec)) == with_seed(s[0]));
    }
}

/// Writing a replay as revision 3 and reading it back gives the same
/// metadata and the same actions in the same order, a reset without seed
/// coming back with the fallback seed, provided the container reads each
/// record back as it was handed over.
pub proof fn lemma_slc3_round_trip(meta: SilicateMeta, actions: Seq<TimedAction>)
    requires
        round_trip_ready(actions),
    ensures
        lookup_or(meta.spec_fields(), MetaKey::Tps, DEFAULT_TPS_BITS) == meta.tps_bits,
        lookup_or(meta.spec_fields(), MetaKey::Seed, DEFAULT_SEED) == meta.seed,
        slc3_actions(slc3_records(actions).map_values(|r: Slc3Record| record_as_read(r)))
            == actions.map_values(|a: TimedAction| with_seed(a)),
{
    lemma_fields_round_trip(meta);
    lemma_encode_from_round_trip(0, actions);
}


proof fn lemma_first_of_concat(p: Seq<char>, x: Seq<char>)
    requires
        p.len() > 0,
    ensures
        (p + x)[0] == p[0],
{
}

/// No error of the Silicate reader has the text of an unknown format hint.
pub proof fn lemma_silicate_error_text(b: Seq<u8>, r: Result<SilicateReplay, CodecError>)
    requires
        silicate_result(b, r),
    ensures
        !(r matches Err(CodecError::ReadError(m)) && m@ == "could not determine format"@),
{
    reveal_strlit("could not determine format");
    reveal_strlit("failed to read replay: unexpected end of stream");
    reveal_strlit("failed to read slc1 replay: ");
    reveal_strlit("failed to read slc2 replay: ");
    reveal_strlit("failed to read slc2 replay: malformed container");
    reveal_strlit("failed to read slc3 replay: ");
    reveal_strlit("failed to read slc3 replay: malformed container");
    reveal_strlit("missing action atom in slc3 replay");
    reveal_strlit("unexpected end of stream");
    reveal_strlit("invalid button code");
    if r matches Err(CodecError::ReadError(m)) {
        let m = r->Err_0->ReadError_0@;
        if m == "could not determine format"@ {
            assert(m[0] == 'c');
            match sniff(b) {
                None => {},
                Some(Format::Slc1) => {
                    lemma_first_of_concat("failed to read slc1 replay: "@, "unexpected end of stream"@);
                    lemma_first_of_concat("failed to read slc1 replay: "@, "invalid button code"@);
                },
                Some(Format::Slc2) => {
                    lemma_first_of_concat("failed to read slc2 replay: "@, slc2_error_message(b));
                },
                Some(Format::Slc3) => {
                    lemma_first_of_concat("failed to read slc3 replay: "@, slc3_error_message(b));
                },
            }
        }
    }
}

} // verus!
