//! The calls into `slc_oxide`, the generic container library that frames
//! the two newer revisions, and the plain values they are converted to.

use vstd::prelude::*;
use crate::action::{PlayerButton, RestartType};
use crate::framing::{slc2_framing_ok, slc3_framing_ok};
use vstd::bytes::{
    lemma_auto_spec_u64_to_from_le_bytes, spec_u64_from_le_bytes, spec_u64_to_le_bytes,
    u64_from_le_bytes, u64_to_le_bytes,
};
use vstd::slice::{slice_subrange, slice_to_vec};
use slc_oxide::input::InputData;
use slc_oxide::v3::atom::AtomVariant;
use slc_oxide::v3::ActionType;
use slc_oxide::v3::Action as SlcAction;

verus! {

/// The container library's error for revision 3, carried opaque.
#[verifier::external_type_specification]
#[verifier::external_body]
pub struct ExSlc3ReplayError(slc_oxide::v3::replay::ReplayError);

/// The container library's action atom, filled record by record before it
/// is written; what it holds is `atom_records`.
#[verifier::external_type_specification]
#[verifier::external_body]
pub struct ExActionAtom(slc_oxide::v3::builtin::ActionAtom);

/// One input of a revision-2 container, as the container library yields it.
#[derive(Debug, Clone, Copy, PartialEq, Eq, Structural)]
pub enum Slc2Input {
    Skip,
    Player { button: u8, hold: bool, player2: bool },
    Restart,
    RestartFull,
    Death,
    Tps { tps_bits: u64 },
}

/// An input of a revision-2 container at its absolute frame.
#[derive(Debug, Clone, Copy, PartialEq, Eq, Structural)]
pub struct Slc2Entry {
    pub frame: u64,
    pub input: Slc2Input,
}

/// What a revision-2 container holds: its rate, its seed and its inputs.
pub struct Slc2Contents {
    pub tps_bits: u64,
    pub seed: u64,
    pub inputs: Vec<Slc2Entry>,
}

impl View for Slc2Contents {
    type V = (u64, u64, Seq<Slc2Entry>);

    open spec fn view(&self) -> (u64, u64, Seq<Slc2Entry>) {
        (self.tps_bits, self.seed, self.inputs@)
    }
}

/// One record of a revision-3 action atom, as the container library yields
/// it: `kind` is the library's action-type code (`0` reserved, `1` jump,
/// `2` left, `3` right, `4` restart, `5` full restart, `6` death, `7` rate).
#[derive(Debug, Clone, Copy, PartialEq, Eq, Structural)]
pub struct Slc3Action {
    pub frame: u64,
    pub kind: u8,
    pub holding: bool,
    pub player2: bool,
    pub seed: u64,
    pub tps_bits: u64,
}

/// What a revision-3 container holds: its rate, its seed, and its atoms in
/// order, each the records of an action atom or `None` for another kind.
pub struct Slc3Contents {
    pub tps_bits: u64,
    pub seed: u64,
    pub atoms: Vec<Option<Vec<Slc3Action>>>,
}

pub open spec fn atom_view(a: Option<Vec<Slc3Action>>) -> Option<Seq<Slc3Action>> {
    match a {
        Some(v) => Some(v@),
        None => None,
    }
}

impl View for Slc3Contents {
    type V = (u64, u64, Seq<Option<Seq<Slc3Action>>>);

    open spec fn view(&self) -> (u64, u64, Seq<Option<Seq<Slc3Action>>>) {
        (self.tps_bits, self.seed, self.atoms@.map_values(|a: Option<Vec<Slc3Action>>| atom_view(a)))
    }
}

/// What a revision-3 record is made of before the container writes it.
#[derive(Debug, Clone, Copy, PartialEq, Eq, Structural)]
pub enum Slc3RecordKind {
    Player { button: PlayerButton, holding: bool, player2: bool },
    Death { restart_type: RestartType, seed: u64 },
    Tps { tps_bits: u64 },
}

/// A revision-3 record to be written: its frame is `base + delta`, where
/// `base` is the frame of the record before it.
#[derive(Debug, Clone, Copy, PartialEq, Eq, Structural)]
pub struct Slc3Record {
    pub base: u64,
    pub delta: u64,
    pub kind: Slc3RecordKind,
}

/// Whether a player input carries one of the button codes 1 to 3.
pub open spec fn button_in_range(x: Slc2Input) -> bool {
    match x {
        Slc2Input::Player { button, .. } => 1 <= button <= 3,
        _ => true,
    }
}

/// What the container library decodes from a revision-2 stream.
pub uninterp spec fn slc2_parsed(b: Seq<u8>) -> Option<(u64, u64, Seq<Slc2Entry>)>;

/// What the container library decodes from a revision-3 stream.
pub uninterp spec fn slc3_parsed(b: Seq<u8>) -> Option<(u64, u64, Seq<Option<Seq<Slc3Action>>>)>;

/// The bytes the container library writes for a revision-3 container with
/// the given rate, seed and action records.
pub uninterp spec fn slc3_written(tps_bits: u64, seed: u64, records: Seq<Slc3Record>) -> Seq<u8>;

/// The text of the error the container library gives for a revision-2
/// stream it cannot read.
pub uninterp spec fn slc2_error_message(b: Seq<u8>) -> Seq<char>;

/// The text of the error the container library gives for a revision-3
/// stream it cannot read.
pub uninterp spec fn slc3_error_message(b: Seq<u8>) -> Seq<char>;

/// The records held by an action atom that is being built.
pub uninterp spec fn atom_records(a: slc_oxide::v3::builtin::ActionAtom) -> Seq<Slc3Record>;

/// Relies on `slc_oxide::Replay::read` with the 64-byte metadata block, and
/// on the `Display` text of its error: both functions of the bytes alone;
/// player inputs carry button codes 1 to 3. The framing check leaves out
/// the streams on which the library would panic.
#[verifier::external_body]
pub(crate) fn parse_slc2(bytes: &[u8]) -> (r: Result<Slc2Contents, String>)
    requires
        slc2_framing_ok(bytes@),
    ensures
        match r {
            Ok(c) => slc2_parsed(bytes@) == Some(c@) && forall|i: int|
                0 <= i < c.inputs@.len() ==> button_in_range((#[trigger] c.inputs@[i]).input),
            Err(t) => slc2_parsed(bytes@) is None && t@ == slc2_error_message(bytes@),
        },
{
    let r = slc_oxide::Replay::<Slc2Meta>::read(&mut std::io::Cursor::new(bytes))
        .map_err(|e| e.to_string())?;
    let inputs = r.inputs.iter().map(|i| Slc2Entry { frame: i.frame, input: match &i.data {
        InputData::Skip => Slc2Input::Skip,
        InputData::Player(p) => Slc2Input::Player { button: p.button, hold: p.hold, player2: p.player_2 },
        InputData::Restart => Slc2Input::Restart,
        InputData::RestartFull => Slc2Input::RestartFull,
        InputData::Death => Slc2Input::Death,
        InputData::TPS(t) => Slc2Input::Tps { tps_bits: t.to_bits() },
    } }).collect();
    Ok(Slc2Contents { tps_bits: r.tps.to_bits(), seed: r.meta.seed, inputs })
}

/// Relies on `slc_oxide::v3::Replay::read`, and on the `Display` text of its
/// error: both functions of the bytes alone; action-type codes are those of
/// `slc_oxide::v3::ActionType` (0 to 7). The framing check leaves out the
/// streams on which the library would panic.
#[verifier::external_body]
pub(crate) fn parse_slc3(bytes: &[u8]) -> (r: Result<Slc3Contents, String>)
    requires
        slc3_framing_ok(bytes@),
    ensures
        match r {
            Ok(c) => slc3_parsed(bytes@) == Some(c@) && forall|i: int, j: int|
                0 <= i < c.atoms@.len() && c.atoms@[i] is Some && 0 <= j
                    < c.atoms@[i]->Some_0@.len() ==> (#[trigger] c.atoms@[i]->Some_0@[j]).kind <= 7,
            Err(t) => slc3_parsed(bytes@) is None && t@ == slc3_error_message(bytes@),
        },
{
    let r = slc_oxide::v3::Replay::read(&mut std::io::Cursor::new(bytes)).map_err(|e| e.to_string())?;
    let atoms = r.atoms.atoms.iter().map(|a| match a {
        AtomVariant::Action(x) => Some(x.actions.iter().map(|a| Slc3Action { frame: a.frame,
            kind: a.action_type as u8, holding: a.holding, player2: a.player2, seed: a.seed,
            tps_bits: a.tps.to_bits() }).collect()),
        AtomVariant::Null(_) => None,
    }).collect();
    Ok(Slc3Contents { tps_bits: r.metadata.tps.to_bits(), seed: r.metadata.seed, atoms })
}

/// Relies on `slc_oxide::v3::builtin::ActionAtom::new`: an atom with no record.
#[verifier::external_body]
pub(crate) fn new_action_atom() -> (r: slc_oxide::v3::builtin::ActionAtom)
    ensures
        atom_records(r) == Seq::<Slc3Record>::empty(),
{
    slc_oxide::v3::builtin::ActionAtom::new()
}

/// Relies on `slc_oxide::v3::Action::player`: a player record appended
/// after the atom's actions. The record's frame, `base + delta`, must fit.
#[verifier::external_body]
pub(crate) fn push_player(
    atom: &mut slc_oxide::v3::builtin::ActionAtom,
    base: u64,
    delta: u64,
    button: PlayerButton,
    holding: bool,
    player2: bool,
)
    requires
        base + delta <= u64::MAX,
    ensures
        atom_records(*final(atom)) == atom_records(*old(atom)).push(
            Slc3Record { base, delta, kind: Slc3RecordKind::Player { button, holding, player2 } },
        ),
{
    let t = match button {
        PlayerButton::Jump => ActionType::Jump,
        PlayerButton::Left => ActionType::Left,
        PlayerButton::Right => ActionType::Right,
    };
    atom.actions.push(SlcAction::player(base, delta, t, holding, player2));
}

/// Relies on `slc_oxide::v3::Action::death`: a reset record appended after
/// the atom's actions. The record's frame, `base + delta`, must fit.
#[verifier::external_body]
pub(crate) fn push_death(
    atom: &mut slc_oxide::v3::builtin::ActionAtom,
    base: u64,
    delta: u64,
    restart_type: RestartType,
    seed: u64,
)
    requires
        base + delta <= u64::MAX,
    ensures
        atom_records(*final(atom)) == atom_records(*old(atom)).push(
            Slc3Record { base, delta, kind: Slc3RecordKind::Death { restart_type, seed } },
        ),
{
    let t = match restart_type {
        RestartType::Restart => ActionType::Restart,
        RestartType::RestartFull => ActionType::RestartFull,
        RestartType::Death => ActionType::Death,
    };
    atom.actions.push(SlcAction::death(base, delta, t, seed));
}

/// Relies on `slc_oxide::v3::Action::tps_change`: a rate record appended
/// after the atom's actions. The record's frame, `base + delta`, must fit.
/// The rate is rebuilt from its bit pattern by `num_traits::FromBytes::from_le_bytes`.
#[verifier::external_body]
pub(crate) fn push_tps(
    atom: &mut slc_oxide::v3::builtin::ActionAtom,
    base: u64,
    delta: u64,
    tps_bits: u64,
)
    requires
        base + delta <= u64::MAX,
    ensures
        atom_records(*final(atom)) == atom_records(*old(atom)).push(
            Slc3Record { base, delta, kind: Slc3RecordKind::Tps { tps_bits } },
        ),
{
    atom.actions.push(SlcAction::tps_change(base, delta, num_traits::FromBytes::from_le_bytes(&tps_bits.to_le_bytes())));
}

/// Relies on `slc_oxide::v3::Replay::new`, `add_atom` and `write`: a
/// container with the given rate and seed and the one action atom, written
/// into a fresh buffer, which cannot fail: the atom holds only player,
/// reset and rate records, all of which the library can frame. The bytes
/// depend on the rate, seed and records alone; they open with `SLC3RPLY`,
/// the metadata size 64 as a `u16`, then the rate and the seed, and end
/// after at least the 64-byte block and the footer byte.
/// The rate is rebuilt from its bit pattern by `num_traits::FromBytes::from_le_bytes`.
#[verifier::external_body]
pub(crate) fn write_slc3_container(
    tps_bits: u64,
    seed: u64,
    atom: slc_oxide::v3::builtin::ActionAtom,
) -> (r: Result<Vec<u8>, slc_oxide::v3::replay::ReplayError>)
    ensures
        r is Ok,
        r matches Ok(out) ==> out@ == slc3_written(tps_bits, seed, atom_records(atom)),
        r matches Ok(out) ==> out@.len() >= 75 && out@.subrange(0, 8) == seq![
            0x53u8,
            0x4C,
            0x43,
            0x33,
            0x52,
            0x50,
            0x4C,
            0x59,
        ] && out@[8] == 64 && out@[9] == 0 && out@.subrange(10, 18) == spec_u64_to_le_bytes(
            tps_bits,
        ) && out@.subrange(18, 26) == spec_u64_to_le_bytes(seed),
{
    let meta = slc_oxide::v3::Metadata::new(num_traits::FromBytes::from_le_bytes(&tps_bits.to_le_bytes()), seed, 0);
    let mut replay = slc_oxide::v3::Replay::new(meta);
    replay.add_atom(AtomVariant::Action(atom));
    let mut out: Vec<u8> = Vec::new();
    replay.write(&mut out)?;
    Ok(out)
}


/// The 64-byte metadata block of a revision-2 container: the seed in the
/// first eight bytes, little-endian, then 56 reserved bytes that are kept
/// but mean nothing to this library.
pub struct Slc2Meta {
    pub seed: u64,
    pub reserved: Vec<u8>,
}

impl Slc2Meta {
    /// A block holds exactly 56 reserved bytes.
    pub open spec fn wf(&self) -> bool {
        self.reserved@.len() == 56
    }
}

/// The size of the revision-2 metadata block.
pub const SLC2_META_SIZE: u64 = 64;

/// The number of reserved bytes in the revision-2 metadata block.
pub const SLC2_RESERVED: usize = 56;

impl slc_oxide::Meta for Slc2Meta {
    fn size() -> (r: u64)
        ensures
            r == 64,
    {
        SLC2_META_SIZE
    }

    /// Reads a block of at least 64 bytes; a shorter one (which the
    /// container library hands over only when it holds no block) gives a
    /// zero seed and zero reserved bytes.
    fn from_bytes(bytes: &[u8]) -> (r: Self)
        ensures
            bytes@.len() >= 64 ==> r.seed == spec_u64_from_le_bytes(bytes@.subrange(0, 8))
                && r.reserved@ == bytes@.subrange(8, 64),
            bytes@.len() < 64 ==> r.seed == 0 && r.reserved@ == Seq::new(56, |k: int| 0u8),
            r.wf(),
    {
        if bytes.len() >= 64 {
            let seed = u64_from_le_bytes(slice_subrange(bytes, 0, 8));
            let reserved = slice_to_vec(slice_subrange(bytes, 8, 64));
            Slc2Meta { seed, reserved }
        } else {
            let mut reserved: Vec<u8> = Vec::new();
            let mut i: usize = 0;
            while i < SLC2_RESERVED
                invariant
                    i <= 56,
                    reserved@ == Seq::new(i as nat, |k: int| 0u8),
                decreases 56 - i,
            {
                reserved.push(0u8);
                i = i + 1;
                assert(reserved@ =~= Seq::new(i as nat, |k: int| 0u8));
            }
            Slc2Meta { seed: 0, reserved }
        }
    }

    /// Writes the seed little-endian, then the 56 reserved bytes (zeros
    /// past the end of `reserved`).
    fn to_bytes(&self) -> (r: std::boxed::Box<[u8]>)
        ensures
            r@.len() == 64,
            r@.subrange(0, 8) == spec_u64_to_le_bytes(self.seed),
            forall|k: int|
                0 <= k < 56 ==> #[trigger] r@[8 + k] == (if k < self.reserved@.len() {
                    self.reserved@[k]
                } else {
                    0u8
                }),
    {
        let mut v = u64_to_le_bytes(self.seed);
        let mut i: usize = 0;
        while i < SLC2_RESERVED
            invariant
                i <= 56,
                v@.len() == 8 + i,
                v@.subrange(0, 8) == spec_u64_to_le_bytes(self.seed),
                forall|k: int|
                    0 <= k < i ==> #[trigger] v@[8 + k] == (if k < self.reserved@.len() {
                        self.reserved@[k]
                    } else {
                        0u8
                    }),
            decreases 56 - i,
        {
            let b = if i < self.reserved.len() {
                self.reserved[i]
            } else {
                0u8
            };
            let ghost old_v = v@;
            v.push(b);
            assert(v@.subrange(0, 8) =~= old_v.subrange(0, 8));
            assert(v@[8 + i as int] == b);
            i = i + 1;
        }
        into_boxed(v)
    }
}

/// Reading a block that was written gives back its seed and its reserved
/// bytes (when there are 56 of them).
pub proof fn lemma_slc2_meta_round_trip(seed: u64, reserved: Seq<u8>, block: Seq<u8>)
    requires
        reserved.len() == 56,
        block.len() == 64,
        block.subrange(0, 8) == spec_u64_to_le_bytes(seed),
        forall|k: int| 0 <= k < 56 ==> #[trigger] block[8 + k] == reserved[k],
    ensures
        spec_u64_from_le_bytes(block.subrange(0, 8)) == seed,
        block.subrange(8, 64) == reserved,
{
    lemma_auto_spec_u64_to_from_le_bytes();
    assert forall|k: int| 0 <= k < 56 implies block.subrange(8, 64)[k] == reserved[k] by {
        assert(block[8 + k] == reserved[k]);
    }
    assert(block.subrange(8, 64) =~= reserved);
}

/// Relies on `Vec::into_boxed_slice`: the same bytes, in a boxed slice.
#[verifier::external_body]
fn into_boxed(v: Vec<u8>) -> (r: std::boxed::Box<[u8]>)
    ensures
        r@ == v@,
{
    v.into_boxed_slice()
}

} // verus!
