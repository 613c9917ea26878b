//! Checks on the framing of revision-2 and revision-3 containers, made
//! before the container library reads them: the library indexes, allocates and adds by
//! the counts and deltas it finds in the stream, and would panic on some of
//! them.

use vstd::prelude::*;
use crate::bytes::{le_u64, read_u64_le};

verus! {

/// The value of the `n` little-endian bytes at `p`.
pub open spec fn le_n(b: Seq<u8>, p: int, n: nat) -> nat
    decreases n,
{
    if n == 0 {
        0
    } else {
        b[p] as nat + 256 * le_n(b, p + 1, (n - 1) as nat)
    }
}

/// `256` to the power `n`.
pub open spec fn pow256(n: nat) -> nat
    decreases n,
{
    if n == 0 {
        1
    } else {
        256 * pow256((n - 1) as nat)
    }
}

proof fn lemma_le_n_bound(b: Seq<u8>, p: int, n: nat)
    ensures
        le_n(b, p, n) < pow256(n),
    decreases n,
{
    if n > 0 {
        lemma_le_n_bound(b, p + 1, (n - 1) as nat);
        let c = b[p] as nat;
        let x = le_n(b, p + 1, (n - 1) as nat);
        let y = pow256((n - 1) as nat);
        assert(c + 256 * x < 256 * y) by (nonlinear_arith)
            requires
                c < 256,
                x + 1 <= y,
        ;
    }
}

proof fn lemma_pow256_mono(m: nat, n: nat)
    requires
        m <= n,
    ensures
        pow256(m) <= pow256(n),
    decreases n,
{
    if m < n {
        lemma_pow256_mono(m, (n - 1) as nat);
    }
}

proof fn lemma_pow256_8()
    ensures
        pow256(8) == 0x1_0000_0000_0000_0000,
{
    assert(pow256(0) == 1);
    assert(pow256(1) == 0x100);
    assert(pow256(2) == 0x1_0000);
    assert(pow256(3) == 0x100_0000);
    assert(pow256(4) == 0x1_0000_0000);
    assert(pow256(5) == 0x100_0000_0000);
    assert(pow256(6) == 0x1_0000_0000_0000);
    assert(pow256(7) == 0x100_0000_0000_0000);
}

/// Reads the `n` little-endian bytes at `p`, for `n` up to 8.
pub fn read_le_n(b: &[u8], p: usize, n: usize) -> (r: u64)
    requires
        n <= 8,
        p + n <= b@.len(),
    ensures
        r == le_n(b@, p as int, n as nat),
{
    proof {
        lemma_pow256_8();
    }
    let blen = b.len();
    let mut v: u64 = 0;
    let mut i: usize = n;
    while i > 0
        invariant
            blen == b@.len(),
            i <= n <= 8,
            p + n <= b@.len(),
            v == le_n(b@, p + i, (n - i) as nat),
            pow256(8) == 0x1_0000_0000_0000_0000,
        decreases i,
    {
        proof {
            lemma_le_n_bound(b@, p + i - 1, (n - i + 1) as nat);
            lemma_pow256_mono((n - i + 1) as nat, 8);
            assert(le_n(b@, p + i - 1, (n - i + 1) as nat) == b@[p + i - 1] as nat + 256 * le_n(
                b@,
                p + i,
                (n - i) as nat,
            ));
        }
        v = v * 256 + b[p + i - 1] as u64;
        i = i - 1;
    }
    v
}

/// Walks `remaining` inputs of `size` bytes each, from `pos`, with the
/// running frame `frame`: an input adds its state shifted right by 5 to the
/// frame, and one whose button bits read 7 carries eight more bytes. The
/// position and frame at the end, or `None` when the bytes run out or a
/// frame leaves `u64`.
pub open spec fn v2_inputs(b: Seq<u8>, pos: nat, remaining: nat, size: nat, frame: nat) -> Option<(nat, nat)>
    decreases remaining,
{
    if remaining == 0 {
        Some((pos, frame))
    } else if pos + size > b.len() {
        None
    } else {
        let state = le_n(b, pos as int, size);
        let next = frame + state / 32;
        let end = pos + size + if (state / 4) % 8 == 7 {
            8nat
        } else {
            0nat
        };
        if next > u64::MAX || end > b.len() {
            None
        } else {
            v2_inputs(b, end, (remaining - 1) as nat, size, next)
        }
    }
}

/// The `k`-th blob header: byte size, first input index, input count.
pub open spec fn v2_blob(b: Seq<u8>, k: nat) -> (u64, u64, u64) {
    (le_u64(b, 100 + 24 * k as int), le_u64(b, 108 + 24 * k as int), le_u64(b, 116 + 24 * k as int))
}

/// Blobs `k` and on are sound: each has a byte size of 1 to 8, starts at
/// the number `n` of inputs before it, and its inputs are all there with
/// frames that stay in `u64`.
pub open spec fn v2_blobs(b: Seq<u8>, k: nat, count: nat, n: nat, pos: nat, frame: nat) -> bool
    decreases count - k,
{
    if k >= count {
        true
    } else {
        let (size, start, length) = v2_blob(b, k);
        &&& 1 <= size <= 8
        &&& start == n
        &&& n + length <= u64::MAX
        &&& match v2_inputs(b, pos, length as nat, size as nat, frame) {
            Some((p2, f2)) => v2_blobs(b, k + 1, count, (n + length) as nat, p2, f2),
            None => false,
        }
    }
}

/// A revision-2 stream whose framing the container library reads without
/// panicking: `SILL`, a 64-byte metadata block, an input count and a blob
/// count that the stream can hold, and sound blobs.
pub open spec fn slc2_framing_ok(b: Seq<u8>) -> bool {
    &&& b.len() >= 100
    &&& b[0] == 0x53 && b[1] == 0x49 && b[2] == 0x4C && b[3] == 0x4C
    &&& le_u64(b, 12) == 64
    &&& le_u64(b, 84) <= b.len()
    &&& le_u64(b, 92) <= (b.len() - 100) / 24
    &&& v2_blobs(b, 0, le_u64(b, 92) as nat, 0, (100 + 24 * le_u64(b, 92)) as nat, 0)
}

/// Checks the framing of a revision-2 stream.
pub fn check_slc2_framing(b: &[u8]) -> (r: bool)
    ensures
        r == slc2_framing_ok(b@),
{
    let len = b.len();
    if len < 100 {
        return false;
    }
    if !(b[0] == 0x53 && b[1] == 0x49 && b[2] == 0x4C && b[3] == 0x4C) {
        return false;
    }
    if read_u64_le(b, 12) != 64 {
        return false;
    }
    if read_u64_le(b, 84) > len as u64 {
        return false;
    }
    let count = read_u64_le(b, 92);
    if count > ((len - 100) / 24) as u64 {
        return false;
    }
    let ghost bs = b@;
    let c = count as usize;
    assert(24 * c <= len - 100) by (nonlinear_arith)
        requires
            c <= (len - 100) / 24,
            len >= 100,
    ;
    let mut pos: usize = 100 + 24 * c;
    let mut k: usize = 0;
    let mut n: u64 = 0;
    let mut frame: u64 = 0;
    while k < c
        invariant
            bs == b@,
            len == bs.len(),
            c == count,
            24 * c <= len - 100,
            k <= c,
            pos <= len,
            slc2_framing_ok(bs) == v2_blobs(bs, k as nat, c as nat, n as nat, pos as nat, frame as nat),
        decreases c - k,
    {
        assert(100 + 24 * k + 24 <= len) by (nonlinear_arith)
            requires
                k < c,
                24 * c <= len - 100,
        ;
        let size = read_u64_le(b, 100 + 24 * k);
        let start = read_u64_le(b, 108 + 24 * k);
        let length = read_u64_le(b, 116 + 24 * k);
        if size < 1 || size > 8 || start != n || length > u64::MAX - n {
            return false;
        }
        assert(v2_blob(bs, k as nat) == (size, start, length));
        let sz = size as usize;
        let ghost pos0 = pos as nat;
        let ghost frame0 = frame as nat;
        let mut rem: u64 = length;
        while rem > 0
            invariant
                bs == b@,
                len == bs.len(),
                1 <= sz <= 8,
                pos <= len,
                len >= 100,
                k < c,
                v2_blob(bs, k as nat) == (size, start, length),
                sz == size,
                start == n,
                n + length <= u64::MAX,
                slc2_framing_ok(bs) == v2_blobs(bs, k as nat, c as nat, n as nat, pos0, frame0),
                v2_inputs(bs, pos0, length as nat, sz as nat, frame0) == v2_inputs(
                    bs,
                    pos as nat,
                    rem as nat,
                    sz as nat,
                    frame as nat,
                ),
            decreases rem,
        {
            if pos > len - sz {
                assert(v2_inputs(bs, pos as nat, rem as nat, sz as nat, frame as nat) is None);
                return false;
            }
            let state = read_le_n(b, pos, sz);
            let delta = state / 32;
            let extra: usize = if (state / 4) % 8 == 7 {
                8
            } else {
                0
            };
            if delta > u64::MAX - frame || pos + sz > len - extra {
                assert(v2_inputs(bs, pos as nat, rem as nat, sz as nat, frame as nat) is None);
                return false;
            }
            frame = frame + delta;
            pos = pos + sz + extra;
            rem = rem - 1;
        }
        assert(v2_inputs(bs, pos0, length as nat, sz as nat, frame0) == Some((pos as nat, frame as nat)));
        n = n + length;
        k = k + 1;
    }
    true
}

// ---------------------------------------------------------------------------
// Revision 3.

/// The most actions a revision-3 action atom may announce or hold here:
/// the library reserves room for the announced count before reading.
pub const SLC3_MAX_ACTIONS: u64 = 0x10_0000;

/// `2` to the power `n`.
pub open spec fn pow2(n: nat) -> nat
    decreases n,
{
    if n == 0 {
        1
    } else {
        2 * pow2((n - 1) as nat)
    }
}

/// Walks `remaining` player states of `size` bytes from `pos`, adding each
/// state shifted right by 4 to `frame`, and counting the states whose
/// button bits are 0 (a press and release in one). The position, frame and
/// count at the end, or `None` when the bytes run out or a frame leaves `u64`.
pub open spec fn v3_pattern(
    b: Seq<u8>,
    pos: nat,
    remaining: nat,
    size: nat,
    frame: nat,
    swifts: nat,
) -> Option<(nat, nat, nat)>
    decreases remaining,
{
    if remaining == 0 {
        Some((pos, frame, swifts))
    } else if pos + size > b.len() {
        None
    } else {
        let state = le_n(b, pos as int, size);
        let next = frame + state / 16;
        if next > u64::MAX {
            None
        } else {
            v3_pattern(
                b,
                pos + size,
                (remaining - 1) as nat,
                size,
                next,
                swifts + if (state / 4) % 4 == 0 {
                    1nat
                } else {
                    0nat
                },
            )
        }
    }
}

/// One section at `pos`, after `n` actions with last frame `frame`: it is
/// there whole, of a known kind, keeps frames in `u64` and the number of
/// actions within the bound. The position, action count and last frame
/// after it.
pub open spec fn v3_section(b: Seq<u8>, pos: nat, n: nat, frame: nat) -> Option<(nat, nat, nat)> {
    if pos + 2 > b.len() {
        None
    } else {
        let h = le_n(b, pos as int, 2);
        let id = h / 16384;
        if id == 0 || id == 1 {
            let size = pow2((h / 4096) % 4);
            let len = pow2((h / 256) % 16);
            match v3_pattern(b, pos + 2, len, size, if id == 0 { frame } else { 0 }, 0) {
                None => None,
                Some((p2, f2, sw)) => {
                    let reps = if id == 0 { 1 } else { pow2((h / 8) % 32) };
                    let pushes = reps * (len + sw);
                    let nf = if id == 0 { f2 } else { frame + reps * f2 };
                    if nf > u64::MAX || n + pushes > SLC3_MAX_ACTIONS {
                        None
                    } else {
                        Some((p2, n + pushes, nf))
                    }
                },
            }
        } else if id == 2 {
            let size = pow2((h / 256) % 4);
            if (h / 1024) % 16 > 3 || pos + 2 + size + 8 > b.len() {
                None
            } else {
                let nf = frame + le_n(b, (pos + 2) as int, size);
                if nf > u64::MAX || n + 1 > SLC3_MAX_ACTIONS {
                    None
                } else {
                    Some((pos + 2 + size + 8, n + 1, nf))
                }
            }
        } else {
            None
        }
    }
}

/// Sections from `pos` until `n` reaches `count`, at most `steps` of them,
/// each sound. The position after them.
pub open spec fn v3_sections(
    b: Seq<u8>,
    pos: nat,
    n: nat,
    count: nat,
    frame: nat,
    steps: nat,
) -> Option<nat>
    decreases steps,
{
    if n >= count {
        Some(pos)
    } else if steps == 0 {
        None
    } else {
        match v3_section(b, pos, n, frame) {
            None => None,
            Some((p2, n2, f2)) => v3_sections(b, p2, n2, count, f2, (steps - 1) as nat),
        }
    }
}

/// Atoms from `pos` until the footer byte: each of a known kind, an
/// opaque one no longer than the stream, an action atom announcing at most
/// the bound of actions, with sound sections.
pub open spec fn v3_atoms(b: Seq<u8>, pos: nat, steps: nat) -> bool
    decreases steps,
{
    if pos + 1 >= b.len() {
        true
    } else if steps == 0 || pos + 12 > b.len() {
        false
    } else {
        let id = le_n(b, pos as int, 4);
        let size = le_n(b, (pos + 4) as int, 8);
        if id == 0 || id == 2 {
            size <= b.len() - pos - 12 && v3_atoms(b, pos + 12 + size, (steps - 1) as nat)
        } else if id == 1 {
            &&& pos + 20 <= b.len()
            &&& le_n(b, (pos + 12) as int, 8) <= SLC3_MAX_ACTIONS
            &&& match v3_sections(b, pos + 20, 0, le_n(b, (pos + 12) as int, 8), 0, b.len()) {
                Some(p2) => v3_atoms(b, p2, (steps - 1) as nat),
                None => false,
            }
        } else {
            false
        }
    }
}

/// A revision-3 stream whose framing the container library reads without
/// panicking: `SLC3RPLY`, a 64-byte metadata block, and sound atoms.
pub open spec fn slc3_framing_ok(b: Seq<u8>) -> bool {
    &&& b.len() >= 75
    &&& le_n(b, 8, 2) == 64
    &&& v3_atoms(b, 74, b.len())
}

proof fn lemma_pow2_mono(m: nat, n: nat)
    requires
        m <= n,
    ensures
        pow2(m) <= pow2(n),
    decreases n,
{
    if m < n {
        lemma_pow2_mono(m, (n - 1) as nat);
    }
}

proof fn lemma_pow2_31()
    ensures
        pow2(31) == 0x8000_0000,
{
    reveal_with_fuel(pow2, 32);
}

fn pow2_exec(n: u64) -> (r: u64)
    requires
        n < 32,
    ensures
        r == pow2(n as nat),
        r <= 0x8000_0000,
{
    proof {
        lemma_pow2_31();
        lemma_pow2_mono(n as nat, 31);
    }
    let mut r: u64 = 1;
    let mut i: u64 = 0;
    while i < n
        invariant
            i <= n < 32,
            r == pow2(i as nat),
            pow2(31) == 0x8000_0000,
        decreases n - i,
    {
        proof {
            lemma_pow2_mono((i + 1) as nat, 31);
        }
        r = r * 2;
        i = i + 1;
    }
    r
}


fn check_pattern(
    b: &[u8],
    pos: usize,
    remaining: u64,
    size: usize,
    frame: u64,
) -> (r: Option<(usize, u64, u64)>)
    requires
        1 <= size <= 8,
        remaining <= 0x8000,
        pos <= b@.len(),
    ensures
        match v3_pattern(b@, pos as nat, remaining as nat, size as nat, frame as nat, 0) {
            None => r is None,
            Some((p, f, w)) => r matches Some((p2, f2, w2)) && p2 == p && f2 == f && w2 == w && w2
                <= remaining && p2 <= b@.len(),
        },
{
    let len = b.len();
    let ghost bs = b@;
    let mut p = pos;
    let mut f = frame;
    let mut w: u64 = 0;
    let mut rem = remaining;
    while rem > 0
        invariant
            bs == b@,
            len == bs.len(),
            1 <= size <= 8,
            p <= len,
            rem <= remaining <= 0x8000,
            w + rem <= remaining,
            v3_pattern(bs, pos as nat, remaining as nat, size as nat, frame as nat, 0) == v3_pattern(
                bs,
                p as nat,
                rem as nat,
                size as nat,
                f as nat,
                w as nat,
            ),
        decreases rem,
    {
        if len < size || p > len - size {
            return None;
        }
        let state = read_le_n(b, p, size);
        let delta = state / 16;
        if delta > u64::MAX - f {
            return None;
        }
        f = f + delta;
        p = p + size;
        if (state / 4) % 4 == 0 {
            w = w + 1;
        }
        rem = rem - 1;
    }
    Some((p, f, w))
}

#[verifier::rlimit(50)]
fn check_section(b: &[u8], p: usize, n: u64, frame: u64) -> (r: Option<(usize, u64, u64)>)
    requires
        n <= SLC3_MAX_ACTIONS,
        p <= b@.len(),
    ensures
        match v3_section(b@, p as nat, n as nat, frame as nat) {
            None => r is None,
            Some((p2, n2, f2)) => r matches Some((a, c, d)) && a == p2 && c == n2 && d == f2 && a
                <= b@.len() && c <= SLC3_MAX_ACTIONS,
        },
{
    let len = b.len();
    if len < 2 || p > len - 2 {
        return None;
    }
    let h = read_le_n(b, p, 2);
    let id = h / 16384;
    if id == 0 || id == 1 {
        let size = pow2_exec((h / 4096) % 4) as usize;
        let count_len = pow2_exec((h / 256) % 16);
        assert(count_len <= 0x8000) by {
            lemma_pow2_mono(((h / 256) % 16) as nat, 15);
            reveal_with_fuel(pow2, 16);
        }
        assert(1 <= size <= 8) by {
            lemma_pow2_mono(((h / 4096) % 4) as nat, 3);
            lemma_pow2_mono(0, ((h / 4096) % 4) as nat);
            reveal_with_fuel(pow2, 4);
        }
        let start = if id == 0 {
            frame
        } else {
            0
        };
        match check_pattern(b, p + 2, count_len, size, start) {
            None => None,
            Some((p2, f2, sw)) => {
                let reps: u64 = if id == 0 {
                    1
                } else {
                    pow2_exec((h / 8) % 32)
                };
                assert(reps * (count_len + sw) <= 0x8000_0000 * 0x1_0000) by (nonlinear_arith)
                    requires
                        reps <= 0x8000_0000,
                        count_len + sw <= 0x1_0000,
                ;
                let pushes: u64 = reps * (count_len + sw);
                assert((reps as u128) * (f2 as u128) <= 0x8000_0000 * 0xffff_ffff_ffff_ffff)
                    by (nonlinear_arith)
                    requires
                        reps <= 0x8000_0000,
                        f2 <= 0xffff_ffff_ffff_ffff,
                ;
                let prod: u128 = (reps as u128) * (f2 as u128);
                let nf: u128 = if id == 0 {
                    f2 as u128
                } else {
                    frame as u128 + prod
                };
                if nf > u64::MAX as u128 || pushes > SLC3_MAX_ACTIONS - n {
                    None
                } else {
                    Some((p2, n + pushes, nf as u64))
                }
            },
        }
    } else if id == 2 {
        let size = pow2_exec((h / 256) % 4) as usize;
        assert(1 <= size <= 8) by {
            lemma_pow2_mono(((h / 256) % 4) as nat, 3);
            lemma_pow2_mono(0, ((h / 256) % 4) as nat);
            reveal_with_fuel(pow2, 4);
        }
        if (h / 1024) % 16 > 3 || len - 2 - p < size + 8 {
            return None;
        }
        let fd = read_le_n(b, p + 2, size);
        if fd > u64::MAX - frame || n + 1 > SLC3_MAX_ACTIONS {
            return None;
        }
        Some((p + 2 + size + 8, n + 1, frame + fd))
    } else {
        None
    }
}

fn check_sections(b: &[u8], pos: usize, count: u64, steps: usize) -> (r: Option<usize>)
    requires
        count <= SLC3_MAX_ACTIONS,
        pos <= b@.len(),
    ensures
        match v3_sections(b@, pos as nat, 0, count as nat, 0, steps as nat) {
            None => r is None,
            Some(p) => r == Some(p as usize) && p <= b@.len(),
        },
{
    let ghost bs = b@;
    let mut p = pos;
    let mut n: u64 = 0;
    let mut frame: u64 = 0;
    let mut st = steps;
    while n < count
        invariant
            bs == b@,
            p <= bs.len(),
            n <= SLC3_MAX_ACTIONS,
            count <= SLC3_MAX_ACTIONS,
            v3_sections(bs, pos as nat, 0, count as nat, 0, steps as nat) == v3_sections(
                bs,
                p as nat,
                n as nat,
                count as nat,
                frame as nat,
                st as nat,
            ),
        decreases st,
    {
        if st == 0 {
            return None;
        }
        match check_section(b, p, n, frame) {
            None => {
                return None;
            },
            Some((p2, n2, f2)) => {
                p = p2;
                n = n2;
                frame = f2;
            },
        }
        st = st - 1;
    }
    Some(p)
}

/// Checks the framing of a revision-3 stream.
pub fn check_slc3_framing(b: &[u8]) -> (r: bool)
    ensures
        r == slc3_framing_ok(b@),
{
    let len = b.len();
    if len < 75 || read_le_n(b, 8, 2) != 64 {
        return false;
    }
    let ghost bs = b@;
    let mut p: usize = 74;
    let mut st: usize = len;
    while p < len - 1
        invariant
            bs == b@,
            len == bs.len(),
            len >= 75,
            p <= len,
            slc3_framing_ok(bs) == v3_atoms(bs, p as nat, st as nat),
        decreases st,
    {
        if st == 0 || len - p < 12 {
            return false;
        }
        let id = read_le_n(b, p, 4);
        let size = read_le_n(b, p + 4, 8);
        if id == 0 || id == 2 {
            if size > (len - p - 12) as u64 {
                return false;
            }
            p = p + 12 + size as usize;
        } else if id == 1 {
            if len - p < 20 {
                return false;
            }
            let count = read_le_n(b, p + 12, 8);
            if count > SLC3_MAX_ACTIONS {
                return false;
            }
            match check_sections(b, p + 20, count, len) {
                None => {
                    return false;
                },
                Some(p2) => {
                    p = p2;
                },
            }
        } else {
            return false;
        }
        st = st - 1;
    }
    true
}

} // verus!
