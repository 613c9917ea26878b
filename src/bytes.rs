use vstd::prelude::*;

verus! {

/// The little-endian `u32` stored at `at`.
pub open spec fn le_u32(b: Seq<u8>, at: int) -> u32 {
    (b[at] as int + b[at + 1] as int * 0x100 + b[at + 2] as int * 0x1_0000 + b[at + 3] as int
        * 0x100_0000) as u32
}

/// The little-endian `u64` stored at `at`.
pub open spec fn le_u64(b: Seq<u8>, at: int) -> u64 {
    (le_u32(b, at) as int + le_u32(b, at + 4) as int * 0x1_0000_0000) as u64
}

/// Reads a little-endian `u32`.
pub fn read_u32_le(b: &[u8], at: usize) -> (r: u32)
    requires
        at + 4 <= b@.len(),
    ensures
        r == le_u32(b@, at as int),
{
    let x0 = b[at] as u32;
    let x1 = b[at + 1] as u32;
    let x2 = b[at + 2] as u32;
    let x3 = b[at + 3] as u32;
    proof {
        assert(x1 * 0x100 <= 0xff * 0x100) by (nonlinear_arith)
            requires
                x1 <= 0xff,
        ;
        assert(x2 * 0x1_0000 <= 0xff * 0x1_0000) by (nonlinear_arith)
            requires
                x2 <= 0xff,
        ;
        assert(x3 * 0x100_0000 <= 0xff * 0x100_0000) by (nonlinear_arith)
            requires
                x3 <= 0xff,
        ;
    }
    x0 + x1 * 0x100 + x2 * 0x1_0000 + x3 * 0x100_0000
}

/// Reads a little-endian `u64`.
pub fn read_u64_le(b: &[u8], at: usize) -> (r: u64)
    requires
        at + 8 <= b@.len(),
    ensures
        r == le_u64(b@, at as int),
{
    let n = b.len();
    assert(at + 4 < n);
    let lo = read_u32_le(b, at) as u64;
    let hi = read_u32_le(b, at + 4) as u64;
    proof {
        assert(hi * 0x1_0000_0000 <= 0xffff_ffff * 0x1_0000_0000) by (nonlinear_arith)
            requires
                hi <= 0xffff_ffff,
        ;
    }
    lo + hi * 0x1_0000_0000
}

} // verus!
