//! The Salsa20 round function: quarter round, double round, and the
//! fixed-iteration permutation built from them, with two interchangeable
//! implementations of the permutation (scalar and lane-parallel).
use vstd::prelude::*;

verus! {

/// Wrapping 32-bit addition, the algorithm's only arithmetic.
pub open spec fn wadd(x: u32, y: u32) -> u32 {
    vstd::wrapping::u32_specs::wrapping_add(x, y)
}

/// Left circular rotation of a 32-bit word by `n` bits, `0 < n < 32`.
pub open spec fn spec_rotl(x: u32, n: u32) -> u32
    recommends
        0 < n < 32,
{
    (x << n) | (x >> ((32 - n) as u32))
}

/// The `b` output of a quarter round on inputs `(a, b, c, d)`:
/// `b ^= rotl(a + d, 7)`.
pub open spec fn qr_b(a: u32, b: u32, c: u32, d: u32) -> u32 {
    b ^ spec_rotl(wadd(a, d), 7)
}

/// The `c` output of a quarter round: `c ^= rotl(b + a, 9)`, reading the
/// already-updated `b`.
pub open spec fn qr_c(a: u32, b: u32, c: u32, d: u32) -> u32 {
    c ^ spec_rotl(wadd(qr_b(a, b, c, d), a), 9)
}

/// The `d` output of a quarter round: `d ^= rotl(c + b, 13)`, reading the
/// already-updated `b` and `c`.
pub open spec fn qr_d(a: u32, b: u32, c: u32, d: u32) -> u32 {
    d ^ spec_rotl(wadd(qr_c(a, b, c, d), qr_b(a, b, c, d)), 13)
}

/// The `a` output of a quarter round: `a ^= rotl(d + c, 18)`, reading the
/// already-updated `c` and `d`.
pub open spec fn qr_a(a: u32, b: u32, c: u32, d: u32) -> u32 {
    a ^ spec_rotl(wadd(qr_d(a, b, c, d), qr_c(a, b, c, d)), 18)
}

/// One quarter round applied to the words at distinct positions
/// `ia, ib, ic, id` of a 16-word state.
pub open spec fn spec_quarter_round(s: Seq<u32>, ia: int, ib: int, ic: int, id: int) -> Seq<u32>
    recommends
        s.len() == 16,
        0 <= ia < 16,
        0 <= ib < 16,
        0 <= ic < 16,
        0 <= id < 16,
        ia != ib && ia != ic && ia != id && ib != ic && ib != id && ic != id,
{
    s.update(ib, qr_b(s[ia], s[ib], s[ic], s[id])).update(
        ic,
        qr_c(s[ia], s[ib], s[ic], s[id]),
    ).update(id, qr_d(s[ia], s[ib], s[ic], s[id])).update(ia, qr_a(s[ia], s[ib], s[ic], s[id]))
}

/// The column pass: a quarter round down each of the four columns of the
/// state matrix.
pub open spec fn spec_column_round(s: Seq<u32>) -> Seq<u32>
    recommends
        s.len() == 16,
{
    let c1 = spec_quarter_round(s, 0, 4, 8, 12);
    let c2 = spec_quarter_round(c1, 5, 9, 13, 1);
    let c3 = spec_quarter_round(c2, 10, 14, 2, 6);
    spec_quarter_round(c3, 15, 3, 7, 11)
}

/// The diagonal pass: a quarter round across each of the four diagonals of
/// the state matrix.
pub open spec fn spec_diagonal_round(s: Seq<u32>) -> Seq<u32>
    recommends
        s.len() == 16,
{
    let r1 = spec_quarter_round(s, 0, 1, 2, 3);
    let r2 = spec_quarter_round(r1, 5, 6, 7, 4);
    let r3 = spec_quarter_round(r2, 10, 11, 8, 9);
    spec_quarter_round(r3, 15, 12, 13, 14)
}

/// One double round: the column pass followed by the diagonal pass.
pub open spec fn spec_double_round(s: Seq<u32>) -> Seq<u32>
    recommends
        s.len() == 16,
{
    spec_diagonal_round(spec_column_round(s))
}

/// The permutation: `dr` double rounds applied to a 16-word state.
pub open spec fn spec_permute(s: Seq<u32>, dr: nat) -> Seq<u32>
    recommends
        s.len() == 16,
    decreases dr,
{
    if dr == 0 {
        s
    } else {
        spec_double_round(spec_permute(s, (dr - 1) as nat))
    }
}

/// Left circular rotation of `x` by `n` bits.
pub fn rotl(x: u32, n: u32) -> (r: u32)
    requires
        0 < n < 32,
    ensures
        r == spec_rotl(x, n),
{
    (x << n) | (x >> (32 - n))
}

/// One quarter round, in place, on the words at distinct positions
/// `ia, ib, ic, id`.
pub fn quarter_round(ia: usize, ib: usize, ic: usize, id: usize, s: &mut [u32; 16])
    requires
        ia < 16,
        ib < 16,
        ic < 16,
        id < 16,
        ia != ib && ia != ic && ia != id && ib != ic && ib != id && ic != id,
    ensures
        final(s)@ == spec_quarter_round(old(s)@, ia as int, ib as int, ic as int, id as int),
{
    s[ib] = s[ib] ^ rotl(s[ia].wrapping_add(s[id]), 7);
    s[ic] = s[ic] ^ rotl(s[ib].wrapping_add(s[ia]), 9);
    s[id] = s[id] ^ rotl(s[ic].wrapping_add(s[ib]), 13);
    s[ia] = s[ia] ^ rotl(s[id].wrapping_add(s[ic]), 18);
}

/// The permutation on a copy of the state, computed word by word: `dr`
/// double rounds, each a column pass followed by a diagonal pass. The input
/// state is not touched.
pub fn run_rounds(state: &[u32; 16], dr: usize) -> (out: [u32; 16])
    ensures
        out@ == spec_permute(state@, dr as nat),
{
    let mut out: [u32; 16] = *state;
    let mut i: usize = 0;
    while i < dr
        invariant
            i <= dr,
            out@ == spec_permute(state@, i as nat),
        decreases dr - i,
    {
        quarter_round(0, 4, 8, 12, &mut out);
        quarter_round(5, 9, 13, 1, &mut out);
        quarter_round(10, 14, 2, 6, &mut out);
        quarter_round(15, 3, 7, 11, &mut out);
        quarter_round(0, 1, 2, 3, &mut out);
        quarter_round(5, 6, 7, 4, &mut out);
        quarter_round(10, 11, 8, 9, &mut out);
        quarter_round(15, 12, 13, 14, &mut out);
        i = i + 1;
    }
    out
}

/// The 16-word state represented by four 4-lane vectors in column
/// orientation: lane `k` of `(a, b, c, d)` holds the `(a, b, c, d)` roles of
/// the `k`-th column quarter round.
pub open spec fn gather(a: Seq<u32>, b: Seq<u32>, c: Seq<u32>, d: Seq<u32>) -> Seq<u32>
    recommends
        a.len() == 4,
        b.len() == 4,
        c.len() == 4,
        d.len() == 4,
{
    seq![
        a[0],
        d[1],
        c[2],
        b[3],
        b[0],
        a[1],
        d[2],
        c[3],
        c[0],
        b[1],
        a[2],
        d[3],
        d[0],
        c[1],
        b[2],
        a[3],
    ]
}

/// One quarter round on each of the four lanes of `(a, b, c, d)` at once,
/// the wide analogue of `quarter_round`.
fn wide_quarter_round(a: &mut [u32; 4], b: &mut [u32; 4], c: &mut [u32; 4], d: &mut [u32; 4])
    ensures
        forall|k: int|
            0 <= k < 4 ==> {
                &&& final(a)@[k] == qr_a(old(a)@[k], old(b)@[k], old(c)@[k], old(d)@[k])
                &&& final(b)@[k] == qr_b(old(a)@[k], old(b)@[k], old(c)@[k], old(d)@[k])
                &&& final(c)@[k] == qr_c(old(a)@[k], old(b)@[k], old(c)@[k], old(d)@[k])
                &&& final(d)@[k] == qr_d(old(a)@[k], old(b)@[k], old(c)@[k], old(d)@[k])
            },
{
    b[0] = b[0] ^ rotl(a[0].wrapping_add(d[0]), 7);
    b[1] = b[1] ^ rotl(a[1].wrapping_add(d[1]), 7);
    b[2] = b[2] ^ rotl(a[2].wrapping_add(d[2]), 7);
    b[3] = b[3] ^ rotl(a[3].wrapping_add(d[3]), 7);
    c[0] = c[0] ^ rotl(b[0].wrapping_add(a[0]), 9);
    c[1] = c[1] ^ rotl(b[1].wrapping_add(a[1]), 9);
    c[2] = c[2] ^ rotl(b[2].wrapping_add(a[2]), 9);
    c[3] = c[3] ^ rotl(b[3].wrapping_add(a[3]), 9);
    d[0] = d[0] ^ rotl(c[0].wrapping_add(b[0]), 13);
    d[1] = d[1] ^ rotl(c[1].wrapping_add(b[1]), 13);
    d[2] = d[2] ^ rotl(c[2].wrapping_add(b[2]), 13);
    d[3] = d[3] ^ rotl(c[3].wrapping_add(b[3]), 13);
    a[0] = a[0] ^ rotl(d[0].wrapping_add(c[0]), 18);
    a[1] = a[1] ^ rotl(d[1].wrapping_add(c[1]), 18);
    a[2] = a[2] ^ rotl(d[2].wrapping_add(c[2]), 18);
    a[3] = a[3] ^ rotl(d[3].wrapping_add(c[3]), 18);
}

/// The permutation computed lane-parallel: the state lives in four 4-lane
/// vectors, the column pass runs all four column quarter rounds at once, a
/// lane shuffle re-orients the vectors along the diagonals for the diagonal
/// pass, and a reverse shuffle restores column orientation. Produces the
/// same words as `run_rounds`.
pub fn run_rounds_wide(state: &[u32; 16], dr: usize) -> (out: [u32; 16])
    ensures
        out@ == spec_permute(state@, dr as nat),
{
    let mut a: [u32; 4] = [state[0], state[5], state[10], state[15]];
    let mut b: [u32; 4] = [state[4], state[9], state[14], state[3]];
    let mut c: [u32; 4] = [state[8], state[13], state[2], state[7]];
    let mut d: [u32; 4] = [state[12], state[1], state[6], state[11]];
    proof {
        assert(gather(a@, b@, c@, d@) =~= state@);
    }
    let mut i: usize = 0;
    while i < dr
        invariant
            i <= dr,
            gather(a@, b@, c@, d@) == spec_permute(state@, i as nat),
        decreases dr - i,
    {
        let ghost prev = gather(a@, b@, c@, d@);
        wide_quarter_round(&mut a, &mut b, &mut c, &mut d);
        let ghost mid = gather(a@, b@, c@, d@);
        proof {
            assert(mid =~= spec_column_round(prev));
        }
        // rotate the lanes so that each lane of (a, bd, cd, dd) holds one
        // diagonal quarter round's (a, b, c, d) roles
        let mut bd: [u32; 4] = [d[1], d[2], d[3], d[0]];
        let mut cd: [u32; 4] = [c[2], c[3], c[0], c[1]];
        let mut dd: [u32; 4] = [b[3], b[0], b[1], b[2]];
        wide_quarter_round(&mut a, &mut bd, &mut cd, &mut dd);
        // rotate back to column orientation
        b = [dd[1], dd[2], dd[3], dd[0]];
        c = [cd[2], cd[3], cd[0], cd[1]];
        d = [bd[3], bd[0], bd[1], bd[2]];
        proof {
            assert(gather(a@, b@, c@, d@) =~= spec_diagonal_round(mid));
        }
        i = i + 1;
    }
    let out: [u32; 16] = [
        a[0],
        d[1],
        c[2],
        b[3],
        b[0],
        a[1],
        d[2],
        c[3],
        c[0],
        b[1],
        a[2],
        d[3],
        d[0],
        c[1],
        b[2],
        a[3],
    ];
    proof {
        assert(out@ =~= gather(a@, b@, c@, d@));
    }
    out
}

} // verus!
