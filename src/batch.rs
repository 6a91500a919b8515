use vstd::prelude::*;

verus! {

/// The unsigned value of `s` read most significant byte first.
pub open spec fn be_uint(s: Seq<u8>) -> nat
    decreases s.len(),
{
    if s.len() == 0 {
        0
    } else {
        be_uint(s.drop_last()) * 256 + s.last() as nat
    }
}

pub open spec fn pow256(n: nat) -> nat
    decreases n,
{
    if n == 0 {
        1
    } else {
        pow256((n - 1) as nat) * 256
    }
}

/// Eight bytes read as a signed 64-bit number lie at least 2^31 inside the
/// range of such numbers, so that adding any signed 32-bit delta stays in it.
pub open spec fn base_fits(s: Seq<u8>) -> bool {
    let u = be_uint(s);
    u <= 0x7FFF_FFFF_7FFF_FFFF || u >= 0x8000_0000_8000_0000
}

/// Walking the batches of `b` by the four-byte length at offset 8 of each,
/// every batch of format 2 (the byte at offset 16) has its base offset
/// (bytes 0 to 8) and its first timestamp (bytes 27 to 35) far enough
/// inside the signed 64-bit range that a record's 32-bit delta added to
/// them cannot overflow. Where the walk meets bytes that do not hold a
/// whole batch it stops: those bytes do not decode.
pub open spec fn batch_deltas_fit(b: Seq<u8>) -> bool
    decreases b.len(),
{
    if b.len() < 17 {
        true
    } else {
        let len = be_uint(b.subrange(8, 12));
        if len >= 0x8000_0000 || 12 + len > b.len() {
            true
        } else {
            (b[16] != 2 || (b.len() >= 35 && base_fits(b.subrange(0, 8)) && base_fits(
                b.subrange(27, 35),
            ))) && batch_deltas_fit(b.subrange(12 + len as int, b.len() as int))
        }
    }
}

proof fn lemma_pow256_monotone(a: nat, b: nat)
    requires
        a <= b,
    ensures
        pow256(a) <= pow256(b),
    decreases b,
{
    if a < b {
        lemma_pow256_monotone(a, (b - 1) as nat);
    }
}

/// The `n` bytes of `b` from `start`, read most significant first.
fn read_be(b: &Vec<u8>, start: usize, n: usize) -> (r: u64)
    requires
        start + n <= b@.len(),
        n <= 8,
    ensures
        r as nat == be_uint(b@.subrange(start as int, start + n)),
{
    proof {
        assert(pow256(0) == 1);
        assert(pow256(1) == 0x100);
        assert(pow256(2) == 0x1_0000);
        assert(pow256(3) == 0x100_0000);
        assert(pow256(4) == 0x1_0000_0000);
        assert(pow256(5) == 0x100_0000_0000);
        assert(pow256(6) == 0x1_0000_0000_0000);
        assert(pow256(7) == 0x100_0000_0000_0000);
        assert(pow256(8) == 0x1_0000_0000_0000_0000);
    }
    let total = b.len();
    let mut v: u64 = 0;
    let mut i: usize = 0;
    while i < n
        invariant
            i <= n,
            total == b@.len(),
            n <= 8,
            start + n <= b@.len(),
            v as nat == be_uint(b@.subrange(start as int, start + i)),
            (v as nat) < pow256(i as nat),
            pow256(8) == 0x1_0000_0000_0000_0000,
        decreases n - i,
    {
        let byte = b[start + i];
        proof {
            lemma_pow256_monotone((i + 1) as nat, 8);
            assert(pow256((i + 1) as nat) == pow256(i as nat) * 256);
            assert((v as nat) * 256 + (byte as nat) < pow256(i as nat) * 256) by (nonlinear_arith)
                requires
                    (v as nat) < pow256(i as nat),
                    byte < 256,
            ;
            assert(b@.subrange(start as int, start + i + 1).drop_last() =~= b@.subrange(
                start as int,
                start + i,
            ));
        }
        v = v * 256 + byte as u64;
        i = i + 1;
    }
    v
}

/// Whether the batches of `b` pass `batch_deltas_fit`.
pub fn batch_deltas_fit_check(b: &Vec<u8>) -> (r: bool)
    ensures
        r == batch_deltas_fit(b@),
{
    let mut p: usize = 0;
    assert(b@.subrange(0, b@.len() as int) =~= b@);
    while p < b.len()
        invariant
            p <= b@.len(),
            batch_deltas_fit(b@) == batch_deltas_fit(b@.subrange(p as int, b@.len() as int)),
        decreases b@.len() - p,
    {
        let ghost s = b@.subrange(p as int, b@.len() as int);
        let rest = b.len() - p;
        if rest < 17 {
            return true;
        }
        let len = read_be(b, p + 8, 4);
        assert(s.subrange(8, 12) =~= b@.subrange(p + 8, p + 12));
        if len >= 0x8000_0000 || 12 + len > rest as u64 {
            return true;
        }
        if b[p + 16] == 2 {
            assert(s[16] == b@[p + 16]);
            if rest < 35 {
                return false;
            }
            let base = read_be(b, p, 8);
            let first = read_be(b, p + 27, 8);
            assert(s.subrange(0, 8) =~= b@.subrange(p as int, p + 8));
            assert(s.subrange(27, 35) =~= b@.subrange(p + 27, p + 35));
            let fits = |u: u64| -> (f: bool)
                ensures
                    f == (u <= 0x7FFF_FFFF_7FFF_FFFF || u >= 0x8000_0000_8000_0000),
                { u <= 0x7FFF_FFFF_7FFF_FFFF || u >= 0x8000_0000_8000_0000 };
            if !fits(base) || !fits(first) {
                return false;
            }
        } else {
            assert(s[16] == b@[p + 16]);
        }
        let next = p + 12 + len as usize;
        assert(s.subrange(12 + len as int, s.len() as int) =~= b@.subrange(next as int, b@.len() as int));
        p = next;
    }
    assert(b@.subrange(p as int, b@.len() as int).len() == 0);
    true
}

} // verus!
