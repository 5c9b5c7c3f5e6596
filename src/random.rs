use vstd::prelude::*;

verus! {

/// The SHA-256 digest of a byte string.
pub uninterp spec fn sha256_of(data: Seq<u8>) -> Seq<u8>;

/// Relies on `solana_program::hash::hash` (re-exported by `anchor_lang`): the
/// SHA-256 digest of `data`, whose value depends on the bytes alone.
#[verifier::external_body]
fn sha256(data: &[u8]) -> (r: [u8; 32])
    ensures
        r@ == sha256_of(data@),
{
    anchor_lang::solana_program::hash::hash(data).to_bytes()
}

/// `256` raised to the power `n`.
pub open spec fn pow256(n: nat) -> nat
    decreases n,
{
    if n == 0 {
        1
    } else {
        256 * pow256((n - 1) as nat)
    }
}

/// The `n` lowest bytes of `v`, least significant first.
pub open spec fn le_bytes(v: nat, n: nat) -> Seq<u8>
    decreases n,
{
    if n == 0 {
        Seq::empty()
    } else {
        seq![(v % 256) as u8] + le_bytes(v / 256, (n - 1) as nat)
    }
}

/// The number whose bytes, least significant first, are `s`.
pub open spec fn le_value(s: Seq<u8>) -> nat
    decreases s.len(),
{
    if s.len() == 0 {
        0
    } else {
        s[0] as nat + 256 * le_value(s.drop_first())
    }
}

/// The 64-bit two's complement encoding of `x`, as an unsigned number.
pub open spec fn twos_complement(x: i64) -> nat {
    if x >= 0 {
        x as nat
    } else {
        (x + 0x1_0000_0000_0000_0000) as nat
    }
}

/// The bytes that are hashed for a draw seeded by `seed`: its 8 bytes in
/// little-endian order.
pub open spec fn seed_bytes(seed: i64) -> Seq<u8> {
    le_bytes(twos_complement(seed), 8)
}

/// The number read from the first 8 bytes of a digest, least significant
/// first.
pub open spec fn digest_value(digest: Seq<u8>) -> nat {
    le_value(digest.subrange(0, 8))
}

/// The winning ticket number drawn among `total` tickets with seed `seed`:
/// the first 8 bytes of the SHA-256 digest of the seed's bytes, read as a
/// little-endian number, modulo `total`.
pub open spec fn winner_index(total: nat, seed: i64) -> nat {
    digest_value(sha256_of(seed_bytes(seed))) % total
}

proof fn lemma_pow256_monotonic(a: nat, b: nat)
    requires
        a <= b,
    ensures
        pow256(a) <= pow256(b),
    decreases b,
{
    if a < b {
        lemma_pow256_monotonic(a, (b - 1) as nat);
        assert(pow256(b) == 256 * pow256((b - 1) as nat));
    }
}

/// The little-endian bytes of `seed`, as they are hashed for a draw.
pub fn seed_to_le_bytes(seed: i64) -> (r: Vec<u8>)
    ensures
        r@ == seed_bytes(seed),
{
    let u: u64 = if seed >= 0 {
        seed as u64
    } else {
        ((seed + i64::MAX + 1) as u64) + 0x8000_0000_0000_0000u64
    };
    assert(u == twos_complement(seed));
    let mut out: Vec<u8> = Vec::new();
    let mut v: u64 = u;
    let mut i: usize = 0;
    while i < 8
        invariant
            i <= 8,
            out@.len() == i,
            out@ + le_bytes(v as nat, (8 - i) as nat) == le_bytes(u as nat, 8),
        decreases 8 - i,
    {
        let b: u8 = (v % 256) as u8;
        let ghost rest = le_bytes((v / 256) as nat, (8 - i - 1) as nat);
        assert(le_bytes(v as nat, (8 - i) as nat) == seq![b] + rest);
        let ghost before = out@;
        out.push(b);
        assert(out@ + rest =~= before + (seq![b] + rest));
        v = v / 256;
        i = i + 1;
    }
    assert(out@ =~= out@ + le_bytes(v as nat, 0));
    out
}

/// Reads the first 8 bytes of `bytes` as a little-endian number.
pub fn le_u64(bytes: &[u8]) -> (r: u64)
    requires
        bytes@.len() >= 8,
    ensures
        r == le_value(bytes@.subrange(0, 8)),
{
    let mut acc: u64 = 0;
    let mut i: usize = 8;
    proof {
        assert(bytes@.subrange(8, 8) =~= Seq::<u8>::empty());
    }
    while i > 0
        invariant
            i <= 8,
            bytes@.len() >= 8,
            acc == le_value(bytes@.subrange(i as int, 8)),
            acc < pow256((8 - i) as nat),
        decreases i,
    {
        let ghost k = (8 - i) as nat;
        proof {
            lemma_pow256_monotonic(k, 7);
            reveal_with_fuel(pow256, 8);
            assert(pow256(7) == 0x100_0000_0000_0000);
            assert(pow256(k + 1) == 256 * pow256(k));
            assert(acc * 256 + 255 < 256 * pow256(k)) by (nonlinear_arith)
                requires
                    acc < pow256(k),
            ;
            assert(bytes@.subrange(i - 1, 8).drop_first() =~= bytes@.subrange(i as int, 8));
        }
        acc = acc * 256 + bytes[i - 1] as u64;
        i = i - 1;
    }
    acc
}

/// The winning ticket number that a digest gives among `total_tickets`
/// tickets: its first 8 bytes, read as a little-endian number, modulo
/// `total_tickets`.
pub fn winner_from_digest(digest: &[u8; 32], total_tickets: u64) -> (r: u64)
    requires
        total_tickets > 0,
    ensures
        r == digest_value(digest@) % (total_tickets as nat),
        r < total_tickets,
{
    let value = le_u64(digest.as_slice());
    value % total_tickets
}

/// Draws a winning ticket number among `total_tickets` tickets, seeded by
/// `seed` (the draw time). The draw is public and reproducible: it depends
/// on `total_tickets` and `seed` alone.
pub fn generate_pseudo_random_winner(total_tickets: u64, seed: i64) -> (r: u64)
    requires
        total_tickets > 0,
    ensures
        r == winner_index(total_tickets as nat, seed),
        r < total_tickets,
{
    let bytes = seed_to_le_bytes(seed);
    let digest = sha256(bytes.as_slice());
    winner_from_digest(&digest, total_tickets)
}

/// A draw is reproducible and in range: the winning ticket number is fixed
/// by the number of tickets sold and the seed, and is always below the number
/// of tickets sold.
pub proof fn lemma_draw_reproducible(total: nat, seed: i64)
    requires
        total > 0,
    ensures
        winner_index(total, seed) < total,
        winner_index(total, seed) == digest_value(sha256_of(seed_bytes(seed))) % total,
{
}

} // verus!
