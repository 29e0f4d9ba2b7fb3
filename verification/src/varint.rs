//! Variable-length unsigned integers: seven bits per byte, least significant
//! group first, the top bit of a byte set while more bytes follow.

use vstd::prelude::*;

verus! {

/// The bytes of `v`.
pub open spec fn varint(v: nat) -> Seq<u8>
    decreases v,
{
    if v < 128 {
        seq![v as u8]
    } else {
        seq![(v % 128 + 128) as u8] + varint(v / 128)
    }
}

/// Reads one integer of at most `max` from the front of `bytes`: its value
/// and the number of bytes it takes. Only the shortest form of a value is
/// accepted.
pub open spec fn parse_uint(bytes: Seq<u8>, max: nat) -> Option<(nat, nat)>
    decreases bytes.len(),
{
    if bytes.len() == 0 {
        None
    } else {
        let b = bytes[0] as nat;
        if b < 128 {
            if b <= max {
                Some((b, 1))
            } else {
                None
            }
        } else {
            let low = (b - 128) as nat;
            if low > max {
                None
            } else {
                match parse_uint(bytes.skip(1), ((max - low) / 128) as nat) {
                    Some((high, n)) => if high == 0 {
                        None
                    } else {
                        Some((low + 128 * high, n + 1))
                    },
                    None => None,
                }
            }
        }
    }
}

/// An integer takes at least one byte, and at most `k` bytes when it is
/// below `128^k`.
pub proof fn lemma_varint_len(v: nat, k: nat)
    requires
        k >= 1,
        v < vstd::arithmetic::power::pow(128, k),
    ensures
        1 <= varint(v).len() <= k,
    decreases v,
{
    vstd::arithmetic::power::lemma_pow1(128);
    if v >= 128 {
        if k == 1 {
            assert(false);
        } else {
            vstd::arithmetic::power::lemma_pow_adds(128, 1, (k - 1) as nat);
            let p = vstd::arithmetic::power::pow(128, (k - 1) as nat);
            assert(v < 128 * p);
            assert(v / 128 < p) by (nonlinear_arith)
                requires
                    v < 128 * p,
            ;
            lemma_varint_len(v / 128, (k - 1) as nat);
        }
    }
}

/// A 16-bit integer takes at most three bytes.
pub proof fn lemma_varint_len_u16(v: u16)
    ensures
        1 <= varint(v as nat).len() <= 3,
{
    assert(vstd::arithmetic::power::pow(128, 3) == 2097152) by {
        reveal_with_fuel(vstd::arithmetic::power::pow, 4);
    }
    lemma_varint_len(v as nat, 3);
}

/// A 64-bit integer takes at most ten bytes.
pub proof fn lemma_varint_len_u64(v: u64)
    ensures
        1 <= varint(v as nat).len() <= 10,
{
    assert(vstd::arithmetic::power::pow(128, 10) == 1180591620717411303424) by {
        reveal_with_fuel(vstd::arithmetic::power::pow, 11);
    }
    lemma_varint_len(v as nat, 10);
}

/// Reading back what was written: the bytes of `v`, followed by anything,
/// parse to `v` and to the number of bytes `v` takes.
pub proof fn lemma_parse_varint(v: nat, rest: Seq<u8>, max: nat)
    requires
        v <= max,
    ensures
        parse_uint(varint(v) + rest, max) == Some((v, varint(v).len())),
    decreases v,
{
    let bytes = varint(v) + rest;
    if v < 128 {
        assert(bytes[0] == v as u8);
    } else {
        let low = v % 128;
        let high = v / 128;
        assert(bytes[0] == (low + 128) as u8);
        assert(bytes.skip(1) =~= varint(high) + rest);
        assert(high <= (max - low) / 128) by (nonlinear_arith)
            requires
                v <= max,
                low == v % 128,
                high == v / 128,
        ;
        lemma_parse_varint(high, rest, ((max - low) / 128) as nat);
        assert(v == low + 128 * high) by (nonlinear_arith)
            requires
                low == v % 128,
                high == v / 128,
        ;
    }
}

/// Writing what was read: a successful parse took exactly the bytes of the
/// value it found, and that value is within the bound.
pub proof fn lemma_parsed_is_varint(bytes: Seq<u8>, max: nat)
    requires
        parse_uint(bytes, max) is Some,
    ensures
        ({
            let (v, n) = parse_uint(bytes, max).unwrap();
            &&& v <= max
            &&& 1 <= n <= bytes.len()
            &&& bytes.take(n as int) == varint(v)
        }),
    decreases bytes.len(),
{
    let b = bytes[0] as nat;
    let (v, n) = parse_uint(bytes, max).unwrap();
    if b < 128 {
        assert(bytes.take(1) =~= varint(v));
    } else {
        let low = (b - 128) as nat;
        let bound = ((max - low) / 128) as nat;
        lemma_parsed_is_varint(bytes.skip(1), bound);
        let (high, m) = parse_uint(bytes.skip(1), bound).unwrap();
        assert(low + 128 * high <= max) by (nonlinear_arith)
            requires
                high <= (max - low) / 128,
                low <= max,
        ;
        assert(v / 128 == high && v % 128 == low) by (nonlinear_arith)
            requires
                v == low + 128 * high,
                low < 128,
        ;
        assert(bytes.take(n as int) =~= seq![bytes[0]] + bytes.skip(1).take(m as int));
    }
}

/// Appends the bytes of `v` to `out`.
pub fn put_uint(out: &mut Vec<u8>, v: u64)
    ensures
        final(out)@ == old(out)@ + varint(v as nat),
{
    let mut left: u64 = v;
    while left >= 128
        invariant
            old(out)@ + varint(v as nat) == out@ + varint(left as nat),
        decreases left,
    {
        let ghost before = out@;
        out.push((left % 128 + 128) as u8);
        proof {
            assert(before + varint(left as nat) =~= out@ + varint((left / 128) as nat));
        }
        left = left / 128;
    }
    let ghost before = out@;
    out.push(left as u8);
    proof {
        assert(before + varint(left as nat) =~= out@);
    }
}

/// Reads one integer of at most `max` at `pos`: its value and the position
/// after it, or `None` where `bytes` holds no such integer there. No more
/// bytes are looked at than a value of at most `max` can take.
pub fn take_uint(bytes: &[u8], pos: usize, max: u64) -> (r: Option<(u64, usize)>)
    requires
        pos <= bytes.len(),
    ensures
        match r {
            Some((v, next)) => {
                &&& pos < next <= bytes.len()
                &&& v <= max
                &&& parse_uint(bytes@.skip(pos as int), max as nat) == Some(
                    (v as nat, (next - pos) as nat),
                )
            },
            None => parse_uint(bytes@.skip(pos as int), max as nat) is None,
        },
    decreases bytes.len() - pos,
{
    if pos >= bytes.len() {
        return None;
    }
    let b = bytes[pos];
    proof {
        assert(bytes@.skip(pos as int)[0] == b);
        assert(bytes@.skip(pos as int).skip(1) =~= bytes@.skip(pos + 1));
    }
    if b < 128 {
        if (b as u64) <= max {
            Some((b as u64, pos + 1))
        } else {
            None
        }
    } else {
        let low: u64 = (b - 128) as u64;
        if low > max {
            return None;
        }
        if (max - low) / 128 == 0 {
            // more bytes follow, but no value above zero fits in them
            proof {
                let rest = bytes@.skip(pos as int).skip(1);
                if parse_uint(rest, 0) is Some {
                    lemma_parsed_is_varint(rest, 0);
                }
            }
            return None;
        }
        match take_uint(bytes, pos + 1, (max - low) / 128) {
            Some((high, next)) => {
                if high == 0 {
                    None
                } else {
                    proof {
                        assert(low + 128 * high <= max) by (nonlinear_arith)
                            requires
                                high <= (max - low) / 128,
                                low <= max,
                        ;
                    }
                    Some((low + 128 * high, next))
                }
            },
            None => None,
        }
    }
}

} // verus!
