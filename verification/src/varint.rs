use vstd::prelude::*;

verus! {

/// The error type of the protobuf runtime's decoders; carried, never inspected.
#[verifier::external_type_specification]
#[verifier::external_body]
pub struct ExDecodeError(prost::DecodeError);

/// Most bytes the varint of a `u64` occupies.
pub const MAX_VARINT_LEN: usize = 10;

/// The LEB128 varint at the front of `s`, whose first byte is byte number
/// `pos` (counted from zero) of the varint: its value and the number of bytes
/// it occupies from the front of `s`.  `None` when `s` ends inside the varint,
/// when the varint would run past its tenth byte, or when the tenth byte
/// carries more than the one bit a `u64` has left.
pub open spec fn decode_varint_from(s: Seq<u8>, pos: nat) -> Option<(nat, nat)>
    decreases s.len(),
{
    if s.len() == 0 || pos >= 10 {
        None
    } else if s[0] < 128 {
        if pos == 9 && s[0] >= 2 {
            None
        } else {
            Some((s[0] as nat, 1nat))
        }
    } else if pos == 9 {
        None
    } else {
        match decode_varint_from(s.drop_first(), pos + 1) {
            Some((v, k)) => Some((((s[0] - 128) + 128 * v) as nat, k + 1)),
            None => None,
        }
    }
}

/// The varint at the front of `s`: its value and the bytes it occupies.
pub open spec fn decode_varint(s: Seq<u8>) -> Option<(nat, nat)> {
    decode_varint_from(s, 0)
}

/// The LEB128 encoding of `n`: seven bits per byte, least significant
/// first, the high bit set on every byte but the last.
pub open spec fn encode_varint(n: nat) -> Seq<u8>
    decreases n,
{
    if n < 128 {
        seq![n as u8]
    } else {
        seq![(n % 128 + 128) as u8] + encode_varint(n / 128)
    }
}

/// Exclusive bound on the value a varint can carry when its first byte is
/// byte number `9 - k`: two at the tenth byte, 128 times more per earlier byte.
pub open spec fn varint_cap(k: nat) -> nat
    decreases k,
{
    if k == 0 {
        2
    } else {
        128 * varint_cap((k - 1) as nat)
    }
}

/// A varint starting at byte number zero carries values below 2^64.
pub proof fn lemma_varint_cap_u64()
    ensures
        varint_cap(9) == u64::MAX + 1,
{
    reveal_with_fuel(varint_cap, 10);
}

/// `prost::encoding::decode_varint`, applied to a byte slice.
/// Claims: it succeeds exactly when the slice starts with a varint as
/// `decode_varint` defines it, and then returns that value and leaves the
/// bytes after the varint (their number is returned); prost's source reads at
/// most ten bytes and rejects a tenth byte above one.
#[verifier::external_body]
fn prost_decode_varint(buf: &[u8]) -> (r: Result<(u64, usize), prost::DecodeError>)
    ensures
        match r {
            Ok((v, rest)) => {
                &&& rest <= buf@.len()
                &&& decode_varint(buf@) == Some((v as nat, (buf@.len() - rest) as nat))
            },
            Err(_) => decode_varint(buf@) is None,
        },
{
    let mut cursor = buf;
    match prost::encoding::decode_varint(&mut cursor) {
        Ok(v) => Ok((v, cursor.len())),
        Err(e) => Err(e),
    }
}

/// `prost::encoding::encode_varint` into a `Vec<u8>`.
/// Claims: it appends exactly the LEB128 encoding of `value` (prost's
/// source writes at most ten bytes, which is all a `u64` needs).
#[verifier::external_body]
fn prost_encode_varint(value: u64, buf: &mut Vec<u8>)
    ensures
        final(buf)@ == old(buf)@ + encode_varint(value as nat),
{
    prost::encoding::encode_varint(value, buf)
}

/// Reads the varint at the front of `buf`: its value and the number of bytes
/// it occupies, or the decoder's error when `buf` does not start with one.
pub fn read_varint(buf: &[u8]) -> (r: Result<(u64, usize), prost::DecodeError>)
    ensures
        match r {
            Ok((v, len)) => {
                &&& 1 <= len <= MAX_VARINT_LEN
                &&& len <= buf@.len()
                &&& decode_varint(buf@) == Some((v as nat, len as nat))
            },
            Err(_) => decode_varint(buf@) is None,
        },
{
    match prost_decode_varint(buf) {
        Ok((v, rest)) => {
            proof {
                lemma_decode_varint_len(buf@, 0);
            }
            Ok((v, buf.len() - rest))
        },
        Err(e) => Err(e),
    }
}

/// Appends the varint of `value` to `buf`.
pub fn write_varint(value: u64, buf: &mut Vec<u8>)
    ensures
        final(buf)@ == old(buf)@ + encode_varint(value as nat),
{
    prost_encode_varint(value, buf)
}

/// A decoded varint occupies at least one byte, at most the ten bytes
/// left from byte number `pos`, and no more than `s` holds; its value is
/// below the cap of its starting position.
pub proof fn lemma_decode_varint_len(s: Seq<u8>, pos: nat)
    ensures
        decode_varint_from(s, pos) matches Some((v, k)) ==> {
            &&& 1 <= k <= 10 - pos
            &&& k <= s.len()
            &&& v < varint_cap((9 - pos) as nat)
        },
    decreases s.len(),
{
    if s.len() > 0 && pos < 10 && s[0] >= 128 && pos != 9 {
        lemma_decode_varint_len(s.drop_first(), pos + 1);
        if let Some((v, k)) = decode_varint_from(s.drop_first(), pos + 1) {
            assert(varint_cap((9 - pos) as nat) == 128 * varint_cap((9 - (pos + 1)) as nat));
            assert(v + 1 <= varint_cap((9 - (pos + 1)) as nat));
            assert(128 * v + 128 <= 128 * varint_cap((9 - (pos + 1)) as nat)) by (nonlinear_arith)
                requires
                    v + 1 <= varint_cap((9 - (pos + 1)) as nat),
            ;
        }
    } else if s.len() > 0 && pos < 10 && s[0] < 128 {
        if pos < 9 {
            lemma_varint_cap_ge_two((9 - pos) as nat);
            assert(varint_cap((9 - pos) as nat) == 128 * varint_cap((9 - pos - 1) as nat));
        }
    }
}

proof fn lemma_varint_cap_ge_two(k: nat)
    ensures
        varint_cap(k) >= 2,
    decreases k,
{
    if k > 0 {
        lemma_varint_cap_ge_two((k - 1) as nat);
    }
}

/// The encoding of `n` is one byte longer per seven bits, and no longer than
/// the bytes left from byte number `pos` when `n` is below that position's cap.
pub proof fn lemma_encode_varint_len(n: nat, pos: nat)
    requires
        pos <= 9,
        n < varint_cap((9 - pos) as nat),
    ensures
        1 <= encode_varint(n).len() <= 10 - pos,
    decreases n,
{
    if n >= 128 {
        if pos == 9 {
            assert(varint_cap(0) == 2);
        } else {
            assert(varint_cap((9 - pos) as nat) == 128 * varint_cap((9 - (pos + 1)) as nat));
            lemma_div_below_cap(n, varint_cap((9 - (pos + 1)) as nat));
            lemma_encode_varint_len(n / 128, pos + 1);
        }
    }
}

proof fn lemma_div_below_cap(n: nat, c: nat)
    requires
        n < 128 * c,
    ensures
        n / 128 < c,
        n / 128 < n || n == 0,
{
    assert(n / 128 < c) by (nonlinear_arith)
        requires
            n < 128 * c,
    ;
}

/// Decoding reads back what encoding wrote, whatever follows it, as long as
/// the value fits the bytes left from byte number `pos`.
pub proof fn lemma_varint_roundtrip_from(n: nat, rest: Seq<u8>, pos: nat)
    requires
        pos <= 9,
        n < varint_cap((9 - pos) as nat),
    ensures
        decode_varint_from(encode_varint(n) + rest, pos) == Some((n, encode_varint(n).len())),
    decreases n,
{
    let s = encode_varint(n) + rest;
    if n < 128 {
        assert(s[0] == n as u8);
        if pos == 9 {
            assert(varint_cap(0) == 2);
        }
    } else {
        if pos == 9 {
            assert(varint_cap(0) == 2);
        }
        assert(varint_cap((9 - pos) as nat) == 128 * varint_cap((9 - (pos + 1)) as nat));
        lemma_div_below_cap(n, varint_cap((9 - (pos + 1)) as nat));
        let head = (n % 128 + 128) as u8;
        assert(s[0] == head);
        assert(s.drop_first() =~= encode_varint(n / 128) + rest);
        lemma_varint_roundtrip_from(n / 128, rest, pos + 1);
        assert(n == n % 128 + 128 * (n / 128)) by (nonlinear_arith);
    }
}

/// Law: reading a varint back from what `write_varint` wrote gives the value
/// and the length of its encoding, whatever bytes follow.
pub proof fn lemma_varint_roundtrip(n: u64, rest: Seq<u8>)
    ensures
        decode_varint(encode_varint(n as nat) + rest) == Some((n as nat, encode_varint(n as nat).len())),
        1 <= encode_varint(n as nat).len() <= 10,
{
    lemma_varint_cap_u64();
    lemma_varint_roundtrip_from(n as nat, rest, 0);
    lemma_encode_varint_len(n as nat, 0);
}

/// `s` holds only the start of a varint whose first byte is byte number
/// `pos`: fewer bytes than the varint may still take, each of them saying
/// that more follow.  More bytes may yet complete it.
pub open spec fn truncated_from(s: Seq<u8>, pos: nat) -> bool {
    &&& s.len() + pos < 10
    &&& forall|i: int| 0 <= i < s.len() ==> #[trigger] s[i] >= 128
}

/// `s` holds only the start of a varint.
pub open spec fn truncated(s: Seq<u8>) -> bool {
    truncated_from(s, 0)
}

/// Whether `buf` holds only the start of a varint.
pub fn is_truncated(buf: &[u8]) -> (r: bool)
    ensures
        r == truncated(buf@),
{
    if buf.len() >= MAX_VARINT_LEN {
        return false;
    }
    let mut i: usize = 0;
    while i < buf.len()
        invariant
            i <= buf@.len(),
            forall|j: int| 0 <= j < i ==> #[trigger] buf@[j] >= 128,
        decreases buf@.len() - i,
    {
        if buf[i] < 128 {
            return false;
        }
        i = i + 1;
    }
    true
}

/// Bytes after a varint do not change how it reads.
pub proof fn lemma_decode_varint_prefix(s: Seq<u8>, c: Seq<u8>, pos: nat)
    requires
        decode_varint_from(s, pos) is Some,
    ensures
        decode_varint_from(s + c, pos) == decode_varint_from(s, pos),
    decreases s.len(),
{
    let w = s + c;
    assert(w[0] == s[0]);
    if s[0] >= 128 && pos < 9 {
        assert(w.drop_first() =~= s.drop_first() + c);
        lemma_decode_varint_prefix(s.drop_first(), c, pos + 1);
    }
}

/// A varint that fails to read for a reason other than running out of
/// bytes fails whatever bytes follow.
pub proof fn lemma_decode_varint_failure_stays(s: Seq<u8>, c: Seq<u8>, pos: nat)
    requires
        pos <= 9,
        decode_varint_from(s, pos) is None,
        !truncated_from(s, pos),
    ensures
        decode_varint_from(s + c, pos) is None,
    decreases s.len(),
{
    let w = s + c;
    if s.len() == 0 {
        assert(truncated_from(s, pos));
    } else {
        assert(w[0] == s[0]);
        if s[0] >= 128 && pos < 9 {
            let r = s.drop_first();
            assert(w.drop_first() =~= r + c);
            assert(!truncated_from(r, pos + 1)) by {
                if truncated_from(r, pos + 1) {
                    assert forall|i: int| 0 <= i < s.len() implies #[trigger] s[i] >= 128 by {
                        if i > 0 {
                            assert(s[i] == r[i - 1]);
                        }
                    }
                }
            }
            lemma_decode_varint_failure_stays(r, c, pos + 1);
        }
    }
}

} // verus!
