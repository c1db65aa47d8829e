//! The wire format of one frame: an eight-byte little-endian payload length
//! followed by that many payload bytes.

use vstd::prelude::*;

verus! {

/// Number of bytes in the length prefix of a frame.
pub const HEADER_LEN: usize = 8;

/// Largest payload, in bytes, that a receiver accepts.
pub const MAX_MSG_BYTES: usize = 0x10_0000;

/// The same limit as a wire-level length.
pub const MESSAGE_SIZE_CAP: u64 = 0x10_0000;

/// The eight bytes that announce a payload of `n` bytes, least significant first.
pub open spec fn header_of(n: u64) -> Seq<u8> {
    seq![
        (n % 0x100) as u8,
        (n / 0x100 % 0x100) as u8,
        (n / 0x1_0000 % 0x100) as u8,
        (n / 0x100_0000 % 0x100) as u8,
        (n / 0x1_0000_0000 % 0x100) as u8,
        (n / 0x100_0000_0000 % 0x100) as u8,
        (n / 0x1_0000_0000_0000 % 0x100) as u8,
        (n / 0x100_0000_0000_0000 % 0x100) as u8,
    ]
}

/// The length that the first eight bytes of `head` announce.
pub open spec fn header_value(head: Seq<u8>) -> int
    recommends
        head.len() >= 8,
{
    head[0] as int + 0x100 * (head[1] as int) + 0x1_0000 * (head[2] as int) + 0x100_0000 * (
    head[3] as int) + 0x1_0000_0000 * (head[4] as int) + 0x100_0000_0000 * (head[5] as int)
        + 0x1_0000_0000_0000 * (head[6] as int) + 0x100_0000_0000_0000 * (head[7] as int)
}

/// The frame that carries `payload`: its length prefix, then the payload itself.
pub open spec fn frame_of(payload: Seq<u8>) -> Seq<u8>
    recommends
        payload.len() <= u64::MAX,
{
    header_of(payload.len() as u64) + payload
}

/// Dividing by 256 step by step reaches the same digits as dividing by the
/// powers of 256 at once.
proof fn lemma_digits(v: int)
    requires
        0 <= v,
    ensures
        v / 0x1_0000 == v / 0x100 / 0x100,
        v / 0x100_0000 == v / 0x100 / 0x100 / 0x100,
        v / 0x1_0000_0000 == v / 0x100 / 0x100 / 0x100 / 0x100,
        v / 0x100_0000_0000 == v / 0x100 / 0x100 / 0x100 / 0x100 / 0x100,
        v / 0x1_0000_0000_0000 == v / 0x100 / 0x100 / 0x100 / 0x100 / 0x100 / 0x100,
        v / 0x100_0000_0000_0000 == v / 0x100 / 0x100 / 0x100 / 0x100 / 0x100 / 0x100 / 0x100,
{
    vstd::arithmetic::div_mod::lemma_div_denominator(v, 0x100, 0x100);
    vstd::arithmetic::div_mod::lemma_div_denominator(v, 0x1_0000, 0x100);
    vstd::arithmetic::div_mod::lemma_div_denominator(v, 0x100_0000, 0x100);
    vstd::arithmetic::div_mod::lemma_div_denominator(v, 0x1_0000_0000, 0x100);
    vstd::arithmetic::div_mod::lemma_div_denominator(v, 0x100_0000_0000, 0x100);
    vstd::arithmetic::div_mod::lemma_div_denominator(v, 0x1_0000_0000_0000, 0x100);
}

/// A length prefix always decodes to the length it was made from.
pub proof fn lemma_header_round_trip(n: u64)
    ensures
        header_of(n).len() == 8,
        header_value(header_of(n)) == n,
{
    lemma_digits(n as int);
}

/// Eight bytes are the length prefix of the value they decode to, so no two
/// different prefixes announce the same length.
pub proof fn lemma_header_unique(head: Seq<u8>)
    requires
        head.len() == 8,
    ensures
        0 <= header_value(head) <= u64::MAX,
        header_of(header_value(head) as u64).len() == 8,
        header_of(header_value(head) as u64) == head,
{
    let v = header_value(head);
    let t7 = head[7] as int;
    let t6 = head[6] as int + 0x100 * t7;
    let t5 = head[5] as int + 0x100 * t6;
    let t4 = head[4] as int + 0x100 * t5;
    let t3 = head[3] as int + 0x100 * t4;
    let t2 = head[2] as int + 0x100 * t3;
    let t1 = head[1] as int + 0x100 * t2;
    assert(v == head[0] as int + 0x100 * t1);
    assert(v / 0x100 == t1);
    assert(t1 / 0x100 == t2);
    assert(t2 / 0x100 == t3);
    assert(t3 / 0x100 == t4);
    assert(t4 / 0x100 == t5);
    assert(t5 / 0x100 == t6);
    assert(t6 / 0x100 == t7);
    lemma_digits(v);
    assert(header_of(v as u64) =~= head);
}

/// Writes the length prefix for a payload of `n` bytes.
pub fn encode_len(n: u64) -> (out: Vec<u8>)
    ensures
        out@ == header_of(n),
{
    let mut out: Vec<u8> = Vec::with_capacity(8);
    let mut rest: u64 = n;
    let mut i: usize = 0;
    while i < 8
        invariant
            i <= 8,
            out@.len() == i,
            forall|k: int| 0 <= k < i ==> out@[k] == header_of(n)[k],
            i == 0 ==> rest == n,
            i == 1 ==> rest == n / 0x100,
            i == 2 ==> rest == n / 0x1_0000,
            i == 3 ==> rest == n / 0x100_0000,
            i == 4 ==> rest == n / 0x1_0000_0000,
            i == 5 ==> rest == n / 0x100_0000_0000,
            i == 6 ==> rest == n / 0x1_0000_0000_0000,
            i == 7 ==> rest == n / 0x100_0000_0000_0000,
        decreases 8 - i,
    {
        out.push((rest % 0x100) as u8);
        rest = rest / 0x100;
        i = i + 1;
    }
    assert(out@ =~= header_of(n));
    out
}

/// Reads the length that the first eight bytes of `head` announce.
pub fn decode_len(head: &[u8]) -> (n: u64)
    requires
        head@.len() >= 8,
    ensures
        n == header_value(head@),
{
    let mut n: u64 = 0;
    let mut i: usize = 8;
    while i > 0
        invariant
            i <= 8,
            head@.len() >= 8,
            i == 8 ==> n == 0,
            i == 7 ==> n == head@[7],
            i == 6 ==> n == head@[6] as int + 0x100 * (head@[7] as int),
            i == 5 ==> n == head@[5] as int + 0x100 * (head@[6] as int) + 0x1_0000 * (
            head@[7] as int),
            i == 4 ==> n == head@[4] as int + 0x100 * (head@[5] as int) + 0x1_0000 * (
            head@[6] as int) + 0x100_0000 * (head@[7] as int),
            i == 3 ==> n == head@[3] as int + 0x100 * (head@[4] as int) + 0x1_0000 * (
            head@[5] as int) + 0x100_0000 * (head@[6] as int) + 0x1_0000_0000 * (head@[7] as int),
            i == 2 ==> n == head@[2] as int + 0x100 * (head@[3] as int) + 0x1_0000 * (
            head@[4] as int) + 0x100_0000 * (head@[5] as int) + 0x1_0000_0000 * (head@[6] as int)
                + 0x100_0000_0000 * (head@[7] as int),
            i == 1 ==> n == head@[1] as int + 0x100 * (head@[2] as int) + 0x1_0000 * (
            head@[3] as int) + 0x100_0000 * (head@[4] as int) + 0x1_0000_0000 * (head@[5] as int)
                + 0x100_0000_0000 * (head@[6] as int) + 0x1_0000_0000_0000 * (head@[7] as int),
            i == 0 ==> n == header_value(head@),
        decreases i,
    {
        i = i - 1;
        n = n * 0x100 + head[i] as u64;
    }
    n
}

/// Wraps `payload` into one frame.
pub fn frame(payload: &[u8]) -> (out: Vec<u8>)
    ensures
        out@ == frame_of(payload@),
{
    let mut out: Vec<u8> = encode_len(payload.len() as u64);
    let mut i: usize = 0;
    while i < payload.len()
        invariant
            i <= payload@.len(),
            out@ == header_of(payload@.len() as u64) + payload@.take(i as int),
        decreases payload@.len() - i,
    {
        out.push(payload[i]);
        assert(payload@.take(i + 1) =~= payload@.take(i as int).push(payload@[i as int]));
        assert(out@ =~= header_of(payload@.len() as u64) + payload@.take(i + 1));
        i = i + 1;
    }
    assert(payload@.take(i as int) =~= payload@);
    out
}

} // verus!
