use vstd::prelude::*;
use vstd::string::StringExecFns;

verus! {

/// How many times a redirect is acknowledged: the transport may drop any one
/// datagram, so the same acknowledgment is sent repeatedly.
pub const ACK_REPEATS: usize = 10;

/// The acknowledgment of a redirect, as compact JSON with sorted keys.
pub open spec fn ack_message_spec() -> Seq<char> {
    "{\"success\":true,\"type\":\"updateTarget\"}"@
}

/// The acknowledgment of a redirect.
pub fn ack_message() -> (r: String)
    ensures
        r@ == ack_message_spec(),
{
    String::from_str("{\"success\":true,\"type\":\"updateTarget\"}")
}

/// The datagrams that acknowledge one redirect: the same message, `ACK_REPEATS` times.
pub fn ack_burst() -> (r: Vec<String>)
    ensures
        r.len() == ACK_REPEATS,
        forall|i: int| 0 <= i < r.len() ==> (#[trigger] r[i])@ == ack_message_spec(),
{
    let mut burst: Vec<String> = Vec::new();
    let mut n: usize = 0;
    while n < ACK_REPEATS
        invariant
            n <= ACK_REPEATS,
            burst.len() == n,
            forall|i: int| 0 <= i < burst.len() ==> (#[trigger] burst[i])@ == ack_message_spec(),
        decreases ACK_REPEATS - n,
    {
        burst.push(ack_message());
        n = n + 1;
    }
    burst
}

/// The eight bytes of `x`, most significant first.
pub open spec fn be_bytes(x: u64) -> Seq<u8> {
    seq![
        (x >> 56u64) as u8,
        (x >> 48u64) as u8,
        (x >> 40u64) as u8,
        (x >> 32u64) as u8,
        (x >> 24u64) as u8,
        (x >> 16u64) as u8,
        (x >> 8u64) as u8,
        x as u8,
    ]
}

/// The number that eight bytes, most significant first, encode.
pub open spec fn be_value(b: Seq<u8>) -> u64
    recommends
        b.len() == 8,
{
    (b[0] as u64) << 56u64 | (b[1] as u64) << 48u64 | (b[2] as u64) << 40u64 | (b[3] as u64)
        << 32u64 | (b[4] as u64) << 24u64 | (b[5] as u64) << 16u64 | (b[6] as u64) << 8u64 | (
    b[7] as u64)
}

/// The answer to a latency probe: a timestamp in microseconds, as eight
/// big-endian bytes.
pub fn ping_reply(micros: u64) -> (r: Vec<u8>)
    ensures
        r@ == be_bytes(micros),
{
    let mut out: Vec<u8> = Vec::new();
    out.push((micros >> 56u64) as u8);
    out.push((micros >> 48u64) as u8);
    out.push((micros >> 40u64) as u8);
    out.push((micros >> 32u64) as u8);
    out.push((micros >> 24u64) as u8);
    out.push((micros >> 16u64) as u8);
    out.push((micros >> 8u64) as u8);
    out.push(micros as u8);
    assert(out@ =~= be_bytes(micros));
    out
}

/// A probe's answer reads back as exactly the timestamp it was made from, so
/// later timestamps read back as larger numbers.
pub proof fn lemma_ping_reply_round_trip(x: u64, y: u64)
    ensures
        be_bytes(x).len() == 8,
        be_value(be_bytes(x)) == x,
        x < y ==> be_value(be_bytes(x)) < be_value(be_bytes(y)),
{
    let b = be_bytes(x);
    assert(b[0] == (x >> 56u64) as u8);
    assert(b[7] == x as u8);
    assert(((x >> 56u64) as u8 as u64) << 56u64 | ((x >> 48u64) as u8 as u64) << 48u64 | ((x
        >> 40u64) as u8 as u64) << 40u64 | ((x >> 32u64) as u8 as u64) << 32u64 | ((x
        >> 24u64) as u8 as u64) << 24u64 | ((x >> 16u64) as u8 as u64) << 16u64 | ((x
        >> 8u64) as u8 as u64) << 8u64 | (x as u8 as u64) == x) by (bit_vector);
    assert(((y >> 56u64) as u8 as u64) << 56u64 | ((y >> 48u64) as u8 as u64) << 48u64 | ((y
        >> 40u64) as u8 as u64) << 40u64 | ((y >> 32u64) as u8 as u64) << 32u64 | ((y
        >> 24u64) as u8 as u64) << 24u64 | ((y >> 16u64) as u8 as u64) << 16u64 | ((y
        >> 8u64) as u8 as u64) << 8u64 | (y as u8 as u64) == y) by (bit_vector);
}

} // verus!
