//! Timestamps and durations for session records and timeouts.
//!
//! Both types keep a pair of `i64` fields: whole seconds and a sub-second
//! nanosecond part. Every value handed out is *normalized*: the nanosecond
//! part is strictly below one second in magnitude and never opposes the
//! sign of the seconds part, so each denoted total has exactly one
//! representation.

use vstd::prelude::*;

verus! {

/// Total nanoseconds denoted by a raw seconds/nanoseconds pair.
pub open spec fn nanos_of(secs: int, nsecs: int) -> int {
    secs * 1_000_000_000 + nsecs
}

/// A normalized pair: the nanosecond part is a strict sub-second
/// correction whose sign never opposes the seconds part.
pub open spec fn normalized(secs: int, nsecs: int) -> bool {
    &&& -1_000_000_000 < nsecs < 1_000_000_000
    &&& secs > 0 ==> nsecs >= 0
    &&& secs < 0 ==> nsecs <= 0
}

/// The totals that a normalized pair of two `i64` fields can denote.
pub open spec fn representable(total: int) -> bool {
    i64::MIN * 1_000_000_000 - 999_999_999 <= total
        <= i64::MAX * 1_000_000_000 + 999_999_999
}

/// The seconds field of the normalized pair denoting a total: the total
/// divided by one second, rounded towards zero.
pub open spec fn sec_part(t: int) -> int {
    if t >= 0 {
        t / 1_000_000_000
    } else {
        -((-t) / 1_000_000_000)
    }
}

/// In a normalized pair the seconds field is the whole-second part of
/// the denoted total.
pub proof fn lemma_sec_part(s: int, n: int)
    requires
        normalized(s, n),
    ensures
        sec_part(nanos_of(s, n)) == s,
{
    let t = nanos_of(s, n);
    if t >= 0 {
        if s < 0 {
            assert(s * 1_000_000_000 <= -1_000_000_000);
            assert(false);
        }
        assert(0 <= n < 1_000_000_000);
        vstd::arithmetic::div_mod::lemma_fundamental_div_mod_converse(
            t, 1_000_000_000, s, n);
    } else {
        if s > 0 {
            assert(s * 1_000_000_000 >= 1_000_000_000);
            assert(false);
        }
        assert(0 <= -n < 1_000_000_000);
        assert(-t == (-s) * 1_000_000_000 + (-n));
        vstd::arithmetic::div_mod::lemma_fundamental_div_mod_converse(
            -t, 1_000_000_000, -s, -n);
    }
}

/// A normalized representation of a given total is unique.
pub proof fn lemma_normalized_unique(s1: int, n1: int, s2: int, n2: int)
    requires
        normalized(s1, n1),
        normalized(s2, n2),
        nanos_of(s1, n1) == nanos_of(s2, n2),
    ensures
        s1 == s2,
        n1 == n2,
{
    assert((s1 - s2) * 1_000_000_000 == n2 - n1);
    if s1 - s2 >= 2 {
        assert((s1 - s2) * 1_000_000_000 >= 2_000_000_000);
        assert(false);
    }
    if s2 - s1 >= 2 {
        assert((s1 - s2) * 1_000_000_000 <= -2_000_000_000);
        assert(false);
    }
    if s1 - s2 == 1 {
        assert(n2 - n1 == 1_000_000_000);
        assert(n2 > 0 && n1 < 0);
        assert(s1 <= 0 && s2 >= 0);
        assert(false);
    }
    if s2 - s1 == 1 {
        assert(n1 - n2 == 1_000_000_000);
        assert(n1 > 0 && n2 < 0);
        assert(s2 <= 0 && s1 >= 0);
        assert(false);
    }
}

/// Carries whole seconds out of the nanosecond part and lines the signs
/// up, keeping the denoted total unchanged.
fn normalize(secs: i64, nsecs: i64) -> (r: (i64, i64))
    requires
        representable(nanos_of(secs as int, nsecs as int)),
    ensures
        normalized(r.0 as int, r.1 as int),
        nanos_of(r.0 as int, r.1 as int) == nanos_of(secs as int, nsecs as int),
{
    let q: i64 = nsecs / 1_000_000_000;
    let rem: i64 = nsecs % 1_000_000_000;
    proof {
        assert(q * 1_000_000_000 + rem == nsecs);
        assert(-1_000_000_000 < rem < 1_000_000_000);
        assert(nsecs >= 0 ==> q >= 0 && rem >= 0);
        assert(nsecs < 0 ==> q <= 0 && rem <= 0);
        let t = nanos_of(secs as int, nsecs as int);
        assert(t == (secs + q) * 1_000_000_000 + rem);
        if secs + q > i64::MAX {
            assert(q >= 1);
            assert(rem >= 0);
            assert((secs + q) * 1_000_000_000 >= (i64::MAX + 1) * 1_000_000_000);
            assert(false);
        }
        if secs + q < i64::MIN {
            assert(q <= -1);
            assert(rem <= 0);
            assert((secs + q) * 1_000_000_000 <= (i64::MIN - 1) * 1_000_000_000);
            assert(false);
        }
    }
    let mut out_secs: i64 = secs + q;
    let mut out_nsecs: i64 = rem;
    if out_secs > 0 && out_nsecs < 0 {
        out_secs = out_secs - 1;
        out_nsecs = out_nsecs + 1_000_000_000;
    } else if out_secs < 0 && out_nsecs > 0 {
        out_secs = out_secs + 1;
        out_nsecs = out_nsecs - 1_000_000_000;
    }
    (out_secs, out_nsecs)
}

/// A point on the system's monotonic clock.
#[derive(Debug, Clone, Copy, PartialEq, Eq, PartialOrd, Ord, Structural)]
pub struct SystemTime {
    secs: i64,
    nsecs: i64,
}

/// Appends the eight bytes of `x`, least significant first.
fn push_le_bytes(out: &mut Vec<u8>, x: i64)
    ensures
        final(out)@ == old(out)@ + le_bytes_of(x as u64),
{
    let u: u64 = #[verifier::truncate] (x as u64);
    let ghost prefix = out@;
    let mut k: usize = 0;
    while k < 8
        invariant
            u == x as u64,
            0 <= k <= 8,
            out@ == prefix + le_bytes_of(u).take(k as int),
        decreases 8 - k,
    {
        let b: u8 = #[verifier::truncate] (((u >> ((8 * k) as u32)) & 0xff) as u8);
        proof {
            assert(b == u64_le_byte(u, k as int));
            assert(le_bytes_of(u).take(k as int + 1).drop_last() =~= le_bytes_of(u).take(k as int));
            assert((prefix + le_bytes_of(u).take(k as int)).push(b)
                =~= prefix + le_bytes_of(u).take(k as int + 1));
        }
        out.push(b);
        k = k + 1;
    }
    proof {
        assert(le_bytes_of(u).take(8) =~= le_bytes_of(u));
    }
}

/// Reads the machine word that eight bytes at `off` denote, least
/// significant first.
fn read_le_u64(bytes: &[u8], off: usize) -> (u: u64)
    requires
        off + 8 <= bytes@.len(),
    ensures
        u == u64_from_le(bytes@.subrange(off as int, off as int + 8)),
{
    let b0: u64 = bytes[off] as u64;
    let b1: u64 = bytes[off + 1] as u64;
    let b2: u64 = bytes[off + 2] as u64;
    let b3: u64 = bytes[off + 3] as u64;
    let b4: u64 = bytes[off + 4] as u64;
    let b5: u64 = bytes[off + 5] as u64;
    let b6: u64 = bytes[off + 6] as u64;
    let b7: u64 = bytes[off + 7] as u64;
    proof {
        let s = bytes@.subrange(off as int, off as int + 8);
        assert(s[0] == bytes@[off as int] && s[1] == bytes@[off as int + 1]
            && s[2] == bytes@[off as int + 2] && s[3] == bytes@[off as int + 3]
            && s[4] == bytes@[off as int + 4] && s[5] == bytes@[off as int + 5]
            && s[6] == bytes@[off as int + 6] && s[7] == bytes@[off as int + 7]);
    }
    b0 | (b1 << 8u32) | (b2 << 16u32) | (b3 << 24u32) | (b4 << 32u32) | (b5 << 40u32) | (b6
        << 48u32) | (b7 << 56u32)
}

/// A signed span of time.
#[derive(Debug, Clone, Copy, PartialEq, Eq, PartialOrd, Ord, Structural)]
pub struct Duration {
    secs: i64,
    nsecs: i64,
}

impl SystemTime {
    /// The total number of nanoseconds this timestamp denotes.
    pub closed spec fn nanos(self) -> int {
        nanos_of(self.secs as int, self.nsecs as int)
    }

    /// The pair is normalized. Holds of every value this module hands out.
    pub closed spec fn wf(self) -> bool {
        normalized(self.secs as int, self.nsecs as int)
    }

    /// Builds the timestamp denoting `secs` seconds plus `nsecs`
    /// nanoseconds, normalizing the pair.
    pub fn new(secs: i64, nsecs: i64) -> (t: SystemTime)
        requires
            representable(nanos_of(secs as int, nsecs as int)),
        ensures
            t.wf(),
            t.nanos() == nanos_of(secs as int, nsecs as int),
    {
        let (s, n) = normalize(secs, nsecs);
        SystemTime { secs: s, nsecs: n }
    }

    /// The sixteen bytes a timestamp is recorded as: seconds then
    /// nanoseconds, each as eight bytes, least significant first.
    pub closed spec fn spec_encode(self) -> Seq<u8> {
        le_bytes_of(self.secs as u64) + le_bytes_of(self.nsecs as u64)
    }

    /// Serializes this timestamp as its sixteen record bytes.
    pub fn encode(&self) -> (r: Vec<u8>)
        ensures
            r@ == self.spec_encode(),
            r@.len() == 16,
    {
        let mut out: Vec<u8> = Vec::new();
        push_le_bytes(&mut out, self.secs);
        push_le_bytes(&mut out, self.nsecs);
        proof {
            assert(out@ =~= self.spec_encode());
        }
        out
    }

    /// Reads a timestamp back from its record bytes: the first sixteen
    /// bytes give seconds and nanoseconds, which are normalized as
    /// `new` does. `None` exactly when fewer than sixteen bytes are
    /// there.
    pub fn decode(bytes: &[u8]) -> (r: Option<SystemTime>)
        requires
            bytes@.len() >= 16 ==> representable(nanos_of(
                u64_from_le(bytes@.subrange(0, 8)) as i64 as int,
                u64_from_le(bytes@.subrange(8, 16)) as i64 as int,
            )),
        ensures
            r is Some <==> bytes@.len() >= 16,
            r matches Some(t) ==> (t.wf() && t.nanos() == nanos_of(
                u64_from_le(bytes@.subrange(0, 8)) as i64 as int,
                u64_from_le(bytes@.subrange(8, 16)) as i64 as int,
            )),
    {
        if bytes.len() < 16 {
            return None;
        }
        let s_word: u64 = read_le_u64(bytes, 0);
        let n_word: u64 = read_le_u64(bytes, 8);
        let secs: i64 = #[verifier::truncate] (s_word as i64);
        let nsecs: i64 = #[verifier::truncate] (n_word as i64);
        Some(SystemTime::new(secs, nsecs))
    }

    /// The span from `rhs` to `self`.
    pub fn duration_since(self, rhs: SystemTime) -> (d: Duration)
        requires
            self.wf(),
            rhs.wf(),
            representable(self.nanos() - rhs.nanos()),
            i64::MIN <= sec_part(self.nanos()) - sec_part(rhs.nanos()) <= i64::MAX,
        ensures
            d.wf(),
            d.nanos() == self.nanos() - rhs.nanos(),
    {
        proof {
            lemma_sec_part(self.secs as int, self.nsecs as int);
            lemma_sec_part(rhs.secs as int, rhs.nsecs as int);
        }
        let (s, n) = normalize(self.secs - rhs.secs, self.nsecs - rhs.nsecs);
        Duration { secs: s, nsecs: n }
    }

    /// This timestamp moved forward by `rhs`.
    pub fn add(self, rhs: Duration) -> (t: SystemTime)
        requires
            self.wf(),
            rhs.wf(),
            representable(self.nanos() + rhs.nanos()),
        ensures
            t.wf(),
            t.nanos() == self.nanos() + rhs.nanos(),
    {
        let (s, n) = normalize(self.secs + rhs.secs, self.nsecs + rhs.nsecs);
        SystemTime { secs: s, nsecs: n }
    }

    /// This timestamp moved back by `rhs`.
    pub fn sub(self, rhs: Duration) -> (t: SystemTime)
        requires
            self.wf(),
            rhs.wf(),
            representable(self.nanos() - rhs.nanos()),
            i64::MIN <= sec_part(self.nanos()) - sec_part(rhs.nanos()) <= i64::MAX,
        ensures
            t.wf(),
            t.nanos() == self.nanos() - rhs.nanos(),
    {
        proof {
            lemma_sec_part(self.secs as int, self.nsecs as int);
            lemma_sec_part(rhs.secs as int, rhs.nsecs as int);
        }
        let (s, n) = normalize(self.secs - rhs.secs, self.nsecs - rhs.nsecs);
        SystemTime { secs: s, nsecs: n }
    }
}

impl Duration {
    /// The total number of nanoseconds this span denotes.
    pub closed spec fn nanos(self) -> int {
        nanos_of(self.secs as int, self.nsecs as int)
    }

    /// The pair is normalized. Holds of every value this module hands out.
    pub closed spec fn wf(self) -> bool {
        normalized(self.secs as int, self.nsecs as int)
    }

    /// Builds the span denoting `secs` seconds plus `nsecs` nanoseconds,
    /// normalizing the pair.
    pub fn new(secs: i64, nsecs: i64) -> (d: Duration)
        requires
            representable(nanos_of(secs as int, nsecs as int)),
        ensures
            d.wf(),
            d.nanos() == nanos_of(secs as int, nsecs as int),
    {
        let (s, n) = normalize(secs, nsecs);
        Duration { secs: s, nsecs: n }
    }

    /// A span of whole seconds.
    pub fn seconds(secs: i64) -> (d: Duration)
        ensures
            d.wf(),
            d.nanos() == secs * 1_000_000_000,
    {
        Duration::new(secs, 0)
    }

    /// A span of whole minutes.
    pub fn minutes(minutes: i64) -> (d: Duration)
        requires
            i64::MIN <= minutes * 60 <= i64::MAX,
        ensures
            d.wf(),
            d.nanos() == minutes * 60 * 1_000_000_000,
    {
        Duration::seconds(minutes * 60)
    }

    /// A span of whole milliseconds.
    pub fn milliseconds(ms: i64) -> (d: Duration)
        ensures
            d.wf(),
            d.nanos() == ms * 1_000_000,
    {
        let secs: i64 = ms / 1000;
        let rem: i64 = ms % 1000;
        proof {
            assert(secs * 1000 + rem == ms);
            assert(-1000 < rem < 1000);
        }
        Duration::new(secs, rem * 1_000_000)
    }

    /// The sum of the two spans.
    pub fn add(self, rhs: Duration) -> (d: Duration)
        requires
            self.wf(),
            rhs.wf(),
            representable(self.nanos() + rhs.nanos()),
        ensures
            d.wf(),
            d.nanos() == self.nanos() + rhs.nanos(),
    {
        let (s, n) = normalize(self.secs + rhs.secs, self.nsecs + rhs.nsecs);
        Duration { secs: s, nsecs: n }
    }

    /// The difference of the two spans.
    pub fn sub(self, rhs: Duration) -> (d: Duration)
        requires
            self.wf(),
            rhs.wf(),
            representable(self.nanos() - rhs.nanos()),
            i64::MIN <= sec_part(self.nanos()) - sec_part(rhs.nanos()) <= i64::MAX,
        ensures
            d.wf(),
            d.nanos() == self.nanos() - rhs.nanos(),
    {
        proof {
            lemma_sec_part(self.secs as int, self.nsecs as int);
            lemma_sec_part(rhs.secs as int, rhs.nsecs as int);
        }
        let (s, n) = normalize(self.secs - rhs.secs, self.nsecs - rhs.nsecs);
        Duration { secs: s, nsecs: n }
    }
}

/// Byte `k` of a machine word, counting from the least significant.
pub open spec fn u64_le_byte(u: u64, k: int) -> u8 {
    ((u >> (8 * k)) & 0xff) as u8
}

/// The eight bytes of a machine word, least significant first.
pub open spec fn le_bytes_of(u: u64) -> Seq<u8> {
    Seq::new(8, |i: int| u64_le_byte(u, i))
}

/// The machine word eight bytes denote, least significant first.
pub open spec fn u64_from_le(s: Seq<u8>) -> u64 {
    (s[0] as u64) | ((s[1] as u64) << 8) | ((s[2] as u64) << 16) | ((s[3] as u64) << 24)
        | ((s[4] as u64) << 32) | ((s[5] as u64) << 40) | ((s[6] as u64) << 48)
        | ((s[7] as u64) << 56)
}

/// Splitting a word into bytes and reassembling them gives the word
/// back.
pub proof fn lemma_le_bytes_roundtrip(u: u64)
    ensures
        u64_from_le(le_bytes_of(u)) == u,
{
    let s = le_bytes_of(u);
    assert(s[0] == u64_le_byte(u, 0) && s[1] == u64_le_byte(u, 1) && s[2] == u64_le_byte(u, 2)
        && s[3] == u64_le_byte(u, 3) && s[4] == u64_le_byte(u, 4) && s[5] == u64_le_byte(u, 5)
        && s[6] == u64_le_byte(u, 6) && s[7] == u64_le_byte(u, 7));
    assert((((u >> 0) & 0xff) as u8 as u64) | ((((u >> 8) & 0xff) as u8 as u64) << 8)
        | ((((u >> 16) & 0xff) as u8 as u64) << 16) | ((((u >> 24) & 0xff) as u8 as u64) << 24)
        | ((((u >> 32) & 0xff) as u8 as u64) << 32) | ((((u >> 40) & 0xff) as u8 as u64) << 40)
        | ((((u >> 48) & 0xff) as u8 as u64) << 48) | ((((u >> 56) & 0xff) as u8 as u64) << 56)
        == u) by (bit_vector);
}

/// A timestamp is determined by the total it denotes: two normalized
/// timestamps with equal totals are the same value.
pub proof fn lemma_system_time_injective(a: SystemTime, b: SystemTime)
    requires
        a.wf(),
        b.wf(),
        a.nanos() == b.nanos(),
    ensures
        a == b,
{
    lemma_normalized_unique(a.secs as int, a.nsecs as int, b.secs as int, b.nsecs as int);
}

/// Record round trip: the sixteen bytes a normalized timestamp encodes
/// to decode back to the very same timestamp. A caller of `decode` on
/// `encode`'s output gets this timestamp's total and, by
/// [`lemma_system_time_injective`], the same value.
pub proof fn lemma_encode_roundtrip(t: SystemTime)
    requires
        t.wf(),
    ensures
        t.spec_encode().len() == 16,
        representable(t.nanos()),
        nanos_of(
            u64_from_le(t.spec_encode().subrange(0, 8)) as i64 as int,
            u64_from_le(t.spec_encode().subrange(8, 16)) as i64 as int,
        ) == t.nanos(),
{
    let bytes = t.spec_encode();
    assert(bytes.subrange(0, 8) =~= le_bytes_of(t.secs as u64));
    assert(bytes.subrange(8, 16) =~= le_bytes_of(t.nsecs as u64));
    lemma_le_bytes_roundtrip(t.secs as u64);
    lemma_le_bytes_roundtrip(t.nsecs as u64);
    let s = t.secs;
    let n = t.nsecs;
    assert((s as u64) as i64 == s) by (bit_vector);
    assert((n as u64) as i64 == n) by (bit_vector);
}

/// A span is determined by the total it denotes: two normalized spans
/// with equal totals are the same value.
pub proof fn lemma_duration_injective(a: Duration, b: Duration)
    requires
        a.wf(),
        b.wf(),
        a.nanos() == b.nanos(),
    ensures
        a == b,
{
    lemma_normalized_unique(a.secs as int, a.nsecs as int, b.secs as int, b.nsecs as int);
}

} // verus!
