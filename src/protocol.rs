//! The configuration protocol: requests and responses travel as COBS frames, each ended by
//! a zero byte, over a bulk endpoint that moves at most one packet at a time.

use vstd::prelude::*;

use crate::model::Config;
use crate::store::{is_valid_config, spec_load, stored_region, ConfigFlash};
use crate::CONFIG_SIZE;

verus! {

/// Most bytes that a frame may take, delimiter included, before it is refused.
pub const COBS_BUFFER_SIZE: usize = 1024;

/// Largest packet of the bulk endpoint.
pub const PACKET_SIZE: usize = 64;

/// The index of the first zero byte, if any.
pub open spec fn first_zero(s: Seq<u8>) -> Option<int>
    decreases s.len(),
{
    if s.len() == 0 {
        None
    } else if s[0] == 0 {
        Some(0)
    } else {
        match first_zero(s.drop_first()) {
            Some(i) => Some(i + 1),
            None => None,
        }
    }
}

pub open spec fn has_no_zero(s: Seq<u8>) -> bool {
    forall|i: int| 0 <= i < s.len() ==> s[i] != 0
}

pub proof fn lemma_first_zero(s: Seq<u8>)
    ensures
        match first_zero(s) {
            Some(i) => 0 <= i < s.len() && s[i] == 0 && has_no_zero(s.take(i)),
            None => has_no_zero(s),
        },
    decreases s.len(),
{
    if s.len() > 0 {
        lemma_first_zero(s.drop_first());
        if s[0] != 0 {
            match first_zero(s.drop_first()) {
                Some(i) => {
                    assert forall|j: int| 0 <= j < i + 1 implies #[trigger] s.take(i + 1)[j] != 0 by {
                        if j > 0 {
                            assert(s.take(i + 1)[j] == s.drop_first().take(i)[j - 1]);
                        }
                    }
                },
                None => {
                    assert forall|j: int| 0 <= j < s.len() implies s[j] != 0 by {
                        if j > 0 {
                            assert(s[j] == s.drop_first()[j - 1]);
                        }
                    }
                },
            }
        }
    }
}

/// Decodes the body of a COBS frame (the bytes before its delimiter): each block starts
/// with a code byte `c` and holds `c - 1` data bytes, followed by a zero unless `c` is 0xff
/// or the block ends the frame. A code that runs past the end is an error.
pub open spec fn cobs_decode(s: Seq<u8>) -> Option<Seq<u8>>
    decreases s.len(),
{
    if s.len() == 0 {
        Some(Seq::empty())
    } else {
        let code = s[0] as int;
        if code > s.len() || code == 0 {
            None
        } else {
            let block = s.subrange(1, code);
            let rest = s.skip(code);
            let sep = if code != 0xff && rest.len() > 0 {
                seq![0u8]
            } else {
                Seq::empty()
            };
            match cobs_decode(rest) {
                Some(tail) => Some(block + sep + tail),
                None => None,
            }
        }
    }
}

/// Decodes the body of a COBS frame.
pub fn decode_frame(s: &[u8]) -> (r: Option<Vec<u8>>)
    ensures
        match r {
            Some(v) => cobs_decode(s@) == Some(v@),
            None => cobs_decode(s@) is None,
        },
{
    let mut out: Vec<u8> = Vec::new();
    let mut pos: usize = 0;
    let n = s.len();
    assert(s@.skip(0) == s@);
    assert(forall|t: Seq<u8>| out@ + t == t);
    while pos < n
        invariant
            n == s@.len(),
            pos <= n,
            cobs_decode(s@) == match cobs_decode(s@.skip(pos as int)) {
                Some(t) => Some(out@ + t),
                None => None,
            },
        decreases n - pos,
    {
        let ghost rest = s@.skip(pos as int);
        let code = s[pos] as usize;
        assert(rest[0] == code);
        if code == 0 || code > n - pos {
            return None;
        }
        let ghost before = out@;
        let mut k: usize = 1;
        while k < code
            invariant
                n == s@.len(),
                pos + code <= n,
                1 <= k <= code,
                rest == s@.skip(pos as int),
                out@ == before + rest.subrange(1, k as int),
            decreases code - k,
        {
            out.push(s[pos + k]);
            assert(rest.subrange(1, k + 1) == rest.subrange(1, k as int).push(rest[k as int]));
            k = k + 1;
        }
        assert(rest.skip(code as int) == s@.skip(pos + code));
        if code != 0xff && pos + code < n {
            out.push(0);
        }
        proof {
            let sep = if code != 0xff && rest.skip(code as int).len() > 0 {
                seq![0u8]
            } else {
                Seq::<u8>::empty()
            };
            assert(out@ == before + rest.subrange(1, code as int) + sep);
            match cobs_decode(rest.skip(code as int)) {
                Some(t) => {
                    assert(before + (rest.subrange(1, code as int) + sep + t) == out@ + t);
                },
                None => {},
            }
        }
        pos = pos + code;
    }
    assert(s@.skip(n as int) == Seq::<u8>::empty());
    assert(out@ + Seq::<u8>::empty() == out@);
    Some(out)
}
/// What feeding a packet to the accumulator gave, as a mathematical value.
pub enum FeedOutcome {
    Consumed,
    OverFull,
    DeserError,
    Success(Seq<u8>),
}

/// What feeding a packet to the accumulator gave.
#[derive(Debug)]
pub enum FeedResult {
    /// The packet was taken in; the frame is not complete yet.
    Consumed,
    /// The frame outgrew the buffer; what was gathered is dropped.
    OverFull,
    /// The frame was complete but is not valid COBS.
    DeserError,
    /// The frame was complete; these are its decoded bytes.
    Success(Vec<u8>),
}

impl View for FeedResult {
    type V = FeedOutcome;

    open spec fn view(&self) -> FeedOutcome {
        match self {
            FeedResult::Consumed => FeedOutcome::Consumed,
            FeedResult::OverFull => FeedOutcome::OverFull,
            FeedResult::DeserError => FeedOutcome::DeserError,
            FeedResult::Success(v) => FeedOutcome::Success(v@),
        }
    }
}

/// Feeding `input` to an accumulator holding `pending`: the pending bytes afterwards and
/// the outcome. Up to the first zero byte the input joins the pending bytes; at that zero
/// the frame is complete and is decoded, and anything after it in the packet is dropped. A
/// frame that would outgrow the buffer is refused and the buffer emptied.
pub open spec fn spec_feed(pending: Seq<u8>, input: Seq<u8>) -> (Seq<u8>, FeedOutcome) {
    if input.len() == 0 {
        (pending, FeedOutcome::Consumed)
    } else {
        match first_zero(input) {
            Some(n) => if pending.len() + n + 1 <= COBS_BUFFER_SIZE {
                (
                    Seq::empty(),
                    match cobs_decode(pending + input.take(n)) {
                        Some(d) => FeedOutcome::Success(d),
                        None => FeedOutcome::DeserError,
                    },
                )
            } else {
                (Seq::empty(), FeedOutcome::OverFull)
            },
            None => if pending.len() + input.len() > COBS_BUFFER_SIZE {
                (Seq::empty(), FeedOutcome::OverFull)
            } else {
                (pending + input, FeedOutcome::Consumed)
            },
        }
    }
}

/// Gathers packets until a frame is complete.
pub struct CobsAccumulator {
    /// The bytes of the frame so far, without its delimiter.
    pub pending: Vec<u8>,
}

impl CobsAccumulator {
    pub open spec fn wf(&self) -> bool {
        self.pending@.len() <= COBS_BUFFER_SIZE && has_no_zero(self.pending@)
    }

    pub fn new() -> (r: CobsAccumulator)
        ensures
            r.wf(),
            r.pending@.len() == 0,
    {
        CobsAccumulator { pending: Vec::new() }
    }

    /// Feeds one packet.
    pub fn feed(&mut self, input: &[u8]) -> (r: FeedResult)
        requires
            old(self).wf(),
        ensures
            final(self).wf(),
            (final(self).pending@, r@) == spec_feed(old(self).pending@, input@),
    {
        if input.len() == 0 {
            return FeedResult::Consumed;
        }
        proof {
            lemma_first_zero(input@);
        }
        let mut n: usize = 0;
        while n < input.len() && input[n] != 0
            invariant
                n <= input@.len(),
                has_no_zero(input@.take(n as int)),
            decreases input.len() - n,
        {
            assert(input@.take(n + 1) == input@.take(n as int).push(input@[n as int]));
            n = n + 1;
        }
        if n == input.len() {
            assert(input@.take(n as int) == input@);
            assert(first_zero(input@) is None) by {
                lemma_first_zero(input@);
                if let Some(z) = first_zero(input@) {
                    assert(input@[z] == 0);
                }
            }
            if input.len() > COBS_BUFFER_SIZE - self.pending.len() {
                self.pending = Vec::new();
                return FeedResult::OverFull;
            }
            let mut i: usize = 0;
            let ghost start = self.pending@;
            while i < input.len()
                invariant
                    i <= input@.len(),
                    start.len() + input@.len() <= COBS_BUFFER_SIZE,
                    self.pending@ == start + input@.take(i as int),
                decreases input.len() - i,
            {
                self.pending.push(input[i]);
                assert(input@.take(i + 1) == input@.take(i as int).push(input@[i as int]));
                i = i + 1;
            }
            assert(input@.take(i as int) == input@);
            assert(has_no_zero(self.pending@)) by {
                assert forall|j: int| 0 <= j < self.pending@.len() implies self.pending@[j] != 0 by {
                    if j >= start.len() {
                        assert(self.pending@[j] == input@[j - start.len()]);
                    }
                }
            }
            return FeedResult::Consumed;
        }
        assert(first_zero(input@) == Some(n as int)) by {
            lemma_first_zero(input@);
            match first_zero(input@) {
                Some(z) => {
                    if z < n {
                        assert(input@.take(n as int)[z] == input@[z]);
                    }
                    if z > n {
                        assert(input@.take(z)[n as int] == input@[n as int]);
                    }
                },
                None => {},
            }
        }
        if n + 1 > COBS_BUFFER_SIZE - self.pending.len() {
            self.pending = Vec::new();
            return FeedResult::OverFull;
        }
        let mut i: usize = 0;
        let ghost start = self.pending@;
        while i < n
            invariant
                n < input@.len(),
                i <= n,
                self.pending@ == start + input@.take(i as int),
            decreases n - i,
        {
            self.pending.push(input[i]);
            assert(input@.take(i + 1) == input@.take(i as int).push(input@[i as int]));
            i = i + 1;
        }
        let decoded = decode_frame(self.pending.as_slice());
        self.pending = Vec::new();
        match decoded {
            Some(d) => FeedResult::Success(d),
            None => FeedResult::DeserError,
        }
    }
}
/// The bytes of a run of packets, one after the other.
pub open spec fn concat_chunks(chunks: Seq<Seq<u8>>) -> Seq<u8>
    decreases chunks.len(),
{
    if chunks.len() == 0 {
        Seq::empty()
    } else {
        chunks[0] + concat_chunks(chunks.drop_first())
    }
}

/// Feeding a run of packets in order: the pending bytes at the end and each outcome.
pub open spec fn feed_all(pending: Seq<u8>, chunks: Seq<Seq<u8>>) -> (Seq<u8>, Seq<FeedOutcome>)
    decreases chunks.len(),
{
    if chunks.len() == 0 {
        (pending, Seq::empty())
    } else {
        let (p1, o) = spec_feed(pending, chunks[0]);
        let (pf, os) = feed_all(p1, chunks.drop_first());
        (pf, seq![o] + os)
    }
}

proof fn lemma_first_zero_at(s: Seq<u8>, k: int)
    requires
        0 <= k < s.len(),
        s[k] == 0,
        has_no_zero(s.take(k)),
    ensures
        first_zero(s) == Some(k),
{
    lemma_first_zero(s);
    match first_zero(s) {
        Some(z) => {
            if z < k {
                assert(s.take(k)[z] == s[z]);
            }
            if z > k {
                assert(s.take(z)[k] == s[k]);
            }
        },
        None => {},
    }
}

proof fn lemma_chunks_nonempty(chunks: Seq<Seq<u8>>)
    requires
        chunks.len() > 0,
        forall|i: int| 0 <= i < chunks.len() ==> (#[trigger] chunks[i]).len() > 0,
    ensures
        concat_chunks(chunks).len() > 0,
{
    assert(chunks[0].len() > 0);
}

proof fn lemma_feed_split_frame(pending: Seq<u8>, chunks: Seq<Seq<u8>>, f: Seq<u8>)
    requires
        has_no_zero(f),
        f.len() < COBS_BUFFER_SIZE,
        chunks.len() > 0,
        forall|i: int| 0 <= i < chunks.len() ==> (#[trigger] chunks[i]).len() > 0,
        pending + concat_chunks(chunks) == f.push(0),
    ensures
        feed_all(pending, chunks).0 == Seq::<u8>::empty(),
        feed_all(pending, chunks).1.len() == chunks.len(),
        forall|i: int|
            0 <= i < chunks.len() - 1 ==> #[trigger] feed_all(pending, chunks).1[i]
                == FeedOutcome::Consumed,
        feed_all(pending, chunks).1[chunks.len() - 1] == spec_feed(Seq::empty(), f.push(0)).1,
    decreases chunks.len(),
{
    let c = chunks[0];
    let rest = chunks.drop_first();
    let whole = f.push(0);
    assert(chunks[0].len() > 0);
    assert(concat_chunks(chunks) == c + concat_chunks(rest));
    // The frame decoded from scratch.
    lemma_first_zero_at(whole, f.len() as int);
    assert(whole.take(f.len() as int) == f);
    assert(Seq::<u8>::empty() + f == f);
    if rest.len() == 0 {
        assert(concat_chunks(rest) == Seq::<u8>::empty());
        assert(pending + c == whole);
        let n = c.len() - 1;
        assert(c[n] == 0) by {
            assert(whole[whole.len() - 1] == 0);
            assert((pending + c)[pending.len() + n] == c[n]);
        }
        assert(has_no_zero(c.take(n))) by {
            assert forall|j: int| 0 <= j < n implies #[trigger] c.take(n)[j] != 0 by {
                assert((pending + c)[pending.len() + j] == c[j]);
                assert(whole[pending.len() + j] == f[pending.len() + j]);
            }
        }
        lemma_first_zero_at(c, n);
        assert(pending + c.take(n) == f);
        assert(feed_all(Seq::empty(), rest) == (Seq::<u8>::empty(), Seq::<FeedOutcome>::empty()));
    } else {
        assert forall|i: int| 0 <= i < rest.len() implies (#[trigger] rest[i]).len() > 0 by {
            assert(rest[i] == chunks[i + 1]);
        }
        lemma_chunks_nonempty(rest);
        let p1 = pending + c;
        assert(p1 + concat_chunks(rest) == whole);
        assert(p1.len() <= f.len());
        assert(has_no_zero(c)) by {
            assert forall|j: int| 0 <= j < c.len() implies c[j] != 0 by {
                assert(p1[pending.len() + j] == c[j]);
                assert(whole[pending.len() + j] == f[pending.len() + j]);
            }
        }
        lemma_first_zero(c);
        assert(first_zero(c) is None) by {
            if let Some(z) = first_zero(c) {
                assert(c[z] == 0);
            }
        }
        assert(spec_feed(pending, c) == (p1, FeedOutcome::Consumed));
        lemma_feed_split_frame(p1, rest, f);
        let os = feed_all(p1, rest).1;
        assert(feed_all(pending, chunks).1 == seq![FeedOutcome::Consumed] + os);
        assert forall|i: int| 0 <= i < chunks.len() - 1 implies #[trigger] feed_all(
            pending,
            chunks,
        ).1[i] == FeedOutcome::Consumed by {
            if i > 0 {
                assert(feed_all(pending, chunks).1[i] == os[i - 1]);
            }
        }
    }
}

/// Splitting a frame into packets does not change what it decodes to: fed to a fresh
/// accumulator in any number of non-empty pieces, every piece but the last is just taken in,
/// and the last gives what the whole frame in one packet gives.
pub proof fn lemma_chunking_does_not_matter(f: Seq<u8>, chunks: Seq<Seq<u8>>)
    requires
        has_no_zero(f),
        f.len() < COBS_BUFFER_SIZE,
        chunks.len() > 0,
        forall|i: int| 0 <= i < chunks.len() ==> (#[trigger] chunks[i]).len() > 0,
        concat_chunks(chunks) == f.push(0),
    ensures
        feed_all(Seq::empty(), chunks).0 == Seq::<u8>::empty(),
        feed_all(Seq::empty(), chunks).1.len() == chunks.len(),
        forall|i: int|
            0 <= i < chunks.len() - 1 ==> #[trigger] feed_all(Seq::empty(), chunks).1[i]
                == FeedOutcome::Consumed,
        feed_all(Seq::empty(), chunks).1[chunks.len() - 1] == spec_feed(Seq::empty(), f.push(0)).1,
        spec_feed(Seq::empty(), f.push(0)).1 == match cobs_decode(f) {
            Some(d) => FeedOutcome::Success(d),
            None => FeedOutcome::DeserError,
        },
{
    assert(Seq::<u8>::empty() + concat_chunks(chunks) == concat_chunks(chunks));
    lemma_feed_split_frame(Seq::empty(), chunks, f);
    lemma_first_zero_at(f.push(0), f.len() as int);
    assert(f.push(0).take(f.len() as int) == f);
    assert(Seq::<u8>::empty() + f == f);
}

/// No wedge: a frame that outgrows the buffer is refused and the buffer emptied; the rest of
/// that message, up to its delimiter, leaves the buffer empty again whatever it held; and
/// the next valid frame, in any pieces, then decodes as in a fresh accumulator.
pub proof fn lemma_overflow_then_recovery(
    pending: Seq<u8>,
    over: Seq<u8>,
    tail: Seq<u8>,
    f: Seq<u8>,
    chunks: Seq<Seq<u8>>,
)
    requires
        pending.len() <= COBS_BUFFER_SIZE,
        has_no_zero(over),
        over.len() > 0,
        pending.len() + over.len() > COBS_BUFFER_SIZE,
        first_zero(tail) is Some,
        has_no_zero(f),
        f.len() < COBS_BUFFER_SIZE,
        chunks.len() > 0,
        forall|i: int| 0 <= i < chunks.len() ==> (#[trigger] chunks[i]).len() > 0,
        concat_chunks(chunks) == f.push(0),
    ensures
        spec_feed(pending, over) == (Seq::<u8>::empty(), FeedOutcome::OverFull),
        forall|p: Seq<u8>| (#[trigger] spec_feed(p, tail)).0 == Seq::<u8>::empty(),
        feed_all(Seq::empty(), chunks).1[chunks.len() - 1] == spec_feed(Seq::empty(), f.push(0)).1,
{
    lemma_first_zero(over);
    assert(first_zero(over) is None) by {
        if let Some(z) = first_zero(over) {
            assert(over[z] == 0);
        }
    }
    lemma_chunking_does_not_matter(f, chunks);
}
/// How many bytes, from the start of `d`, the next COBS block covers: up to the first
/// zero when one comes within 254 bytes, else at most 254 bytes.
pub open spec fn block_len(d: Seq<u8>) -> int {
    match first_zero(d) {
        Some(z) => if z < 254 {
            z
        } else {
            254
        },
        None => if d.len() < 254 {
            d.len() as int
        } else {
            254
        },
    }
}

/// Encodes data as the body of a COBS frame, without the delimiter.
pub open spec fn cobs_encode(d: Seq<u8>) -> Seq<u8>
    decreases d.len(),
{
    if d.len() == 0 {
        seq![1u8]
    } else {
        let k = block_len(d);
        if 0 <= k < 254 && k < d.len() {
            // The block ends at a zero, which the code byte stands for.
            seq![(k + 1) as u8] + d.take(k) + cobs_encode(d.skip(k + 1))
        } else if d.len() < 254 {
            seq![(d.len() + 1) as u8] + d
        } else if d.len() == 254 {
            seq![0xffu8] + d
        } else {
            seq![0xffu8] + d.take(254) + cobs_encode(d.skip(254))
        }
    }
}

proof fn lemma_block_len(d: Seq<u8>)
    requires
        d.len() > 0,
    ensures
        0 <= block_len(d) <= 254,
        block_len(d) <= d.len(),
        has_no_zero(d.take(block_len(d))),
        block_len(d) < 254 && block_len(d) < d.len() ==> d[block_len(d)] == 0,
        block_len(d) == d.len() ==> has_no_zero(d),
{
    lemma_first_zero(d);
    let k = block_len(d);
    match first_zero(d) {
        Some(z) => {
            if z >= 254 {
                assert forall|j: int| 0 <= j < 254 implies #[trigger] d.take(254)[j] != 0 by {
                    assert(d.take(254)[j] == d.take(z)[j]);
                }
            }
        },
        None => {
            assert forall|j: int| 0 <= j < k implies #[trigger] d.take(k)[j] != 0 by {
                assert(d.take(k)[j] == d[j]);
            }
            if k == d.len() {
                assert(d.take(k) == d);
            }
        },
    }
}

/// The length of the block that starts at `pos`: scans up to 254 bytes for a zero.
fn scan_block(d: &[u8], pos: usize) -> (k: usize)
    requires
        pos < d@.len(),
    ensures
        k == block_len(d@.skip(pos as int)),
{
    let ghost rest = d@.skip(pos as int);
    proof {
        lemma_first_zero(rest);
    }
    let mut k: usize = 0;
    while k < 254 && k < d.len() - pos && d[pos + k] != 0
        invariant
            pos < d@.len(),
            rest == d@.skip(pos as int),
            k <= 254,
            pos + k <= d@.len(),
            has_no_zero(rest.take(k as int)),
        decreases 254 - k,
    {
        assert(rest[k as int] == d@[pos + k]);
        assert(rest.take(k + 1) == rest.take(k as int).push(rest[k as int]));
        k = k + 1;
    }
    proof {
        lemma_first_zero(rest);
        match first_zero(rest) {
            Some(z) => {
                if z < k {
                    assert(rest.take(k as int)[z] == rest[z]);
                }
                if pos + k < d@.len() && k < 254 && z > k {
                    assert(rest[k as int] == d@[pos + k]);
                    assert(rest.take(z)[k as int] == rest[k as int]);
                }
            },
            None => {
                if pos + k < d@.len() && k < 254 {
                    assert(rest[k as int] == d@[pos + k]);
                }
            },
        }
    }
    k
}

/// The COBS body of any message holds no zero byte, so its delimiter is unambiguous, and
/// decodes back to the message.
pub proof fn lemma_cobs_round_trip(d: Seq<u8>)
    ensures
        has_no_zero(cobs_encode(d)),
        cobs_decode(cobs_encode(d)) == Some(d),
    decreases d.len(),
{
    let e = cobs_encode(d);
    if d.len() == 0 {
        assert(e == seq![1u8]);
        assert(e.subrange(1, 1) == Seq::<u8>::empty());
        assert(e.skip(1) == Seq::<u8>::empty());
        assert(Seq::<u8>::empty() + Seq::<u8>::empty() + Seq::<u8>::empty() == Seq::<u8>::empty());
        assert(cobs_decode(Seq::<u8>::empty()) == Some(Seq::<u8>::empty()));
        assert(cobs_decode(e) == Some(d));
    } else {
        lemma_block_len(d);
        let k = block_len(d);
        if 0 <= k < 254 && k < d.len() {
            let rest = d.skip(k + 1);
            lemma_cobs_round_trip(rest);
            let er = cobs_encode(rest);
            assert(er.len() > 0) by {
                if rest.len() == 0 {
                    assert(er == seq![1u8]);
                }
            }
            assert(e == seq![(k + 1) as u8] + d.take(k) + er);
            assert(e.subrange(1, k + 1) == d.take(k));
            assert(e.skip(k + 1) == er);
            assert(d.take(k) + seq![0u8] + rest == d) by {
                assert(d[k] == 0);
            }
            assert(cobs_decode(e) == Some(d));
            assert forall|i: int| 0 <= i < e.len() implies e[i] != 0 by {
                if 1 <= i < k + 1 {
                    assert(e[i] == d.take(k)[i - 1]);
                } else if i >= k + 1 {
                    assert(e[i] == er[i - (k + 1)]);
                }
            }
        } else if d.len() < 254 {
            assert(k == d.len());
            assert(e == seq![(d.len() + 1) as u8] + d);
            assert(e.subrange(1, d.len() + 1 as int) == d);
            assert(e.skip(d.len() + 1 as int) == Seq::<u8>::empty());
            assert(d + Seq::<u8>::empty() + Seq::<u8>::empty() == d);
            assert(cobs_decode(Seq::<u8>::empty()) == Some(Seq::<u8>::empty()));
            assert(cobs_decode(e) == Some(d));
            assert forall|i: int| 0 <= i < e.len() implies e[i] != 0 by {
                if i >= 1 {
                    assert(d.take(k) == d);
                    assert(e[i] == d.take(k)[i - 1]);
                }
            }
        } else if d.len() == 254 {
            assert(k == 254);
            assert(d.take(254) == d);
            assert(e == seq![0xffu8] + d);
            assert(e.subrange(1, 255) == d);
            assert(e.skip(255) == Seq::<u8>::empty());
            assert(d + Seq::<u8>::empty() + Seq::<u8>::empty() == d);
            assert(cobs_decode(Seq::<u8>::empty()) == Some(Seq::<u8>::empty()));
            assert(cobs_decode(e) == Some(d));
            assert forall|i: int| 0 <= i < e.len() implies e[i] != 0 by {
                if i >= 1 {
                    assert(e[i] == d.take(254)[i - 1]);
                }
            }
        } else {
            assert(k == 254);
            let rest = d.skip(254);
            lemma_cobs_round_trip(rest);
            let er = cobs_encode(rest);
            assert(e == seq![0xffu8] + d.take(254) + er);
            assert(e.subrange(1, 255) == d.take(254));
            assert(e.skip(255) == er);
            assert(d.take(254) + Seq::<u8>::empty() + rest == d);
            assert(cobs_decode(e) == Some(d));
            assert forall|i: int| 0 <= i < e.len() implies e[i] != 0 by {
                if 1 <= i < 255 {
                    assert(e[i] == d.take(254)[i - 1]);
                } else if i >= 255 {
                    assert(e[i] == er[i - 255]);
                }
            }
        }
    }
}

/// Encodes data as the body of a COBS frame.
pub fn encode_frame(d: &[u8]) -> (r: Vec<u8>)
    ensures
        r@ == cobs_encode(d@),
{
    let mut out: Vec<u8> = Vec::new();
    let mut pos: usize = 0;
    let n = d.len();
    assert(d@.skip(0) == d@);
    loop
        invariant
            n == d@.len(),
            pos <= n,
            out@ + cobs_encode(d@.skip(pos as int)) == cobs_encode(d@),
        decreases n - pos,
    {
        let ghost rest = d@.skip(pos as int);
        if pos == n {
            out.push(1);
            assert(rest.len() == 0);
            return out;
        }
        let k = scan_block(d, pos);
        proof {
            lemma_block_len(rest);
        }
        let ghost before = out@;
        if k < 254 {
            out.push((k + 1) as u8);
        } else {
            out.push(0xff);
        }
        let mut j: usize = 0;
        while j < k
            invariant
                n == d@.len(),
                pos + k <= n,
                j <= k,
                k <= 254,
                rest == d@.skip(pos as int),
                out@ == before + seq![(if k < 254 { (k + 1) as u8 } else { 0xffu8 })] + rest.take(j as int),
            decreases k - j,
        {
            out.push(d[pos + j]);
            assert(rest.take(j + 1) == rest.take(j as int).push(rest[j as int]));
            j = j + 1;
        }
        if k < 254 && pos + k < n {
            assert(rest.skip(k + 1) == d@.skip(pos + k + 1));
            pos = pos + k + 1;
        } else if k < 254 {
            assert(rest.take(k as int) == rest);
            assert(out@ == before + cobs_encode(rest));
            return out;
        } else if pos + k == n {
            assert(rest.take(k as int) == rest);
            assert(out@ == before + cobs_encode(rest));
            return out;
        } else {
            assert(rest.skip(254) == d@.skip(pos + 254));
            pos = pos + 254;
        }
    }
}

/// A whole frame: the COBS body and its zero delimiter.
pub fn frame_message(d: &[u8]) -> (r: Vec<u8>)
    ensures
        r@ == cobs_encode(d@).push(0),
{
    let mut r = encode_frame(d);
    r.push(0);
    r
}

/// Splits a frame into packets of the bulk endpoint, in order.
pub fn packets(frame: &[u8]) -> (r: Vec<Vec<u8>>)
    ensures
        r@.len() == (frame@.len() + PACKET_SIZE - 1) / PACKET_SIZE as int,
        forall|i: int|
            0 <= i < r@.len() ==> (#[trigger] r@[i])@ == frame@.subrange(
                i * PACKET_SIZE,
                if (i + 1) * PACKET_SIZE < frame@.len() {
                    (i + 1) * PACKET_SIZE
                } else {
                    frame@.len() as int
                },
            ),
{
    let mut r: Vec<Vec<u8>> = Vec::new();
    let mut start: usize = 0;
    while start < frame.len()
        invariant
            start <= frame@.len(),
            r@.len() * PACKET_SIZE <= frame@.len() ==> start == r@.len() * PACKET_SIZE,
            r@.len() * PACKET_SIZE > frame@.len() ==> start == frame@.len(),
            r@.len() == 0 || (r@.len() - 1) * PACKET_SIZE < frame@.len(),
            forall|i: int|
                0 <= i < r@.len() ==> (#[trigger] r@[i])@ == frame@.subrange(
                    i * PACKET_SIZE,
                    if (i + 1) * PACKET_SIZE < frame@.len() {
                        (i + 1) * PACKET_SIZE
                    } else {
                        frame@.len() as int
                    },
                ),
        decreases frame.len() - start,
    {
        let end = if frame.len() - start > PACKET_SIZE {
            start + PACKET_SIZE
        } else {
            frame.len()
        };
        let mut p: Vec<u8> = Vec::new();
        let mut i: usize = start;
        while i < end
            invariant
                start <= i <= end,
                end <= frame@.len(),
                p@ == frame@.subrange(start as int, i as int),
            decreases end - i,
        {
            p.push(frame[i]);
            assert(frame@.subrange(start as int, i + 1) == frame@.subrange(start as int, i as int).push(frame@[i as int]));
            i = i + 1;
        }
        r.push(p);
        start = end;
    }
    assert(r@.len() == (frame@.len() + PACKET_SIZE - 1) / PACKET_SIZE as int) by {
        assert(r@.len() * PACKET_SIZE >= frame@.len());
        assert(r@.len() == 0 || (r@.len() - 1) * PACKET_SIZE < frame@.len());
    }
    r
}
/// A request of the configuration client.
#[derive(Clone, Debug, PartialEq)]
pub enum Request {
    /// Asks for the stored configuration archive.
    GetConfig,
    /// Replaces the stored configuration with this archive.
    SetConfig(Vec<u8>),
}

/// The device's answer to a request.
#[derive(Debug, PartialEq)]
pub enum Response {
    /// The stored archive, or `Err` when the region holds none.
    GetConfig(Result<Vec<u8>, ()>),
    /// The archive was stored.
    SetConfig,
    /// The request could not be read or was refused.
    ProtocolError,
}

/// What to do after a packet arrived.
#[derive(Debug)]
pub enum PacketAction {
    /// The request is not complete yet: read another packet.
    Wait,
    /// The frame was too long or malformed: answer `ProtocolError`.
    Reject,
    /// A whole frame arrived: decode these bytes as a request.
    Decode(Vec<u8>),
}

/// The device side of the configuration protocol: one request at a time.
pub struct WebConfig {
    pub accumulator: CobsAccumulator,
}

impl WebConfig {
    pub open spec fn wf(&self) -> bool {
        self.accumulator.wf()
    }

    pub fn new() -> (r: WebConfig)
        ensures
            r.wf(),
            r.accumulator.pending@.len() == 0,
    {
        WebConfig { accumulator: CobsAccumulator::new() }
    }

    /// Takes one packet of the bulk endpoint. A refused frame leaves the accumulator empty,
    /// so the next frame starts clean.
    pub fn receive(&mut self, packet: &[u8]) -> (r: PacketAction)
        requires
            old(self).wf(),
        ensures
            final(self).wf(),
            final(self).accumulator.pending@ == spec_feed(old(self).accumulator.pending@, packet@).0,
            match spec_feed(old(self).accumulator.pending@, packet@).1 {
                FeedOutcome::Consumed => r is Wait,
                FeedOutcome::OverFull => r is Reject,
                FeedOutcome::DeserError => r is Reject,
                FeedOutcome::Success(d) => match r {
                    PacketAction::Decode(v) => v@ == d,
                    _ => false,
                },
            },
    {
        match self.accumulator.feed(packet) {
            FeedResult::Consumed => PacketAction::Wait,
            FeedResult::OverFull => PacketAction::Reject,
            FeedResult::DeserError => PacketAction::Reject,
            FeedResult::Success(d) => PacketAction::Decode(d),
        }
    }

    /// Answers a decoded request. `GetConfig` returns the stored archive as it is in flash;
    /// `SetConfig` stores the archive when it fits and `decoded`, what the archive decoder
    /// made of it, is a configuration within its limits, and refuses it otherwise without
    /// touching flash.
    pub fn handle_request(flash: &mut ConfigFlash, request: &Request, decoded: Option<&Config>) -> (r:
        Response)
        requires
            old(flash).wf(),
        ensures
            final(flash).wf(),
            match request {
                Request::GetConfig => {
                    &&& final(flash).region@ == old(flash).region@
                    &&& match spec_load(old(flash).region@) {
                        Ok(b) => match r {
                            Response::GetConfig(Ok(v)) => v@ == b,
                            _ => false,
                        },
                        Err(_) => r == Response::GetConfig(Err(())),
                    }
                },
                Request::SetConfig(bytes) => if bytes@.len() <= CONFIG_SIZE - 4 && is_valid_config(
                    decoded,
                ) {
                    r == Response::SetConfig && final(flash).region@ == stored_region(
                        old(flash).region@,
                        bytes@,
                    )
                } else {
                    r == Response::ProtocolError && final(flash).region@ == old(flash).region@
                },
            },
    {
        match request {
            Request::GetConfig => match flash.load_config_bytes_from_flash() {
                Ok(b) => Response::GetConfig(Ok(b)),
                Err(_) => Response::GetConfig(Err(())),
            },
            Request::SetConfig(bytes) => match flash.load_config_bytes_to_flash(
                bytes.as_slice(),
                decoded,
            ) {
                Ok(()) => Response::SetConfig,
                Err(_) => Response::ProtocolError,
            },
        }
    }
}

} // verus!
