//! Stateful reassembly of UTF-16 code units into Unicode scalar values.
//!
//! Code units may arrive one at a time, so a surrogate pair can be split
//! across separate pushes; the buffer holds undecoded units (including a
//! unit examined once and put back) until a decision can be made.

use vstd::prelude::*;

use std::collections::vec_deque::VecDeque;

verus! {

/// The lowest code unit of the surrogate range.
pub const SURROGATE_MIN: u16 = 0xD800;

/// The lowest code unit of the trailing-surrogate range.
pub const TRAILING_MIN: u16 = 0xDC00;

/// The highest code unit of the surrogate range.
pub const SURROGATE_MAX: u16 = 0xDFFF;

/// True of a code unit in the leading-surrogate range.
pub open spec fn is_leading_surrogate(u: u16) -> bool {
    SURROGATE_MIN <= u < TRAILING_MIN
}

/// True of a code unit in the trailing-surrogate range.
pub open spec fn is_trailing_surrogate(u: u16) -> bool {
    TRAILING_MIN <= u <= SURROGATE_MAX
}

/// True of any code unit that cannot stand alone as a scalar value.
pub open spec fn is_surrogate(u: u16) -> bool {
    SURROGATE_MIN <= u <= SURROGATE_MAX
}

/// The scalar value encoded by a surrogate pair, per the UTF-16 formula.
pub open spec fn combine_surrogates(lead: u16, trail: u16) -> u32
    recommends
        is_leading_surrogate(lead),
        is_trailing_surrogate(trail),
{
    (((lead - SURROGATE_MIN) * 0x400 + (trail - TRAILING_MIN)) + 0x10000) as u32
}

/// True of a `u32` that is a Unicode scalar value, i.e. the value of a `char`.
pub open spec fn is_scalar_value(u: u32) -> bool {
    u <= 0x10FFFF && !(SURROGATE_MIN <= u <= SURROGATE_MAX)
}

/// What one decode attempt on pending units `v` yields, together with how
/// many units it consumes: `None` when `v` is empty, otherwise the decoded
/// scalar or the code unit reported invalid.
pub open spec fn decode_first(v: Seq<u16>) -> Option<(Result<char, u16>, int)> {
    if v.len() == 0 {
        None
    } else if !is_surrogate(v[0]) {
        Some((Ok((v[0] as u32) as char), 1))
    } else if is_trailing_surrogate(v[0]) {
        Some((Err(v[0]), 1))
    } else if v.len() == 1 {
        // a leading surrogate with nothing after it: incomplete, terminal
        Some((Err(v[0]), 1))
    } else if is_trailing_surrogate(v[1]) {
        Some((Ok(combine_surrogates(v[0], v[1]) as char), 2))
    } else {
        // the second unit is not a trailing surrogate: report the leading
        // unit invalid and leave the second unit pending
        Some((Err(v[0]), 1))
    }
}

/// All decode results obtainable from pending units `v`, in order.
pub open spec fn decode_units(v: Seq<u16>) -> Seq<Result<char, u16>>
    decreases v.len(),
{
    match decode_first(v) {
        None => Seq::empty(),
        Some((r, n)) => seq![r] + decode_units(v.skip(n)),
    }
}

/// The leading surrogate of the pair that encodes supplementary scalar `c`.
pub open spec fn leading_of(c: char) -> u16
    recommends
        is_supplementary(c),
{
    (SURROGATE_MIN + (c as u32 - 0x10000) / 0x400) as u16
}

/// The trailing surrogate of the pair that encodes supplementary scalar `c`.
pub open spec fn trailing_of(c: char) -> u16
    recommends
        is_supplementary(c),
{
    (TRAILING_MIN + (c as u32 - 0x10000) % 0x400) as u16
}

/// True of a scalar value outside the basic plane, i.e. one that UTF-16
/// encodes as a surrogate pair.
pub open spec fn is_supplementary(c: char) -> bool {
    0x10000 <= c as u32
}

/// The UTF-16 encoding of a sequence of supplementary scalar values, each
/// as its surrogate pair.
pub open spec fn encode_pairs(cs: Seq<char>) -> Seq<u16>
    decreases cs.len(),
{
    if cs.len() == 0 {
        Seq::empty()
    } else {
        seq![leading_of(cs[0]), trailing_of(cs[0])] + encode_pairs(cs.skip(1))
    }
}

/// Round-trip law: decoding the surrogate-pair encoding of any sequence of
/// supplementary scalar values reproduces exactly those values, in order.
/// Since `push_u16` only appends, the pending units are the concatenation
/// of all pushed units however the pushes were split, so this covers units
/// arriving one at a time as well as in batches.
pub proof fn lemma_pair_round_trip(cs: Seq<char>)
    requires
        forall|i: int| 0 <= i < cs.len() ==> is_supplementary(#[trigger] cs[i]),
    ensures
        decode_units(encode_pairs(cs)) == cs.map_values(|c: char| Ok::<char, u16>(c)),
    decreases cs.len(),
{
    let m = cs.map_values(|c: char| Ok::<char, u16>(c));
    if cs.len() == 0 {
        assert(decode_units(encode_pairs(cs)) =~= m);
    } else {
        let c = cs[0];
        let v = encode_pairs(cs);
        vstd::utf8::char_is_scalar(c);
        let d = (c as u32 - 0x10000) as int;
        assert(0 <= d <= 0xFFFFF);
        vstd::arithmetic::div_mod::lemma_fundamental_div_mod(d, 0x400);
        vstd::arithmetic::div_mod::lemma_div_is_ordered(d, 0xFFFFF, 0x400);
        vstd::arithmetic::div_mod::lemma_mod_bound(d, 0x400);
        assert(is_leading_surrogate(v[0]));
        assert(is_trailing_surrogate(v[1]));
        assert(combine_surrogates(v[0], v[1]) == c as u32);
        vstd::utf8::char_u32_cast(c, c as u32);
        assert(decode_first(v) == Some((Ok::<char, u16>(c), 2int)));
        assert(v.skip(2) =~= encode_pairs(cs.skip(1)));
        lemma_pair_round_trip(cs.skip(1));
        assert(decode_units(v) =~= m);
    }
}

/// No unit is lost around an invalid pair: when a leading surrogate is
/// followed by a unit that is not a trailing surrogate, one invalid result
/// is reported for the leading unit alone, and decoding continues with the
/// following unit still pending.
pub proof fn lemma_invalid_pair_keeps_follower(v: Seq<u16>)
    requires
        v.len() >= 2,
        is_leading_surrogate(v[0]),
        !is_trailing_surrogate(v[1]),
    ensures
        decode_units(v) == seq![Err::<char, u16>(v[0])] + decode_units(v.skip(1)),
        v.skip(1)[0] == v[1],
{
    assert(decode_first(v) == Some((Err::<char, u16>(v[0]), 1int)));
}

/// Relies on char::from_u32: every u32 that is a Unicode scalar value
/// (not a surrogate, at most 0x10FFFF) is Some of the char with that value.
#[verifier::external_body]
fn char_from_scalar(u: u32) -> (c: char)
    requires
        is_scalar_value(u),
    ensures
        c == (u as char),
        c as u32 == u,
{
    match char::from_u32(u) {
        Some(c) => c,
        None => '\u{FFFD}',
    }
}

/// A code unit that could not be decoded: either not part of any valid
/// sequence, or a leading surrogate whose partner never arrived.
#[derive(Debug, Clone, Copy, PartialEq, Eq, Structural)]
pub struct DecodeUtf16Error {
    pub code: u16,
}

/// A FIFO of not-yet-decoded UTF-16 code units, plus at most one unit
/// examined by a previous decode attempt and put back.
#[derive(Debug)]
pub struct BufferedUtf16Iterator {
    buffer: VecDeque<u16>,
    decoding_buf: Option<u16>,
}

impl View for BufferedUtf16Iterator {
    type V = Seq<u16>;

    /// The pending units, the put-back unit (if any) first.
    closed spec fn view(&self) -> Seq<u16> {
        match self.decoding_buf {
            Some(u) => seq![u] + self.buffer@,
            None => self.buffer@,
        }
    }
}

impl BufferedUtf16Iterator {
    /// An empty buffer.
    pub fn new() -> (r: Self)
        ensures
            r@ == Seq::<u16>::empty(),
    {
        Self { buffer: VecDeque::new(), decoding_buf: None }
    }

    /// Appends one code unit to the pending units.
    pub fn push_u16(&mut self, item: u16)
        ensures
            final(self)@ == old(self)@.push(item),
    {
        proof {
            if old(self).decoding_buf is Some {
                assert((seq![old(self).decoding_buf->0] + old(self).buffer@.push(item))
                    =~= old(self)@.push(item));
            }
        }
        self.buffer.push_back(item)
    }

    /// Decodes at most one result from the pending units: `None` when the
    /// buffer is empty, otherwise the first scalar value or invalid unit,
    /// consuming exactly the units that constitute it.
    pub fn next(&mut self) -> (r: Option<Result<char, DecodeUtf16Error>>)
        ensures
            decode_first(old(self)@) matches Some((res, n)) ==> {
                &&& final(self)@ == old(self)@.skip(n)
                &&& r matches Some(r) && (match (r, res) {
                    (Ok(c), Ok(d)) => c == d,
                    (Err(e), Err(u)) => e.code == u,
                    _ => false,
                })
            },
            decode_first(old(self)@) is None ==> r is None && final(self)@ == old(self)@,
    {
        let u = match self.decoding_buf.take() {
            Some(buf) => buf,
            None => match self.buffer.pop_front() {
                Some(u) => u,
                None => {
                    return None;
                },
            },
        };

        if u < SURROGATE_MIN || SURROGATE_MAX < u {
            // not a surrogate
            Some(Ok(char_from_scalar(u as u32)))
        } else if u >= TRAILING_MIN {
            // a trailing surrogate with no leading surrogate before it
            Some(Err(DecodeUtf16Error { code: u }))
        } else {
            let u2 = match self.buffer.pop_front() {
                Some(u2) => u2,
                // no second unit will arrive for this decode attempt
                None => {
                    return Some(Err(DecodeUtf16Error { code: u }));
                },
            };
            if u2 < TRAILING_MIN || u2 > SURROGATE_MAX {
                // not a trailing surrogate, so no valid pair: put the
                // second unit back to be examined on the next call
                self.decoding_buf = Some(u2);
                return Some(Err(DecodeUtf16Error { code: u }));
            }

            proof {
                assert(old(self)@.skip(2) =~= self.buffer@);
            }
            let c: u32 = ((u - SURROGATE_MIN) as u32) * 0x400 + ((u2 - TRAILING_MIN) as u32)
                + 0x10000;
            Some(Ok(char_from_scalar(c)))
        }
    }
}

} // verus!
