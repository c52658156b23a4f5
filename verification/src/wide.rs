//! UTF-16 encoding of paths, as the wide-character interfaces of the
//! operating system take them.

use vstd::prelude::*;

verus! {

/// The UTF-16 code units of one character: itself where it lies in the basic
/// plane, a high and a low surrogate otherwise.
pub open spec fn wide_char(c: char) -> Seq<u16> {
    let code = c as u32 as int;
    if code < 0x10000 {
        seq![code as u16]
    } else {
        seq![(0xD800 + (code - 0x10000) / 0x400) as u16, (0xDC00 + (code - 0x10000) % 0x400) as u16]
    }
}

/// The UTF-16 encoding of a text: the units of its characters, in order.
pub open spec fn wide(text: Seq<char>) -> Seq<u16>
    decreases text.len(),
{
    if text.len() == 0 {
        Seq::empty()
    } else {
        wide(text.drop_last()) + wide_char(text.last())
    }
}

/// A text as a wide string: its UTF-16 encoding followed by one zero unit.
pub open spec fn wide_terminated(text: Seq<char>) -> Seq<u16> {
    wide(text).push(0u16)
}

/// Appends the UTF-16 units of `c` to `units`.
pub fn push_wide_char(units: &mut Vec<u16>, c: char)
    ensures
        final(units)@ == old(units)@ + wide_char(c),
{
    let code: u32 = c as u32;
    if code < 0x10000 {
        units.push(code as u16);
    } else {
        let offset: u32 = code - 0x10000;
        let high: u32 = 0xD800 + offset / 0x400;
        let low: u32 = 0xDC00 + offset % 0x400;
        units.push(high as u16);
        units.push(low as u16);
    }
}

/// Encodes `text` as UTF-16.
pub fn encode_wide(text: &str) -> (units: Vec<u16>)
    ensures
        units@ == wide(text@),
{
    let mut units: Vec<u16> = Vec::new();
    for c in chars: text.chars()
        invariant
            chars.seq() == text@,
            units@ == wide(text@.take(chars.index() as int)),
    {
        proof {
            let after = text@.take(chars.index() + 1);
            assert(after.drop_last() == text@.take(chars.index() as int));
            assert(after.last() == c);
        }
        push_wide_char(&mut units, c);
    }
    proof {
        assert(text@.take(text@.len() as int) == text@);
    }
    units
}

/// A wide string held in memory, ready to be copied byte for byte: its
/// units, and the number of bytes that they take.
pub struct WidePath {
    units: Vec<u16>,
    bytes: usize,
}

impl View for WidePath {
    type V = Seq<u16>;

    closed spec fn view(&self) -> Seq<u16> {
        self.units@
    }
}

impl WidePath {
    #[verifier::type_invariant]
    spec fn sized(&self) -> bool {
        self.bytes == 2 * self.units@.len()
    }

    /// The number of bytes that the units take.
    pub closed spec fn byte_size(&self) -> usize {
        self.bytes
    }

    /// Encodes `text` as a wide string: UTF-16 with a terminating zero unit.
    /// There is none where its bytes could not be counted in a `usize`.
    pub fn encode(text: &str) -> (path: Option<WidePath>)
        ensures
            match path {
                Some(encoded) => {
                    &&& encoded@ == wide_terminated(text@)
                    &&& encoded.byte_size() == 2 * encoded@.len()
                },
                None => 2 * wide_terminated(text@).len() > usize::MAX,
            },
            2 * wide_terminated(text@).len() <= usize::MAX ==> path is Some,
    {
        let mut units: Vec<u16> = encode_wide(text);
        units.push(0u16);
        match units.len().checked_mul(2) {
            Some(bytes) => Some(WidePath { units, bytes }),
            None => None,
        }
    }

    /// The units, the terminating zero included.
    pub fn units(&self) -> (units: &Vec<u16>)
        ensures
            units@ == self@,
    {
        &self.units
    }

    /// The number of bytes that the units take: two for each.
    pub fn byte_len(&self) -> (bytes: usize)
        ensures
            bytes == self.byte_size(),
            bytes == 2 * self@.len(),
    {
        proof {
            use_type_invariant(self);
        }
        self.bytes
    }
}

} // verus!
