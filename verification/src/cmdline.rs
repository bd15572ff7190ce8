//! Command-line marshaling: the platform's process-creation call takes the
//! command line as a NUL-terminated buffer of UTF-16 code units.

use vstd::prelude::*;
use vstd::utf8::char_is_scalar;
use vstd::utf8::is_scalar;

verus! {

/// The UTF-16 code units of one character: a scalar below 0x10000 is a single
/// unit, any other splits into a high and a low surrogate.
pub open spec fn utf16_units(c: char) -> Seq<u16> {
    let v = c as u32;
    if v < 0x10000 {
        seq![v as u16]
    } else {
        seq![
            (0xD800 + (v - 0x10000) / 0x400) as u16,
            (0xDC00 + (v - 0x10000) % 0x400) as u16,
        ]
    }
}

/// The UTF-16 encoding of a character sequence.
pub open spec fn spec_utf16(s: Seq<char>) -> Seq<u16>
    decreases s.len(),
{
    if s.len() == 0 {
        Seq::empty()
    } else {
        utf16_units(s[0]) + spec_utf16(s.drop_first())
    }
}

proof fn lemma_utf16_snoc(s: Seq<char>, c: char)
    ensures
        spec_utf16(s.push(c)) == spec_utf16(s) + utf16_units(c),
    decreases s.len(),
{
    reveal_with_fuel(spec_utf16, 3);
    if s.len() == 0 {
        assert(s.push(c)[0] == c);
        assert(s.push(c).drop_first() =~= Seq::<char>::empty());
        assert(spec_utf16(s.push(c)) =~= spec_utf16(s) + utf16_units(c));
    } else {
        assert(s.push(c)[0] == s[0]);
        assert(s.push(c).drop_first() =~= s.drop_first().push(c));
        lemma_utf16_snoc(s.drop_first(), c);
        assert(spec_utf16(s.push(c)) =~= spec_utf16(s) + utf16_units(c));
    }
}

/// The command line as the process-creation call wants it: its UTF-16
/// encoding followed by a terminating NUL unit.
pub fn convert_utf16(s: &str) -> (r: Vec<u16>)
    ensures
        r@ == spec_utf16(s@).push(0u16),
{
    let n = s.unicode_len();
    let mut r: Vec<u16> = Vec::new();
    let mut i: usize = 0;
    while i < n
        invariant
            i <= n,
            n == s@.len(),
            r@ == spec_utf16(s@.subrange(0, i as int)),
        decreases n - i,
    {
        let c = s.get_char(i);
        proof {
            char_is_scalar(c);
            assert(is_scalar(c as u32));
            assert(s@.subrange(0, i + 1 as int) =~= s@.subrange(0, i as int).push(c));
            lemma_utf16_snoc(s@.subrange(0, i as int), c);
        }
        let v = c as u32;
        if v < 0x10000 {
            r.push(v as u16);
        } else {
            let x = v - 0x10000;
            r.push((0xD800 + x / 0x400) as u16);
            r.push((0xDC00 + x % 0x400) as u16);
        }
        proof {
            assert(r@ =~= spec_utf16(s@.subrange(0, i + 1 as int)));
        }
        i = i + 1;
    }
    proof {
        assert(s@.subrange(0, n as int) =~= s@);
    }
    r.push(0);
    r
}

} // verus!
