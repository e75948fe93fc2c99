use vstd::prelude::*;

verus! {

/// Whether `b` is a UTF-8 continuation byte.
pub open spec fn is_utf8_cont(b: u8) -> bool {
    0x80 <= b && b <= 0xBF
}

/// Length in bytes of the well-formed UTF-8 sequence at the front of `s`,
/// or 0 when the front of `s` is not one.  The guards on the second byte
/// of the three- and four-byte forms exclude overlong encodings, surrogate
/// code points and values past the last code point.
pub open spec fn utf8_seq_len(s: Seq<u8>) -> int {
    if s.len() >= 1 && s[0] < 0x80 {
        1
    } else if s.len() >= 2 && 0xC2 <= s[0] && s[0] <= 0xDF && is_utf8_cont(s[1]) {
        2
    } else if s.len() >= 3 && 0xE0 <= s[0] && s[0] <= 0xEF && is_utf8_cont(s[1])
        && is_utf8_cont(s[2]) && (s[0] != 0xE0 || s[1] >= 0xA0) && (s[0] != 0xED || s[1]
        <= 0x9F) {
        3
    } else if s.len() >= 4 && 0xF0 <= s[0] && s[0] <= 0xF4 && is_utf8_cont(s[1])
        && is_utf8_cont(s[2]) && is_utf8_cont(s[3]) && (s[0] != 0xF0 || s[1] >= 0x90) && (
    s[0] != 0xF4 || s[1] <= 0x8F) {
        4
    } else {
        0
    }
}

/// The Unicode scalar value of the well-formed UTF-8 sequence at the front
/// of `s`; meaningful when `utf8_seq_len(s) != 0`.
pub open spec fn utf8_first_scalar(s: Seq<u8>) -> u32 {
    let n = utf8_seq_len(s);
    if n == 1 {
        s[0] as u32
    } else if n == 2 {
        (((s[0] as int - 0xC0) * 0x40) + (s[1] as int - 0x80)) as u32
    } else if n == 3 {
        (((s[0] as int - 0xE0) * 0x1000) + ((s[1] as int - 0x80) * 0x40) + (s[2] as int
            - 0x80)) as u32
    } else if n == 4 {
        (((s[0] as int - 0xF0) * 0x40000) + ((s[1] as int - 0x80) * 0x1000) + ((s[2] as int
            - 0x80) * 0x40) + (s[3] as int - 0x80)) as u32
    } else {
        0
    }
}

/// Whether `s` is valid UTF-8: a sequence of well-formed UTF-8 sequences.
pub open spec fn utf8_ok(s: Seq<u8>) -> bool
    decreases s.len(),
{
    if s.len() == 0 {
        true
    } else {
        let n = utf8_seq_len(s);
        if 1 <= n <= s.len() {
            utf8_ok(s.skip(n))
        } else {
            false
        }
    }
}

/// The Unicode scalar values `s` encodes, front to back; meaningful when
/// `utf8_ok(s)` holds.
pub open spec fn utf8_scalars(s: Seq<u8>) -> Seq<u32>
    decreases s.len(),
{
    if s.len() == 0 {
        Seq::empty()
    } else {
        let n = utf8_seq_len(s);
        if 1 <= n <= s.len() {
            seq![utf8_first_scalar(s)] + utf8_scalars(s.skip(n))
        } else {
            Seq::empty()
        }
    }
}

/// Whether `v` is a Unicode scalar value: any code point except the
/// surrogate range.
pub open spec fn is_unicode_scalar(v: u32) -> bool {
    v < 0xD800 || (0xE000 <= v && v <= 0x10FFFF)
}

/// The UTF-16 encoding of one scalar value: a single unit below 0x10000,
/// a surrogate pair above.
pub open spec fn utf16_units_of(v: u32) -> Seq<u16> {
    if v < 0x10000 {
        seq![v as u16]
    } else {
        seq![
            (0xD800 + (v as int - 0x10000) / 0x400) as u16,
            (0xDC00 + (v as int - 0x10000) % 0x400) as u16,
        ]
    }
}

/// The UTF-16 encoding of a sequence of scalar values.
pub open spec fn utf16_encode(vs: Seq<u32>) -> Seq<u16>
    decreases vs.len(),
{
    if vs.len() == 0 {
        Seq::empty()
    } else {
        utf16_encode(vs.drop_last()) + utf16_units_of(vs.last())
    }
}

/// Decodes a byte buffer as UTF-8 into its Unicode scalar values, or
/// reports that the buffer is not valid UTF-8.
pub fn decode_utf8(buf: &[u8]) -> (r: Option<Vec<u32>>)
    ensures
        r is Some <==> utf8_ok(buf@),
        r matches Some(vs) ==> vs@ == utf8_scalars(buf@),
        r matches Some(vs) ==> forall|j: int|
            0 <= j < vs@.len() ==> is_unicode_scalar(vs@[j]),
{
    let n = buf.len();
    let mut out: Vec<u32> = Vec::new();
    let mut i: usize = 0;
    proof {
        assert(buf@.skip(0) =~= buf@);
        assert(out@ + utf8_scalars(buf@) =~= utf8_scalars(buf@));
    }
    while i < n
        invariant
            n == buf@.len(),
            i <= n,
            utf8_ok(buf@) <==> utf8_ok(buf@.skip(i as int)),
            utf8_ok(buf@) ==> utf8_scalars(buf@) == out@ + utf8_scalars(buf@.skip(i as int)),
            forall|j: int| 0 <= j < out@.len() ==> is_unicode_scalar(out@[j]),
        decreases n - i,
    {
        let ghost tail = buf@.skip(i as int);
        proof {
            assert(tail.len() == n - i);
            assert(tail[0] == buf@[i as int]);
            assert(i + 1 < n ==> tail[1] == buf@[i as int + 1]);
            assert(i + 2 < n ==> tail[2] == buf@[i as int + 2]);
            assert(i + 3 < n ==> tail[3] == buf@[i as int + 3]);
        }
        let b0 = buf[i];
        let v: u32;
        let k: usize;
        if b0 < 0x80 {
            v = b0 as u32;
            k = 1;
        } else if 0xC2 <= b0 && b0 <= 0xDF {
            if n - i < 2 {
                proof { assert(!utf8_ok(tail)); }
                return None;
            }
            let b1 = buf[i + 1];
            if !(0x80 <= b1 && b1 <= 0xBF) {
                proof { assert(!utf8_ok(tail)); }
                return None;
            }
            v = (b0 as u32 - 0xC0) * 0x40 + (b1 as u32 - 0x80);
            k = 2;
        } else if 0xE0 <= b0 && b0 <= 0xEF {
            if n - i < 3 {
                proof { assert(!utf8_ok(tail)); }
                return None;
            }
            let b1 = buf[i + 1];
            let b2 = buf[i + 2];
            if !(0x80 <= b1 && b1 <= 0xBF) || !(0x80 <= b2 && b2 <= 0xBF) || (b0 == 0xE0
                && b1 < 0xA0) || (b0 == 0xED && b1 > 0x9F) {
                proof { assert(!utf8_ok(tail)); }
                return None;
            }
            v = (b0 as u32 - 0xE0) * 0x1000 + (b1 as u32 - 0x80) * 0x40 + (b2 as u32
                - 0x80);
            k = 3;
        } else if 0xF0 <= b0 && b0 <= 0xF4 {
            if n - i < 4 {
                proof { assert(!utf8_ok(tail)); }
                return None;
            }
            let b1 = buf[i + 1];
            let b2 = buf[i + 2];
            let b3 = buf[i + 3];
            if !(0x80 <= b1 && b1 <= 0xBF) || !(0x80 <= b2 && b2 <= 0xBF) || !(0x80 <= b3
                && b3 <= 0xBF) || (b0 == 0xF0 && b1 < 0x90) || (b0 == 0xF4 && b1 > 0x8F) {
                proof { assert(!utf8_ok(tail)); }
                return None;
            }
            v = (b0 as u32 - 0xF0) * 0x40000 + (b1 as u32 - 0x80) * 0x1000 + (b2 as u32
                - 0x80) * 0x40 + (b3 as u32 - 0x80);
            k = 4;
        } else {
            proof { assert(!utf8_ok(tail)); }
            return None;
        }
        proof {
            assert(utf8_seq_len(tail) == k);
            assert(utf8_first_scalar(tail) == v);
            assert(is_unicode_scalar(v));
            assert(tail.skip(k as int) =~= buf@.skip(i + k));
            assert(utf8_ok(tail) <==> utf8_ok(buf@.skip(i + k)));
            assert(utf8_scalars(tail) == seq![v] + utf8_scalars(buf@.skip(i + k)));
            assert(out@.push(v) + utf8_scalars(buf@.skip(i + k)) =~= out@ + (seq![v]
                + utf8_scalars(buf@.skip(i + k))));
        }
        out.push(v);
        i += k;
    }
    proof {
        assert(buf@.skip(n as int) =~= Seq::<u8>::empty());
        assert(utf8_ok(buf@));
        assert(out@ + utf8_scalars(buf@.skip(n as int)) =~= out@);
    }
    Some(out)
}

/// Encodes a sequence of Unicode scalar values as UTF-16 units.
pub fn encode_utf16(vs: &Vec<u32>) -> (r: Vec<u16>)
    requires
        forall|j: int| 0 <= j < vs@.len() ==> is_unicode_scalar(vs@[j]),
    ensures
        r@ == utf16_encode(vs@),
{
    let mut out: Vec<u16> = Vec::new();
    let mut i: usize = 0;
    while i < vs.len()
        invariant
            i <= vs@.len(),
            forall|j: int| 0 <= j < vs@.len() ==> is_unicode_scalar(vs@[j]),
            out@ == utf16_encode(vs@.take(i as int)),
        decreases vs@.len() - i,
    {
        let v = vs[i];
        proof {
            assert(is_unicode_scalar(vs@[i as int]));
            assert(vs@.take(i + 1).drop_last() =~= vs@.take(i as int));
            assert(vs@.take(i + 1).last() == vs@[i as int]);
        }
        if v < 0x10000 {
            out.push(v as u16);
            proof {
                assert(out@ =~= utf16_encode(vs@.take(i + 1)));
            }
        } else {
            let off = v - 0x10000;
            let hi: u32 = 0xD800 + off / 0x400;
            let lo: u32 = 0xDC00 + off % 0x400;
            out.push(hi as u16);
            out.push(lo as u16);
            proof {
                assert(hi == 0xD800 + (v as int - 0x10000) / 0x400);
                assert(lo == 0xDC00 + (v as int - 0x10000) % 0x400);
                assert(out@ =~= utf16_encode(vs@.take(i + 1)));
            }
        }
        i += 1;
    }
    proof {
        assert(vs@.take(vs@.len() as int) =~= vs@);
    }
    out
}

} // verus!
