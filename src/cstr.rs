//! Null-terminated byte strings and fixed-size `c_char` buffers.

use vstd::prelude::*;
use vstd::string::StringSliceAdditionalSpecFns;

verus! {

/// The bytes of `s` followed by one terminating zero, when `s` holds no zero
/// byte of its own.
pub open spec fn c_string_of(s: Seq<u8>) -> Option<Seq<u8>> {
    if s.contains(0u8) {
        None
    } else {
        Some(s.push(0u8))
    }
}

/// Turns `s` into the bytes of a C string; `None` when `s` holds an interior
/// zero byte, which a C string cannot carry.
pub fn c_string_bytes(s: &str) -> (r: Option<Vec<u8>>)
    ensures
        r matches Some(v) ==> c_string_of(s.spec_bytes()) == Some(v@),
        r is None <==> c_string_of(s.spec_bytes()) is None,
{
    let b = s.as_bytes();
    let mut out: Vec<u8> = Vec::new();
    let mut i: usize = 0;
    while i < b.len()
        invariant
            b@ == s.spec_bytes(),
            0 <= i <= b@.len(),
            out@ == b@.subrange(0, i as int),
            !b@.subrange(0, i as int).contains(0u8),
        decreases b@.len() - i,
    {
        if b[i] == 0 {
            assert(b@[i as int] == 0u8);
            return None;
        }
        out.push(b[i]);
        i = i + 1;
        assert(out@ == b@.subrange(0, i as int));
    }
    assert(b@.subrange(0, i as int) == b@);
    out.push(0u8);
    Some(out)
}

/// What a buffer of `n` `c_char`s holds after `s` has been written into it:
/// the leading bytes of `s`, zeros after them, and always a zero in the last
/// place.
pub open spec fn c_char_array_of(n: nat, s: Seq<u8>) -> Seq<i8>
    recommends
        n >= 1,
{
    Seq::new(n, |i: int| if i < n - 1 && i < s.len() { s[i] as i8 } else { 0i8 })
}

/// Clears `buf` and copies as much of `new` into it as fits, keeping the last
/// place zero so that the buffer always reads as a terminated C string.
pub fn set_c_char_array<const U: usize>(buf: &mut [i8; U], new: &str)
    requires
        U >= 1,
    ensures
        final(buf)@ == c_char_array_of(U as nat, new.spec_bytes()),
{
    let b = new.as_bytes();
    let mut i: usize = 0;
    while i < U
        invariant
            b@ == new.spec_bytes(),
            0 <= i <= U,
            U >= 1,
            forall|k: int| 0 <= k < i ==> buf@[k] == c_char_array_of(U as nat, b@)[k],
        decreases U - i,
    {
        if i < U - 1 && i < b.len() {
            buf[i] = b[i] as i8;
        } else {
            buf[i] = 0i8;
        }
        i = i + 1;
    }
    assert(buf@ =~= c_char_array_of(U as nat, new.spec_bytes()));
}

/// The text that a host `c_char` buffer spells: its bytes in `1..=127`, in
/// order (zeros and bytes that are no character on their own are skipped).
pub open spec fn c_char_text(buf: Seq<i8>) -> Seq<u8>
    decreases buf.len(),
{
    if buf.len() == 0 {
        Seq::empty()
    } else {
        let rest = c_char_text(buf.drop_last());
        let c = buf.last();
        if 0 < c { rest.push(c as u8) } else { rest }
    }
}

/// Whether the text in the host buffer `buf` is exactly `name`.
pub fn level_name_is(buf: &[i8], name: &str) -> (r: bool)
    ensures
        r == (c_char_text(buf@) == name.spec_bytes()),
{
    let mut text: Vec<u8> = Vec::new();
    let mut i: usize = 0;
    while i < buf.len()
        invariant
            0 <= i <= buf@.len(),
            text@ == c_char_text(buf@.subrange(0, i as int)),
        decreases buf@.len() - i,
    {
        assert(buf@.subrange(0, i + 1).drop_last() == buf@.subrange(0, i as int));
        if buf[i] > 0 {
            text.push(buf[i] as u8);
        }
        i = i + 1;
    }
    assert(buf@.subrange(0, i as int) == buf@);
    let n = name.as_bytes();
    if text.len() != n.len() {
        return false;
    }
    let mut j: usize = 0;
    while j < n.len()
        invariant
            n@ == name.spec_bytes(),
            text@ == c_char_text(buf@),
            text@.len() == n@.len(),
            0 <= j <= n@.len(),
            forall|k: int| 0 <= k < j ==> text@[k] == n@[k],
        decreases n@.len() - j,
    {
        if text[j] != n[j] {
            assert(text@[j as int] != n@[j as int]);
            return false;
        }
        j = j + 1;
    }
    assert(text@ =~= n@);
    true
}

} // verus!
