//! Conversion between Rust strings and SoftEther wide strings.

use vstd::prelude::*;
use crate::bindings::to_wide_string;
use crate::error::Error;
use crate::text::{
    append_str, decode_utf16_lossy, lemma_utf16_encode_nonzero, lemma_utf16_round_trip, string_of,
    utf16_decode, utf16_encode,
};

verus! {

/// The code units of `w` before its first NUL (all of `w` when it has none).
pub open spec fn until_nul(w: Seq<u16>) -> Seq<u16>
    decreases w.len(),
{
    if w.len() == 0 || w[0] == 0 {
        Seq::empty()
    } else {
        seq![w[0]] + until_nul(w.drop_first())
    }
}

/// The 128-unit account-name buffer that holds `s`: its UTF-16 form, then zeros.
pub open spec fn account_name_buffer(s: Seq<char>) -> Seq<u16> {
    utf16_encode(s) + Seq::new((128 - utf16_encode(s).len()) as nat, |i: int| 0u16)
}

/// Convert a Rust string to a SoftEther wide string buffer.
pub fn rust_to_softether_wide(s: &str) -> (r: Result<[u16; 128], Error>)
    ensures
        r is Ok <==> utf16_encode(s@).len() < 128,
        r matches Ok(b) ==> b@ == account_name_buffer(s@),
        r matches Err(e) ==> e matches Error::EncodingError { message }
            && message@ == "String conversion failed: "@ + "String too long for buffer"@,
{
    let mut buffer = [0u16; 128];
    let ghost zeros = buffer@;
    assert(forall|i: int| 0 <= i < 128 ==> zeros[i] == 0u16);
    match to_wide_string(s, &mut buffer) {
        Ok(()) => {
            assert(buffer@ =~= account_name_buffer(s@));
            Ok(buffer)
        },
        Err(m) => {
            let mut message = string_of("String conversion failed: ");
            append_str(&mut message, m.as_str());
            Err(Error::EncodingError { message })
        },
    }
}

/// Convert a SoftEther wide string back to a Rust string: the units before the
/// first NUL, decoded with U+FFFD for unpaired surrogates.
pub fn softether_wide_to_rust(wide_str: &[u16]) -> (s: String)
    ensures
        s@ == utf16_decode(until_nul(wide_str@)),
{
    let n = wide_str.len();
    let mut end: usize = 0;
    assert(wide_str@.skip(0) =~= wide_str@);
    while end < n && wide_str[end] != 0
        invariant
            end <= n,
            n == wide_str@.len(),
            until_nul(wide_str@) == wide_str@.take(end as int) + until_nul(wide_str@.skip(end as int)),
        decreases n - end,
    {
        proof {
            let rest = wide_str@.skip(end as int);
            assert(rest.drop_first() =~= wide_str@.skip(end + 1));
            assert(wide_str@.take(end + 1) =~= wide_str@.take(end as int) + seq![rest[0]]);
        }
        end = end + 1;
    }
    assert(until_nul(wide_str@.skip(end as int)) =~= Seq::<u16>::empty());
    assert(until_nul(wide_str@) =~= wide_str@.take(end as int));
    let mut prefix: Vec<u16> = Vec::new();
    let mut i: usize = 0;
    while i < end
        invariant
            i <= end <= n,
            n == wide_str@.len(),
            prefix@ == wide_str@.take(i as int),
        decreases end - i,
    {
        prefix.push(wide_str[i]);
        assert(wide_str@.take(i + 1) =~= wide_str@.take(i as int).push(wide_str@[i as int]));
        i = i + 1;
    }
    decode_utf16_lossy(prefix.as_slice())
}

/// The part before the first NUL of `a + b`, where `a` has no NUL and `b` starts
/// with one, is `a`.
proof fn lemma_until_nul_prefix(a: Seq<u16>, b: Seq<u16>)
    requires
        forall|i: int| 0 <= i < a.len() ==> #[trigger] a[i] != 0,
        b.len() > 0,
        b[0] == 0,
    ensures
        until_nul(a + b) == a,
    decreases a.len(),
{
    if a.len() == 0 {
        assert(a + b =~= b);
    } else {
        assert((a + b).drop_first() =~= a.drop_first() + b);
        assert forall|i: int| 0 <= i < a.drop_first().len() implies #[trigger] a.drop_first()[i] != 0 by {
            assert(a.drop_first()[i] == a[i + 1]);
        }
        lemma_until_nul_prefix(a.drop_first(), b);
        assert(a =~= seq![a[0]] + a.drop_first());
    }
}

/// Law: a string without NUL whose UTF-16 form fits in the account-name buffer
/// comes back unchanged from the buffer that `rust_to_softether_wide` fills,
/// when `softether_wide_to_rust` reads it.
pub proof fn law_wide_string_round_trip(s: Seq<char>)
    requires
        !s.contains('\0'),
        utf16_encode(s).len() < 128,
    ensures
        utf16_decode(until_nul(account_name_buffer(s))) == s,
{
    lemma_utf16_encode_nonzero(s);
    let zeros = Seq::new((128 - utf16_encode(s).len()) as nat, |i: int| 0u16);
    assert(zeros[0] == 0u16);
    lemma_until_nul_prefix(utf16_encode(s), zeros);
    lemma_utf16_round_trip(s);
}

} // verus!
