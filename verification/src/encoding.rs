//! Percent-encoding of query values.
//!
//! The signing scheme encodes every byte outside the unreserved set
//! `A-Z a-z 0-9 - _ . ~` as `%` followed by two upper-case hex digits.

use vstd::prelude::*;

verus! {

/// A byte that the percent-encoding leaves as it is: the ASCII letters,
/// the digits, and `-`, `_`, `.`, `~`.
pub open spec fn is_unreserved_byte(b: u8) -> bool {
    (65 <= b && b <= 90)  // A-Z
    || (97 <= b && b <= 122)  // a-z
    || (48 <= b && b <= 57)  // 0-9
    || b == 45  // -
    || b == 95  // _
    || b == 46  // .
    || b == 126  // ~
}

/// The upper-case hexadecimal digit for a value below 16.
pub open spec fn hex_upper(n: u8) -> u8
    recommends
        n < 16,
{
    if n < 10 {
        (48 + n) as u8  // '0'..'9'
    } else {
        (55 + n) as u8  // 'A'..'F'
    }
}

/// How one byte is rendered: an unreserved byte stands as itself; every
/// other byte becomes `%` followed by its two upper-case hex digits.
pub open spec fn encode_byte(b: u8) -> Seq<u8> {
    if is_unreserved_byte(b) {
        seq![b]
    } else {
        seq![37u8, hex_upper(b / 16), hex_upper(b % 16)]
    }
}

/// The percent-encoding of a byte sequence, byte by byte.
pub open spec fn percent_encoded(s: Seq<u8>) -> Seq<u8>
    decreases s.len(),
{
    if s.len() == 0 {
        Seq::empty()
    } else {
        encode_byte(s[0]) + percent_encoded(s.skip(1))
    }
}

/// Appending one byte to the input appends that byte's rendering to the output.
pub proof fn lemma_percent_encoded_push(s: Seq<u8>, b: u8)
    ensures
        percent_encoded(s.push(b)) == percent_encoded(s) + encode_byte(b),
    decreases s.len(),
{
    if s.len() == 0 {
        assert(s.push(b)[0] == b);
        assert(s.push(b).skip(1) =~= Seq::<u8>::empty());
        assert(percent_encoded(Seq::<u8>::empty()) =~= Seq::<u8>::empty());
        assert(percent_encoded(s.push(b)) == encode_byte(b) + percent_encoded(
            s.push(b).skip(1),
        ));
        assert(percent_encoded(s.push(b)) =~= encode_byte(b));
        assert(percent_encoded(s) + encode_byte(b) =~= encode_byte(b));
    } else {
        assert(s.push(b).skip(1) =~= s.skip(1).push(b));
        lemma_percent_encoded_push(s.skip(1), b);
        assert(percent_encoded(s.push(b)) =~= percent_encoded(s) + encode_byte(b));
    }
}

/// The encoding never shortens its input, and keeps its length exactly when
/// every byte is unreserved.
pub proof fn lemma_percent_encoded_len(s: Seq<u8>)
    ensures
        percent_encoded(s).len() >= s.len(),
        percent_encoded(s).len() == s.len() <==> (forall|i: int|
            0 <= i < s.len() ==> is_unreserved_byte(s[i])),
    decreases s.len(),
{
    if s.len() == 0 {
    } else {
        lemma_percent_encoded_len(s.skip(1));
        assert(forall|i: int| 0 <= i < s.skip(1).len() ==> s.skip(1)[i] == s[i + 1]);
        assert(percent_encoded(s).len() == encode_byte(s[0]).len() + percent_encoded(
            s.skip(1),
        ).len());
        if percent_encoded(s).len() == s.len() {
            assert(is_unreserved_byte(s[0]));
            assert(percent_encoded(s.skip(1)).len() == s.skip(1).len());
            assert forall|i: int| 0 <= i < s.len() implies is_unreserved_byte(s[i]) by {
                if i > 0 {
                    assert(s[i] == s.skip(1)[i - 1]);
                }
            }
        }
        if forall|i: int| 0 <= i < s.len() ==> is_unreserved_byte(s[i]) {
            assert(forall|i: int|
                0 <= i < s.skip(1).len() ==> is_unreserved_byte(s.skip(1)[i]));
            assert(percent_encoded(s.skip(1)).len() == s.skip(1).len());
            assert(is_unreserved_byte(s[0]));
        }
    }
}

/// Law: the percent-encoding is the identity on a byte sequence exactly when
/// every byte of it is unreserved (`A-Z a-z 0-9 - _ . ~`); a sequence holding
/// any other byte — `/`, `:`, `"`, a space, anything non-ASCII — is changed.
pub proof fn lemma_percent_encoding_identity(s: Seq<u8>)
    ensures
        percent_encoded(s) == s <==> (forall|i: int|
            0 <= i < s.len() ==> is_unreserved_byte(s[i])),
    decreases s.len(),
{
    lemma_percent_encoded_len(s);
    if forall|i: int| 0 <= i < s.len() ==> is_unreserved_byte(s[i]) {
        if s.len() == 0 {
            assert(percent_encoded(s) =~= s);
        } else {
            assert(forall|i: int|
                0 <= i < s.skip(1).len() ==> s.skip(1)[i] == s[i + 1]);
            lemma_percent_encoding_identity(s.skip(1));
            assert(percent_encoded(s) =~= s);
        }
    }
}

/// How one byte of text is rendered inside a JSON string: `"` and `\` get a
/// backslash, a control byte below 0x20 becomes `\u00XX`, and every other
/// byte stands as itself.
pub open spec fn json_escaped_byte(b: u8) -> Seq<u8> {
    if b == 34 {  // "
        seq![92u8, 34u8]
    } else if b == 92 {  // backslash
        seq![92u8, 92u8]
    } else if b < 32 {
        seq![92u8, 117u8, 48u8, 48u8, hex_upper(b / 16), hex_upper(b % 16)]
    } else {
        seq![b]
    }
}

/// The JSON string escaping of a byte sequence, byte by byte.
pub open spec fn json_escaped(s: Seq<u8>) -> Seq<u8>
    decreases s.len(),
{
    if s.len() == 0 {
        Seq::empty()
    } else {
        json_escaped_byte(s[0]) + json_escaped(s.skip(1))
    }
}

/// Appending one byte to the input appends that byte's rendering to the output.
pub proof fn lemma_json_escaped_push(s: Seq<u8>, b: u8)
    ensures
        json_escaped(s.push(b)) == json_escaped(s) + json_escaped_byte(b),
    decreases s.len(),
{
    if s.len() == 0 {
        assert(s.push(b)[0] == b);
        assert(s.push(b).skip(1) =~= Seq::<u8>::empty());
        assert(json_escaped(Seq::<u8>::empty()) =~= Seq::<u8>::empty());
        assert(json_escaped(s.push(b)) == json_escaped_byte(b) + json_escaped(
            s.push(b).skip(1),
        ));
        assert(json_escaped(s.push(b)) =~= json_escaped_byte(b));
        assert(json_escaped(s) + json_escaped_byte(b) =~= json_escaped_byte(b));
    } else {
        assert(s.push(b).skip(1) =~= s.skip(1).push(b));
        lemma_json_escaped_push(s.skip(1), b);
        assert(json_escaped(s.push(b)) =~= json_escaped(s) + json_escaped_byte(b));
    }
}

/// Escape a byte slice for placement inside a JSON string: `"` and `\` get a
/// backslash, control bytes become `\u00XX`, everything else is kept.
pub fn json_escape(s: &[u8]) -> (r: Vec<u8>)
    ensures
        r@ == json_escaped(s@),
{
    let mut r: Vec<u8> = Vec::new();
    let mut i: usize = 0;
    while i < s.len()
        invariant
            i <= s@.len(),
            r@ == json_escaped(s@.take(i as int)),
        decreases s@.len() - i,
    {
        let b = s[i];
        proof {
            assert(s@.take(i as int + 1) =~= s@.take(i as int).push(s@[i as int]));
            lemma_json_escaped_push(s@.take(i as int), s@[i as int]);
        }
        if b == 34 {
            r.push(92);
            r.push(34);
        } else if b == 92 {
            r.push(92);
            r.push(92);
        } else if b < 32 {
            r.push(92);
            r.push(117);
            r.push(48);
            r.push(48);
            r.push(hex_digit_upper(b / 16));
            r.push(hex_digit_upper(b % 16));
        } else {
            r.push(b);
        }
        proof {
            assert(r@ =~= json_escaped(s@.take(i as int + 1)));
        }
        i = i + 1;
    }
    proof {
        assert(s@.take(s@.len() as int) =~= s@);
    }
    r
}

/// Whether the percent-encoding leaves this byte as it is.
pub fn is_unreserved(b: u8) -> (r: bool)
    ensures
        r == is_unreserved_byte(b),
{
    (65 <= b && b <= 90) || (97 <= b && b <= 122) || (48 <= b && b <= 57) || b == 45 || b == 95
        || b == 46 || b == 126
}

/// The upper-case hex digit of a value below 16.
fn hex_digit_upper(n: u8) -> (r: u8)
    requires
        n < 16,
    ensures
        r == hex_upper(n),
{
    if n < 10 {
        48 + n
    } else {
        55 + n
    }
}

/// Append every byte of a slice to a vector.
pub(crate) fn push_all(dst: &mut Vec<u8>, src: &[u8])
    ensures
        final(dst)@ == old(dst)@ + src@,
{
    let ghost dst0: Seq<u8> = dst@;
    let mut i: usize = 0;
    while i < src.len()
        invariant
            i <= src@.len(),
            dst@ == dst0 + src@.take(i as int),
        decreases src@.len() - i,
    {
        dst.push(src[i]);
        proof {
            assert(src@.take(i as int + 1) =~= src@.take(i as int).push(src@[i as int]));
            assert(dst0 + src@.take(i as int + 1) =~= (dst0 + src@.take(i as int)).push(
                src@[i as int],
            ));
        }
        i = i + 1;
    }
    proof {
        assert(src@.take(src@.len() as int) =~= src@);
    }
}

/// Percent-encode a byte slice: unreserved bytes are kept, every other byte
/// becomes `%` and two upper-case hex digits.
pub fn percent_encode(s: &[u8]) -> (r: Vec<u8>)
    ensures
        r@ == percent_encoded(s@),
{
    let mut r: Vec<u8> = Vec::new();
    let mut i: usize = 0;
    while i < s.len()
        invariant
            i <= s@.len(),
            r@ == percent_encoded(s@.take(i as int)),
        decreases s@.len() - i,
    {
        let b = s[i];
        proof {
            assert(s@.take(i as int + 1) =~= s@.take(i as int).push(s@[i as int]));
            lemma_percent_encoded_push(s@.take(i as int), s@[i as int]);
        }
        if is_unreserved(b) {
            r.push(b);
        } else {
            r.push(37);
            r.push(hex_digit_upper(b / 16));
            r.push(hex_digit_upper(b % 16));
        }
        proof {
            assert(r@ =~= percent_encoded(s@.take(i as int + 1)));
        }
        i = i + 1;
    }
    proof {
        assert(s@.take(s@.len() as int) =~= s@);
    }
    r
}

} // verus!
