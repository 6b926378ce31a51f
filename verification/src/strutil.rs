use vstd::prelude::*;

verus! {

use vstd::string::StringSliceAdditionalSpecFns;

/// Two byte slices hold the same bytes.
pub fn bytes_eq(a: &[u8], b: &[u8]) -> (r: bool)
    ensures
        r == (a@ == b@),
{
    if a.len() != b.len() {
        return false;
    }
    let mut i: usize = 0;
    while i < a.len()
        invariant
            0 <= i <= a@.len(),
            a@.len() == b@.len(),
            forall|j: int| 0 <= j < i ==> a@[j] == b@[j],
        decreases a@.len() - i,
    {
        if a[i] != b[i] {
            return false;
        }
        i += 1;
    }
    proof {
        assert(a@ =~= b@);
    }
    true
}

/// Two string slices hold the same characters.
pub fn str_eq(a: &str, b: &str) -> (r: bool)
    ensures
        r == (a@ == b@),
{
    let r = bytes_eq(a.as_bytes(), b.as_bytes());
    proof {
        vstd::utf8::encode_utf8_decode_utf8(a@);
        vstd::utf8::encode_utf8_decode_utf8(b@);
    }
    r
}

/// The pattern `p` occurs in `s` at position `i`.
pub fn match_at(s: &[u8], i: usize, p: &[u8]) -> (r: bool)
    requires
        i <= s@.len(),
    ensures
        r == (i + p@.len() <= s@.len() && s@.subrange(i as int, i + p@.len()) == p@),
{
    if s.len() - i < p.len() {
        return false;
    }
    let mut j: usize = 0;
    while j < p.len()
        invariant
            0 <= j <= p@.len(),
            i + p@.len() <= s@.len() <= usize::MAX,
            forall|k: int| 0 <= k < j ==> s@[i + k] == p@[k],
        decreases p@.len() - j,
    {
        assert(i + j < s@.len());
        if s[i + j] != p[j] {
            assert(s@.subrange(i as int, i + p@.len())[j as int] != p@[j as int]);
            return false;
        }
        j += 1;
    }
    proof {
        assert(s@.subrange(i as int, i + p@.len()) =~= p@);
    }
    true
}

/// The bytes of `s` in the range `[i, j)` are exactly `p`.
pub fn range_eq(s: &[u8], i: usize, j: usize, p: &[u8]) -> (r: bool)
    requires
        i <= j <= s@.len(),
    ensures
        r == (s@.subrange(i as int, j as int) == p@),
{
    if j - i != p.len() {
        proof {
            assert(s@.subrange(i as int, j as int).len() != p@.len());
        }
        return false;
    }
    let r = match_at(s, i, p);
    proof {
        assert(s@.subrange(i as int, i + p@.len()) == s@.subrange(i as int, j as int));
    }
    r
}

/// The bytes `b` start with the bytes `p`.
pub open spec fn spec_starts_with(b: Seq<u8>, p: Seq<u8>) -> bool {
    p.len() <= b.len() && b.take(p.len() as int) == p
}

/// The bytes `b` end with the bytes `p`.
pub open spec fn spec_ends_with(b: Seq<u8>, p: Seq<u8>) -> bool {
    p.len() <= b.len() && b.skip(b.len() - p.len()) == p
}

/// The string `s` starts with the byte pattern `p`.
pub fn str_starts_with(s: &str, p: &[u8]) -> (r: bool)
    ensures
        r == spec_starts_with(s.spec_bytes(), p@),
{
    let sb = s.as_bytes();
    if p.len() > sb.len() {
        return false;
    }
    let r = match_at(sb, 0, p);
    proof {
        assert(sb@.subrange(0, p@.len() as int) =~= sb@.take(p@.len() as int));
    }
    r
}

/// The string `s` ends with the byte pattern `p`.
pub fn str_ends_with(s: &str, p: &[u8]) -> (r: bool)
    ensures
        r == spec_ends_with(s.spec_bytes(), p@),
{
    let sb = s.as_bytes();
    if p.len() > sb.len() {
        return false;
    }
    let r = range_eq(sb, sb.len() - p.len(), sb.len(), p);
    proof {
        assert(sb@.subrange(sb@.len() - p@.len(), sb@.len() as int) =~= sb@.skip(
            sb@.len() - p@.len(),
        ));
    }
    r
}

/// A copy of a byte slice as an owned vector.
pub fn copy_bytes(s: &[u8]) -> (r: Vec<u8>)
    ensures
        r@ == s@,
{
    let mut out: Vec<u8> = Vec::new();
    let mut i: usize = 0;
    while i < s.len()
        invariant
            0 <= i <= s@.len(),
            out@ == s@.take(i as int),
        decreases s@.len() - i,
    {
        out.push(s[i]);
        proof {
            assert(out@ =~= s@.take(i + 1));
        }
        i += 1;
    }
    proof {
        assert(s@.take(s@.len() as int) =~= s@);
    }
    out
}

/// Append the bytes of `p` to `out`.
pub fn append_bytes(out: &mut Vec<u8>, p: &[u8])
    ensures
        final(out)@ == old(out)@ + p@,
{
    let mut i: usize = 0;
    while i < p.len()
        invariant
            0 <= i <= p@.len(),
            out@ == old(out)@ + p@.take(i as int),
        decreases p@.len() - i,
    {
        out.push(p[i]);
        proof {
            assert(old(out)@ + p@.take(i as int) + seq![p@[i as int]] =~= old(out)@ + p@.take(
                i + 1,
            ));
        }
        i += 1;
    }
    proof {
        assert(old(out)@ + p@.take(p@.len() as int) =~= old(out)@ + p@);
    }
}

/// What `str::replace` returns, on bytes: every occurrence of a
/// non-empty `from`, scanned left to right without overlap, replaced by
/// `to`. An empty pattern leaves the bytes as they are.
pub open spec fn spec_replace(s: Seq<u8>, from: Seq<u8>, to: Seq<u8>) -> Seq<u8>
    decreases s.len(),
{
    if from.len() == 0 || s.len() < from.len() {
        s
    } else if s.take(from.len() as int) == from {
        to + spec_replace(s.skip(from.len() as int), from, to)
    } else {
        seq![s[0]] + spec_replace(s.skip(1), from, to)
    }
}

proof fn lemma_replace_step_copy(s: Seq<u8>, from: Seq<u8>, to: Seq<u8>)
    requires
        from.len() > 0,
        s.len() > 0,
        !(s.len() >= from.len() && s.take(from.len() as int) == from),
    ensures
        spec_replace(s, from, to) == seq![s[0]] + spec_replace(s.skip(1), from, to),
{
    if s.len() < from.len() {
        assert(s.skip(1).len() < from.len());
        assert(seq![s[0]] + s.skip(1) =~= s);
    }
}

/// Replace every occurrence of `from` in `s` by `to`, scanning left to
/// right without overlap, as `str::replace` does; an empty pattern
/// leaves the bytes as they are.
pub fn replace_bytes(s: &[u8], from: &[u8], to: &[u8]) -> (r: Vec<u8>)
    ensures
        r@ == spec_replace(s@, from@, to@),
{
    if from.len() == 0 {
        return copy_bytes(s);
    }
    let mut out: Vec<u8> = Vec::new();
    let mut i: usize = 0;
    proof {
        assert(s@.skip(0) =~= s@);
    }
    while i < s.len()
        invariant
            0 <= i <= s@.len(),
            from@.len() > 0,
            spec_replace(s@, from@, to@) == out@ + spec_replace(s@.skip(i as int), from@, to@),
        decreases s@.len() - i,
    {
        let ghost rest = s@.skip(i as int);
        if match_at(s, i, from) {
            proof {
                assert(rest.take(from@.len() as int) =~= s@.subrange(i as int, i + from@.len()));
                assert(rest.skip(from@.len() as int) =~= s@.skip(i + from@.len()));
                assert(out@ + (to@ + spec_replace(s@.skip(i + from@.len()), from@, to@)) =~= (out@
                    + to@) + spec_replace(s@.skip(i + from@.len()), from@, to@));
            }
            append_bytes(&mut out, to);
            i += from.len();
        } else {
            proof {
                if rest.len() >= from@.len() {
                    assert(rest.take(from@.len() as int) =~= s@.subrange(
                        i as int,
                        i + from@.len(),
                    ));
                }
                lemma_replace_step_copy(rest, from@, to@);
                assert(rest[0] == s@[i as int]);
                assert(rest.skip(1) =~= s@.skip(i + 1));
                assert(out@ + (seq![s@[i as int]] + spec_replace(s@.skip(i + 1), from@, to@)) =~= (
                out@ + seq![s@[i as int]]) + spec_replace(s@.skip(i + 1), from@, to@));
                assert(out@.push(s@[i as int]) =~= out@ + seq![s@[i as int]]);
            }
            out.push(s[i]);
            i += 1;
        }
    }
    proof {
        assert(s@.skip(s@.len() as int).len() == 0);
    }
    out
}

/// Relies on `String::from_utf8`: it returns `Ok` exactly on valid UTF-8
/// input, and the string it returns decodes those bytes.
#[verifier::external_body]
pub(crate) fn string_from_utf8(v: Vec<u8>) -> (r: Option<String>)
    ensures
        r is Some <==> vstd::utf8::valid_utf8(v@),
        r matches Some(s) ==> s@ == vstd::utf8::decode_utf8(v@) && vstd::utf8::encode_utf8(s@)
            == v@,
{
    String::from_utf8(v).ok()
}

} // verus!
