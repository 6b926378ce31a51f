use vstd::prelude::*;

use crate::ctypes::GlslProfile;
use crate::error::GlslangError;
use crate::strutil::{match_at, range_eq};
use vstd::string::StringSliceAdditionalSpecFns;

verus! {

/// ASCII whitespace, as the version directive treats it.
pub open spec fn is_ascii_ws(b: u8) -> bool {
    b == 9 || b == 10 || b == 11 || b == 12 || b == 13 || b == 32
}

/// The bytes of `s` with leading whitespace removed.
pub open spec fn trim_start(s: Seq<u8>) -> Seq<u8>
    decreases s.len(),
{
    if s.len() > 0 && is_ascii_ws(s[0]) {
        trim_start(s.skip(1))
    } else {
        s
    }
}

/// The bytes of `s` with trailing whitespace removed.
pub open spec fn trim_end(s: Seq<u8>) -> Seq<u8>
    decreases s.len(),
{
    if s.len() > 0 && is_ascii_ws(s[s.len() - 1]) {
        trim_end(s.take(s.len() - 1))
    } else {
        s
    }
}

/// The bytes of `s` up to, and not holding, the first line feed.
pub open spec fn line_prefix(s: Seq<u8>) -> Seq<u8>
    decreases s.len(),
{
    if s.len() == 0 {
        s
    } else if s[0] == 10 {
        Seq::empty()
    } else {
        seq![s[0]] + line_prefix(s.skip(1))
    }
}

/// The bytes of `"#version "`.
pub open spec fn version_prefix() -> Seq<u8> {
    seq![35u8, 118u8, 101u8, 114u8, 115u8, 105u8, 111u8, 110u8, 32u8]
}

/// The bytes of `s` with every leading repetition of `"#version "` removed.
pub open spec fn strip_version_prefix(s: Seq<u8>) -> Seq<u8>
    decreases s.len(),
{
    if s.len() >= 9 && s.take(9) == version_prefix() {
        strip_version_prefix(s.skip(9))
    } else {
        s
    }
}

/// An ASCII decimal digit.
pub open spec fn is_digit(b: u8) -> bool {
    48 <= b <= 57
}

/// What parsing exactly three bytes as a signed decimal number yields:
/// three digits, or a sign and two digits.
pub open spec fn parse3(s: Seq<u8>) -> Option<int> {
    if s.len() != 3 {
        None
    } else if is_digit(s[0]) && is_digit(s[1]) && is_digit(s[2]) {
        Some(100 * (s[0] - 48) + 10 * (s[1] - 48) + (s[2] - 48))
    } else if s[0] == 43 && is_digit(s[1]) && is_digit(s[2]) {
        Some(10 * (s[1] - 48) + (s[2] - 48))
    } else if s[0] == 45 && is_digit(s[1]) && is_digit(s[2]) {
        Some(-(10 * (s[1] - 48) + (s[2] - 48)))
    } else {
        None
    }
}

/// The bytes of `"compatibility"`.
pub open spec fn word_compatibility() -> Seq<u8> {
    seq![99u8, 111u8, 109u8, 112u8, 97u8, 116u8, 105u8, 98u8, 105u8, 108u8, 105u8, 116u8, 121u8]
}

/// The bytes of `"es"`.
pub open spec fn word_es() -> Seq<u8> {
    seq![101u8, 115u8]
}

/// The bytes of `"core"`.
pub open spec fn word_core() -> Seq<u8> {
    seq![99u8, 111u8, 114u8, 101u8]
}

/// The profile a trimmed profile word denotes, if any.
pub open spec fn profile_of_word(w: Seq<u8>) -> Option<GlslProfile> {
    if w == word_compatibility() {
        Some(GlslProfile::Compatibility)
    } else if w == word_es() {
        Some(GlslProfile::ES)
    } else if w == word_core() {
        Some(GlslProfile::Core)
    } else if w.len() == 0 {
        Some(GlslProfile::NoProfile)
    } else {
        None
    }
}

/// The (version, profile) pair declared by the first non-blank line of
/// the source text, where that line is `#version <three bytes> [word]`;
/// `None` where no such directive can be read.
pub open spec fn spec_parse_profile(s: Seq<u8>) -> Option<(i32, GlslProfile)> {
    let line = trim_end(line_prefix(trim_start(s)));
    if line.len() < 9 || line.take(9) != version_prefix() {
        None
    } else {
        let rest = strip_version_prefix(line);
        if rest.len() < 3 {
            None
        } else {
            match parse3(rest.take(3)) {
                None => None,
                Some(v) => {
                    match profile_of_word(trim_end(trim_start(rest.skip(3)))) {
                        None => None,
                        Some(p) => Some((v as i32, p)),
                    }
                },
            }
        }
    }
}

proof fn lemma_trim_start_at(s: Seq<u8>, k: int)
    requires
        0 <= k <= s.len(),
        forall|j: int| 0 <= j < k ==> is_ascii_ws(s[j]),
        k == s.len() || !is_ascii_ws(s[k]),
    ensures
        trim_start(s) == s.skip(k),
    decreases k,
{
    if k == 0 {
        assert(s.skip(0) =~= s);
    } else {
        assert(is_ascii_ws(s[0]));
        let t = s.skip(1);
        assert(forall|j: int| 0 <= j < k - 1 ==> t[j] == s[j + 1]);
        lemma_trim_start_at(t, k - 1);
        assert(t.skip(k - 1) =~= s.skip(k));
    }
}

proof fn lemma_line_prefix_at(s: Seq<u8>, k: int)
    requires
        0 <= k <= s.len(),
        forall|j: int| 0 <= j < k ==> s[j] != 10,
        k == s.len() || s[k] == 10,
    ensures
        line_prefix(s) == s.take(k),
    decreases k,
{
    if s.len() == 0 {
        assert(s.take(0) =~= s);
    } else if s[0] == 10 {
        assert(k == 0);
        assert(s.take(0) =~= Seq::<u8>::empty());
    } else {
        assert(k >= 1);
        let t = s.skip(1);
        assert(forall|j: int| 0 <= j < k - 1 ==> t[j] == s[j + 1]);
        lemma_line_prefix_at(t, k - 1);
        assert(seq![s[0]] + t.take(k - 1) =~= s.take(k));
    }
}

proof fn lemma_trim_end_at(s: Seq<u8>, k: int)
    requires
        0 <= k <= s.len(),
        forall|j: int| k <= j < s.len() ==> is_ascii_ws(s[j]),
        k == 0 || !is_ascii_ws(s[k - 1]),
    ensures
        trim_end(s) == s.take(k),
    decreases s.len(),
{
    if k == s.len() {
        assert(s.take(k) =~= s);
    } else {
        assert(is_ascii_ws(s[s.len() - 1]));
        let t = s.take(s.len() - 1);
        assert(forall|j: int| k <= j < t.len() ==> t[j] == s[j]);
        lemma_trim_end_at(t, k);
        assert(t.take(k) =~= s.take(k));
    }
}

/// The bytes of `"#version "`, as a vector.
fn version_prefix_vec() -> (r: Vec<u8>)
    ensures
        r@ == version_prefix(),
{
    let mut v: Vec<u8> = Vec::new();
    v.push(35);
    v.push(118);
    v.push(101);
    v.push(114);
    v.push(115);
    v.push(105);
    v.push(111);
    v.push(110);
    v.push(32);
    proof {
        assert(v@ =~= version_prefix());
    }
    v
}

/// The bytes of `"compatibility"`, as a vector.
fn word_compatibility_vec() -> (r: Vec<u8>)
    ensures
        r@ == word_compatibility(),
{
    let mut v: Vec<u8> = Vec::new();
    v.push(99);
    v.push(111);
    v.push(109);
    v.push(112);
    v.push(97);
    v.push(116);
    v.push(105);
    v.push(98);
    v.push(105);
    v.push(108);
    v.push(105);
    v.push(116);
    v.push(121);
    proof {
        assert(v@ =~= word_compatibility());
    }
    v
}

/// The bytes of `"es"`, as a vector.
fn word_es_vec() -> (r: Vec<u8>)
    ensures
        r@ == word_es(),
{
    let mut v: Vec<u8> = Vec::new();
    v.push(101);
    v.push(115);
    proof {
        assert(v@ =~= word_es());
    }
    v
}

/// The bytes of `"core"`, as a vector.
fn word_core_vec() -> (r: Vec<u8>)
    ensures
        r@ == word_core(),
{
    let mut v: Vec<u8> = Vec::new();
    v.push(99);
    v.push(111);
    v.push(114);
    v.push(101);
    proof {
        assert(v@ =~= word_core());
    }
    v
}

fn is_ws_byte(b: u8) -> (r: bool)
    ensures
        r == is_ascii_ws(b),
{
    b == 9 || b == 10 || b == 11 || b == 12 || b == 13 || b == 32
}

/// The source string of a shader: an owned, nul-free text buffer the
/// engine can read as a C string.
#[derive(Debug)]
pub struct ShaderSource {
    text: Vec<u8>,
}

impl View for ShaderSource {
    type V = Seq<u8>;

    closed spec fn view(&self) -> Seq<u8> {
        self.text@
    }
}

impl ShaderSource {
    /// No byte of the text is an embedded terminator.
    #[verifier::type_invariant]
    pub closed spec fn wf(&self) -> bool {
        forall|i: int| 0 <= i < self.text@.len() ==> self.text@[i] != 0
    }

    /// Build a source buffer from text; fails exactly when the text holds
    /// an embedded terminator byte.
    pub fn from(text: &str) -> (r: Result<ShaderSource, GlslangError>)
        ensures
            r is Ok <==> (forall|i: int|
                0 <= i < text.spec_bytes().len() ==> text.spec_bytes()[i] != 0),
            r matches Ok(s) ==> s@ == text.spec_bytes(),
            r matches Err(e) ==> e == GlslangError::InvalidSourceText,
    {
        let bytes = text.as_bytes();
        let mut i: usize = 0;
        while i < bytes.len()
            invariant
                0 <= i <= bytes@.len(),
                bytes@ == text.spec_bytes(),
                forall|j: int| 0 <= j < i ==> bytes@[j] != 0,
            decreases bytes@.len() - i,
        {
            if bytes[i] == 0 {
                return Err(GlslangError::InvalidSourceText);
            }
            i += 1;
        }
        let text = crate::strutil::copy_bytes(bytes);
        Ok(ShaderSource { text })
    }

    /// The text, as bytes. Every source buffer that exists is nul-free:
    /// what the construction invariant guarantees the engine.
    pub fn text(&self) -> (r: &[u8])
        ensures
            r@ == self@,
            forall|i: int| 0 <= i < self@.len() ==> self@[i] != 0,
    {
        proof {
            use_type_invariant(self);
        }
        self.text.as_slice()
    }

    /// The length of the text in bytes.
    pub fn len(&self) -> (r: usize)
        ensures
            r == self@.len(),
    {
        self.text.len()
    }

    /// Read the declared (version, profile) pair from the first non-blank
    /// line of the text, where that line is a version directive.
    #[verifier::rlimit(80)]
    pub fn parse_profile(&self) -> (r: Option<(i32, GlslProfile)>)
        ensures
            r == spec_parse_profile(self@),
    {
        let b: &[u8] = self.text.as_slice();
        let n: usize = b.len();
        let ghost s = self@;

        // Skip the whitespace before the first non-blank line.
        let mut start: usize = 0;
        while start < n && is_ws_byte(b[start])
            invariant
                0 <= start <= n,
                n == s.len(),
                b@ == s,
                forall|j: int| 0 <= j < start ==> is_ascii_ws(s[j]),
            decreases n - start,
        {
            start += 1;
        }
        proof {
            lemma_trim_start_at(s, start as int);
        }
        let ghost t1 = s.skip(start as int);
        if start == n {
            proof {
                assert(t1.len() == 0);
            }
            return None;
        }
        // The first line runs to the next line feed.
        let mut end: usize = start;
        while end < n && b[end] != 10
            invariant
                start <= end <= n,
                n == s.len(),
                b@ == s,
                forall|j: int| start <= j < end ==> s[j] != 10,
            decreases n - end,
        {
            end += 1;
        }
        proof {
            assert(forall|j: int| 0 <= j < end - start ==> t1[j] == s[j + start]);
            lemma_line_prefix_at(t1, end - start);
            assert(t1.take(end - start) =~= s.subrange(start as int, end as int));
        }
        // Trim the line on the right; the left is already trimmed.
        let mut le: usize = end;
        while le > start && is_ws_byte(b[le - 1])
            invariant
                start <= le <= end <= n,
                n == s.len(),
                b@ == s,
                forall|j: int| le <= j < end ==> is_ascii_ws(s[j]),
            decreases le,
        {
            le -= 1;
        }
        let ghost lp = s.subrange(start as int, end as int);
        proof {
            assert(forall|j: int| 0 <= j < end - start ==> lp[j] == s[j + start]);
            lemma_trim_end_at(lp, le - start);
            assert(lp.take(le - start) =~= s.subrange(start as int, le as int));
        }
        let ghost line = s.subrange(start as int, le as int);
        // The line must carry the version directive.
        let vp = version_prefix_vec();
        if le - start < 9 {
            return None;
        }
        let has_prefix = match_at(b, start, vp.as_slice());
        proof {
            assert(line.take(9) =~= s.subrange(start as int, start + 9));
        }
        if !has_prefix {
            return None;
        }
        // Strip every leading repetition of the directive prefix.
        let mut pos: usize = start + 9;
        proof {
            assert(line.skip(9) =~= s.subrange(start + 9, le as int));
        }
        while le - pos >= 9 && match_at(b, pos, vp.as_slice())
            invariant
                start + 9 <= pos <= le <= n,
                n == s.len(),
                b@ == s,
                vp@ == version_prefix(),
                strip_version_prefix(line) == strip_version_prefix(
                    s.subrange(pos as int, le as int),
                ),
                line == s.subrange(start as int, le as int),
            decreases le - pos,
        {
            proof {
                let rest = s.subrange(pos as int, le as int);
                assert(rest.take(9) =~= s.subrange(pos as int, pos + 9));
                assert(rest.skip(9) =~= s.subrange(pos + 9, le as int));
            }
            pos += 9;
        }
        let ghost rest = s.subrange(pos as int, le as int);
        proof {
            if rest.len() >= 9 {
                assert(rest.take(9) =~= s.subrange(pos as int, pos + 9));
            }
            assert(strip_version_prefix(rest) == rest);
        }
        if le - pos < 3 {
            return None;
        }
        // Three bytes of version number.
        let d0 = b[pos];
        let d1 = b[pos + 1];
        let d2 = b[pos + 2];
        proof {
            assert(rest.take(3)[0] == d0);
            assert(rest.take(3)[1] == d1);
            assert(rest.take(3)[2] == d2);
        }
        let version: i32 = if 48 <= d0 && d0 <= 57 && 48 <= d1 && d1 <= 57 && 48 <= d2 && d2 <= 57 {
            100 * ((d0 - 48) as i32) + 10 * ((d1 - 48) as i32) + ((d2 - 48) as i32)
        } else if d0 == 43 && 48 <= d1 && d1 <= 57 && 48 <= d2 && d2 <= 57 {
            10 * ((d1 - 48) as i32) + ((d2 - 48) as i32)
        } else if d0 == 45 && 48 <= d1 && d1 <= 57 && 48 <= d2 && d2 <= 57 {
            -(10 * ((d1 - 48) as i32) + ((d2 - 48) as i32))
        } else {
            return None;
        };
        // The profile word, trimmed on both ends.
        let mut w0: usize = pos + 3;
        while w0 < le && is_ws_byte(b[w0])
            invariant
                pos + 3 <= w0 <= le <= n,
                n == s.len(),
                b@ == s,
                forall|j: int| pos + 3 <= j < w0 ==> is_ascii_ws(s[j]),
            decreases le - w0,
        {
            w0 += 1;
        }
        let ghost after = rest.skip(3);
        proof {
            assert(after =~= s.subrange(pos + 3, le as int));
            assert(forall|j: int| 0 <= j < after.len() ==> after[j] == s[j + pos + 3]);
            lemma_trim_start_at(after, w0 - (pos + 3));
            assert(after.skip(w0 - (pos + 3)) =~= s.subrange(w0 as int, le as int));
        }
        let mut w1: usize = le;
        while w1 > w0 && is_ws_byte(b[w1 - 1])
            invariant
                w0 <= w1 <= le <= n,
                n == s.len(),
                b@ == s,
                forall|j: int| w1 <= j < le ==> is_ascii_ws(s[j]),
            decreases w1,
        {
            w1 -= 1;
        }
        let ghost tstart = s.subrange(w0 as int, le as int);
        proof {
            assert(forall|j: int| 0 <= j < tstart.len() ==> tstart[j] == s[j + w0]);
            lemma_trim_end_at(tstart, w1 - w0);
            assert(tstart.take(w1 - w0) =~= s.subrange(w0 as int, w1 as int));
        }
        let ghost word = s.subrange(w0 as int, w1 as int);
        let compat = word_compatibility_vec();
        let es = word_es_vec();
        let core_word = word_core_vec();
        let profile: GlslProfile = if range_eq(b, w0, w1, compat.as_slice()) {
            GlslProfile::Compatibility
        } else if range_eq(b, w0, w1, es.as_slice()) {
            GlslProfile::ES
        } else if range_eq(b, w0, w1, core_word.as_slice()) {
            GlslProfile::Core
        } else if w1 == w0 {
            proof {
                assert(word.len() == 0);
            }
            GlslProfile::NoProfile
        } else {
            return None;
        };
        Some((version, profile))
    }
}

} // verus!
