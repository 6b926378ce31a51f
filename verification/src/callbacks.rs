use vstd::prelude::*;

use vstd::string::StringSliceAdditionalSpecFns;
use vstd::utf8::encode_utf8;

verus! {

/// The type of include being requested by the engine's preprocessor.
#[derive(Copy, Clone, PartialEq, Eq, Structural, Hash, Debug)]
pub enum IncludeType {
    /// A system include, using angle brackets.
    System,
    /// A relative local include, using quotes.
    Local,
}

/// The result of a resolved include.
#[derive(Debug, Clone, PartialEq)]
pub struct IncludeResult {
    /// The name of the header.
    pub name: String,
    /// The contents of the header file.
    pub data: String,
}

/// A structure to resolve header text ourselves. Data can be attached
/// to the implementing type for resolving paths. If the resolution
/// fails, `None` is returned, and the engine sees no result.
pub trait IncludeHandler {
    fn resolve(
        &mut self,
        ty: IncludeType,
        header_name: &str,
        includer_name: &str,
        depth: usize,
    ) -> Option<IncludeResult>;
}

/// Buffers in the exact form their ownership crosses to the engine:
/// each text nul-terminated, and the recorded length that of the data
/// before its terminator.
#[derive(Debug, PartialEq, Eq)]
pub struct MarshaledInclude {
    /// The header name the engine will read as a C string.
    pub name: Vec<u8>,
    /// The header contents the engine will read as a C string.
    pub data: Vec<u8>,
    /// The length of the contents, terminator not counted.
    pub length: usize,
}

/// Some byte of `b` is zero.
pub open spec fn has_nul(b: Seq<u8>) -> bool {
    exists|i: int| 0 <= i < b.len() && b[i] == 0
}

/// The marshaled form carries exactly the resolved texts: each encoded,
/// nul-terminated, and the data length recorded.
pub open spec fn marshaled_from(r: IncludeResult, m: MarshaledInclude) -> bool {
    &&& m.name@ == encode_utf8(r.name@) + seq![0u8]
    &&& m.data@ == encode_utf8(r.data@) + seq![0u8]
    &&& m.length == encode_utf8(r.data@).len()
}

/// What any buffer pair handed to the engine satisfies: both texts are
/// nul-terminated with no interior terminator, and the recorded length
/// is the data length before its terminator.
pub open spec fn well_formed_marshal(m: MarshaledInclude) -> bool {
    &&& m.name@.len() >= 1 && m.name@[m.name@.len() - 1] == 0
    &&& forall|i: int| 0 <= i < m.name@.len() - 1 ==> m.name@[i] != 0
    &&& m.data@.len() >= 1 && m.data@[m.data@.len() - 1] == 0
    &&& forall|i: int| 0 <= i < m.data@.len() - 1 ==> m.data@[i] != 0
    &&& m.length == m.data@.len() - 1
}

/// The marshaled form carries the resolved texts faithfully: no two
/// distinct answers marshal to the same buffers.
pub proof fn lemma_marshal_faithful(r1: IncludeResult, r2: IncludeResult, m: MarshaledInclude)
    requires
        marshaled_from(r1, m),
        marshaled_from(r2, m),
    ensures
        r1.name@ == r2.name@,
        r1.data@ == r2.data@,
{
    let n1 = encode_utf8(r1.name@);
    let n2 = encode_utf8(r2.name@);
    assert(n1 =~= (n1 + seq![0u8]).take(n1.len() as int));
    assert(n2 =~= (n2 + seq![0u8]).take(n2.len() as int));
    assert(n1 == n2);
    vstd::utf8::encode_utf8_decode_utf8(r1.name@);
    vstd::utf8::encode_utf8_decode_utf8(r2.name@);
    let d1 = encode_utf8(r1.data@);
    let d2 = encode_utf8(r2.data@);
    assert(d1 =~= (d1 + seq![0u8]).take(d1.len() as int));
    assert(d2 =~= (d2 + seq![0u8]).take(d2.len() as int));
    assert(d1 == d2);
    vstd::utf8::encode_utf8_decode_utf8(r1.data@);
    vstd::utf8::encode_utf8_decode_utf8(r2.data@);
}

fn find_nul(b: &[u8]) -> (r: bool)
    ensures
        r == has_nul(b@),
{
    let mut i: usize = 0;
    while i < b.len()
        invariant
            0 <= i <= b@.len(),
            forall|j: int| 0 <= j < i ==> b@[j] != 0,
        decreases b@.len() - i,
    {
        if b[i] == 0 {
            return true;
        }
        i += 1;
    }
    false
}

/// Marshal a handler's answer into the form whose ownership crosses to
/// the engine. No answer, or an answer whose name or contents hold an
/// embedded terminator, yields no result; otherwise both texts are
/// copied into fresh nul-terminated buffers and the data length is
/// recorded.
pub fn marshal_include_result(r: Option<IncludeResult>) -> (m: Option<MarshaledInclude>)
    ensures
        match r {
            None => m is None,
            Some(res) => {
                if has_nul(encode_utf8(res.name@)) || has_nul(encode_utf8(res.data@)) {
                    m is None
                } else {
                    m matches Some(mm) && marshaled_from(res, mm) && well_formed_marshal(mm)
                }
            },
        },
{
    let res = match r {
        None => {
            return None;
        },
        Some(res) => res,
    };
    let mut name = res.name.as_str().as_bytes_vec();
    let mut data = res.data.as_str().as_bytes_vec();
    if find_nul(name.as_slice()) || find_nul(data.as_slice()) {
        return None;
    }
    let length = data.len();
    name.push(0);
    data.push(0);
    let m = MarshaledInclude { name, data, length };
    proof {
        assert(m.name@ =~= encode_utf8(res.name@) + seq![0u8]);
        assert(m.data@ =~= encode_utf8(res.data@) + seq![0u8]);
    }
    Some(m)
}

/// The verified core of an include trampoline: hand the decoded query
/// to the caller's handler and marshal whatever it answers. Whatever
/// comes back, the engine sees either no result or a well-formed pair
/// of nul-terminated buffers with an exact recorded length.
pub fn resolve_include<H: IncludeHandler>(
    handler: &mut H,
    ty: IncludeType,
    header_name: &str,
    includer_name: &str,
    depth: usize,
) -> (m: Option<MarshaledInclude>)
    ensures
        m matches Some(mm) ==> well_formed_marshal(mm),
{
    let answer = handler.resolve(ty, header_name, includer_name, depth);
    marshal_include_result(answer)
}

} // verus!
