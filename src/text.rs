use vstd::prelude::*;

verus! {

/// `t` is the text of the C string held in `raw`: everything before the first
/// NUL byte, or all of `raw` when it holds none.
pub open spec fn is_c_text(raw: Seq<u8>, t: Seq<u8>) -> bool {
    &&& t.len() <= raw.len()
    &&& t == raw.subrange(0, t.len() as int)
    &&& forall|i: int| 0 <= i < t.len() ==> t[i] != 0u8
    &&& (t.len() == raw.len() || raw[t.len() as int] == 0u8)
}

/// A buffer holds one C text only, so contracts stated with `is_c_text` fix
/// their result.
pub proof fn lemma_c_text_unique(raw: Seq<u8>, t1: Seq<u8>, t2: Seq<u8>)
    requires
        is_c_text(raw, t1),
        is_c_text(raw, t2),
    ensures
        t1 == t2,
{
    if t1.len() < t2.len() {
        assert(t2[t1.len() as int] == raw[t1.len() as int]);
    } else if t2.len() < t1.len() {
        assert(t1[t2.len() as int] == raw[t2.len() as int]);
    }
}

/// Decodes a C string handed over by the host. `None` stands for a null pointer
/// and stays absent; otherwise the text runs up to the terminator.
pub fn c_text(raw: Option<&[u8]>) -> (r: Option<Vec<u8>>)
    ensures
        raw is None <==> r is None,
        raw is Some ==> is_c_text(raw->0@, r->0@),
{
    match raw {
        None => None,
        Some(bytes) => {
            let mut out: Vec<u8> = Vec::new();
            let mut i: usize = 0;
            while i < bytes.len() && bytes[i] != 0u8
                invariant
                    i <= bytes@.len(),
                    out@ == bytes@.subrange(0, i as int),
                    forall|j: int| 0 <= j < i ==> bytes@[j] != 0u8,
                decreases bytes@.len() - i,
            {
                out.push(bytes[i]);
                i = i + 1;
            }
            Some(out)
        },
    }
}

} // verus!
