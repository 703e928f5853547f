//! Text and its UTF-8 bytes.

use crate::sorted::Keyed;
use vstd::prelude::*;
use vstd::string::*;
use vstd::utf8::{encode_utf8, encode_utf8_decode_utf8};

verus! {

/// The bytes of two texts joined are the bytes of the one, then of the other.
pub proof fn lemma_encode_concat(a: Seq<char>, b: Seq<char>)
    ensures
        encode_utf8(a + b) == encode_utf8(a) + encode_utf8(b),
    decreases a.len(),
{
    if a.len() == 0 {
        assert(a + b =~= b);
        assert(encode_utf8(a) + encode_utf8(b) =~= encode_utf8(b));
    } else {
        lemma_encode_concat(a.drop_first(), b);
        assert((a + b).drop_first() =~= a.drop_first() + b);
        assert((a + b)[0] == a[0]);
        assert(encode_utf8(a + b) =~= encode_utf8(a) + encode_utf8(b));
    }
}

/// Texts with the same bytes are the same text.
pub proof fn lemma_encode_injective(a: Seq<char>, b: Seq<char>)
    ensures
        encode_utf8(a) == encode_utf8(b) <==> a == b,
{
    encode_utf8_decode_utf8(a);
    encode_utf8_decode_utf8(b);
}

/// A text is found and ordered by its UTF-8 bytes, as `str` orders text.
impl Keyed for String {
    open spec fn key_of(v: Seq<char>) -> Seq<u8> {
        encode_utf8(v)
    }

    fn key_bytes(&self) -> (k: Vec<u8>) {
        self.as_str().as_bytes_vec()
    }
}

/// Copies a list of texts.
pub fn duplicate_texts(texts: &Vec<String>) -> (copy: Vec<String>)
    ensures
        copy.deep_view() == texts.deep_view(),
{
    let mut copy: Vec<String> = Vec::new();
    let mut i: usize = 0;
    while i < texts.len()
        invariant
            i <= texts@.len(),
            copy@.len() == i,
            forall|j: int| 0 <= j < i ==> copy@[j]@ == texts@[j]@,
        decreases texts@.len() - i,
    {
        copy.push(texts[i].clone());
        i += 1;
    }
    assert(copy.deep_view() =~= texts.deep_view());
    copy
}

/// Copies a run of bytes.
pub fn duplicate_bytes(bytes: &Vec<u8>) -> (copy: Vec<u8>)
    ensures
        copy@ == bytes@,
{
    let mut copy: Vec<u8> = Vec::new();
    crate::bytes::append_bytes(&mut copy, bytes.as_slice());
    copy
}

} // verus!
