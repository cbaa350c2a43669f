//! The uniform serialization capability: every element type states its exact
//! XML form as a sequence of characters and produces that text, or its UTF-8
//! bytes, on demand.

use vstd::prelude::*;

verus! {

/// An element that serializes to XML.
///
/// `xml_text` is the element's XML form; `build_text` and `build` produce
/// exactly that text, respectively its UTF-8 encoding, so serialization is a
/// pure function of the element's value.
pub trait BuildXML {
    /// The element's XML form.
    spec fn xml_text(&self) -> Seq<char>;

    /// Serialize to a string holding exactly `xml_text`.
    fn build_text(&self) -> (r: String)
        ensures
            r@ == self.xml_text(),
    ;

    /// Serialize to bytes: the UTF-8 encoding of `xml_text`.
    fn build(&self) -> (r: Vec<u8>)
        ensures
            r@ == vstd::utf8::encode_utf8(self.xml_text()),
    {
        let t = self.build_text();
        vstd::slice::slice_to_vec(t.as_str().as_bytes())
    }
}

/// The concatenated XML text of a sequence of elements, in order.
pub open spec fn seq_text<T: BuildXML>(s: Seq<T>) -> Seq<char>
    decreases s.len(),
{
    if s.len() == 0 {
        Seq::empty()
    } else {
        s[0].xml_text() + seq_text(s.drop_first())
    }
}

/// Concatenated element text distributes over concatenation of sequences.
pub proof fn lemma_seq_text_concat<T: BuildXML>(a: Seq<T>, b: Seq<T>)
    ensures
        seq_text(a + b) == seq_text(a) + seq_text(b),
    decreases a.len(),
{
    if a.len() == 0 {
        assert(a + b =~= b);
        assert(seq_text(a) + seq_text(b) =~= seq_text(b));
    } else {
        assert((a + b).drop_first() =~= a.drop_first() + b);
        assert((a + b)[0] == a[0]);
        lemma_seq_text_concat(a.drop_first(), b);
        assert(seq_text(a + b) =~= seq_text(a) + seq_text(b));
    }
}

/// The concatenated text of a sequence of elements splits around any one
/// element: what comes before it, its own text, what comes after it.
pub proof fn lemma_seq_text_split<T: BuildXML>(s: Seq<T>, k: int)
    requires
        0 <= k < s.len(),
    ensures
        seq_text(s) == seq_text(s.take(k)) + s[k].xml_text() + seq_text(s.skip(k + 1)),
{
    assert(s =~= s.take(k) + s.skip(k));
    lemma_seq_text_concat(s.take(k), s.skip(k));
    assert(s.skip(k) =~= seq![s[k]] + s.skip(k + 1));
    lemma_seq_text_concat(seq![s[k]], s.skip(k + 1));
    assert(seq![s[k]].drop_first() =~= Seq::<T>::empty());
    assert(seq_text(seq![s[k]]) =~= s[k].xml_text() + seq_text(Seq::<T>::empty()));
    assert(seq_text(s) =~= seq_text(s.take(k)) + s[k].xml_text() + seq_text(s.skip(k + 1)));
}

/// Serialization has no hidden state: any two serializations of the same
/// element tree are byte-identical.
pub proof fn lemma_build_repeatable<T: BuildXML>(e: &T, b1: Seq<u8>, b2: Seq<u8>)
    requires
        b1 == vstd::utf8::encode_utf8(e.xml_text()),
        b2 == vstd::utf8::encode_utf8(e.xml_text()),
    ensures
        b1 == b2,
{
}

} // verus!
