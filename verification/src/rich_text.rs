//! Rich text with byte-accurate link spans.
//!
//! A post body is plain UTF-8 text plus a sequence of facets: byte-offset
//! spans over the UTF-8 encoding of the text, each carrying a link feature.
//! Offsets index the byte representation, not code points, so multibyte text
//! ahead of a link must shift offsets by its byte length exactly.

use vstd::prelude::*;
use vstd::string::StrSliceExecFns;
use vstd::string::StringExecFns;
use vstd::utf8::encode_utf8;

verus! {

/// A rich feature attached to a span of the post text.
#[derive(Debug, Clone, PartialEq, Eq)]
pub enum FacetFeature {
    Link(String),
}

/// A byte-offset span over the UTF-8 encoding of the accompanying text.
#[derive(Debug, Clone, PartialEq, Eq)]
pub struct Facet {
    pub byte_start: usize,
    pub byte_end: usize,
    pub feature: FacetFeature,
}

impl Facet {
    /// The link target carried by this span.
    pub open spec fn uri(self) -> Seq<char> {
        match self.feature {
            FacetFeature::Link(u) => u@,
        }
    }
}

/// The spans lie inside `bytes` (the UTF-8 encoding of the accompanying
/// text), come in strictly increasing, non-overlapping order, and each span
/// covers exactly the UTF-8 bytes of its own link target: its width is the
/// target's byte length, the text bytes under it equal the target's bytes,
/// and it is non-empty whenever the target is. (A link with an empty target
/// leaves an empty span at the insertion point: the one case where
/// `byte_start == byte_end`.)
pub open spec fn spans_wf(facets: Seq<Facet>, bytes: Seq<u8>) -> bool {
    &&& forall|i: int|
        0 <= i < facets.len() ==> (#[trigger] facets[i]).byte_start <= facets[i].byte_end
            <= bytes.len()
    &&& forall|i: int|
        0 <= i < facets.len() ==> (#[trigger] facets[i]).byte_end - facets[i].byte_start
            == encode_utf8(facets[i].uri()).len()
    &&& forall|i: int|
        0 <= i < facets.len() ==> bytes.subrange(
            (#[trigger] facets[i]).byte_start as int,
            facets[i].byte_end as int,
        ) == encode_utf8(facets[i].uri())
    &&& forall|i: int|
        0 <= i < facets.len() ==> ((#[trigger] facets[i]).uri().len() > 0 ==> facets[i].byte_start
            < facets[i].byte_end)
    &&& forall|i: int, j: int|
        0 <= i < j < facets.len() ==> (#[trigger] facets[i]).byte_end
            <= (#[trigger] facets[j]).byte_start
}

/// A non-empty character sequence has a non-empty UTF-8 encoding.
pub proof fn lemma_encode_utf8_nonempty(s: Seq<char>)
    requires
        s.len() > 0,
    ensures
        encode_utf8(s).len() > 0,
{
    assert(encode_utf8(s) == vstd::utf8::encode_scalar(s[0] as u32) + encode_utf8(
        s.drop_first(),
    ));
    assert(vstd::utf8::encode_scalar(s[0] as u32).len() >= 1);
}

/// Accumulates plain text and link spans; `build` hands both out.
#[derive(Debug)]
pub struct RichTextBuilder {
    text: String,
    facets: Vec<Facet>,
}

/// The UTF-8 encoding of a concatenation is the concatenation of the
/// encodings; in particular, text of byte-length `k` appended ahead of a
/// link shifts the link's byte offsets by exactly `k`, whatever its
/// character count.
pub proof fn lemma_encode_utf8_concat(a: Seq<char>, b: Seq<char>)
    ensures
        encode_utf8(a + b) == encode_utf8(a) + encode_utf8(b),
    decreases a.len(),
{
    if a.len() == 0 {
        assert(a + b =~= b);
        assert(encode_utf8(a) + encode_utf8(b) =~= encode_utf8(b));
    } else {
        assert((a + b).drop_first() =~= a.drop_first() + b);
        assert((a + b)[0] == a[0]);
        lemma_encode_utf8_concat(a.drop_first(), b);
        assert(encode_utf8(a + b) =~= encode_utf8(a) + encode_utf8(b));
    }
}

impl RichTextBuilder {
    /// The text accumulated so far.
    pub closed spec fn text_model(&self) -> Seq<char> {
        self.text@
    }

    /// The spans emitted so far, in append order.
    pub closed spec fn facets_model(&self) -> Seq<Facet> {
        self.facets@
    }

    /// Length in bytes of the UTF-8 encoding of the accumulated text.
    pub open spec fn byte_len(&self) -> nat {
        encode_utf8(self.text_model()).len()
    }

    /// All spans emitted so far are valid against the accumulated text.
    pub open spec fn wf(&self) -> bool {
        spans_wf(self.facets_model(), encode_utf8(self.text_model()))
    }

    /// An empty builder: no text, no spans.
    pub fn new() -> (r: Self)
        ensures
            r.text_model() == Seq::<char>::empty(),
            r.facets_model() == Seq::<Facet>::empty(),
            r.wf(),
    {
        RichTextBuilder { text: String::new(), facets: Vec::new() }
    }

    /// Appends plain text; offsets of existing spans are untouched.
    pub fn text(self, s: &str) -> (r: Self)
        requires
            self.wf(),
        ensures
            r.text_model() == self.text_model() + s@,
            r.facets_model() == self.facets_model(),
            r.wf(),
    {
        let RichTextBuilder { mut text, facets } = self;
        proof {
            lemma_encode_utf8_concat(text@, s@);
            let oldb = encode_utf8(text@);
            let newb = encode_utf8(text@ + s@);
            assert forall|i: int| 0 <= i < facets@.len() implies newb.subrange(
                (#[trigger] facets@[i]).byte_start as int,
                facets@[i].byte_end as int,
            ) == encode_utf8(facets@[i].uri()) by {
                assert(newb.subrange(facets@[i].byte_start as int, facets@[i].byte_end as int)
                    =~= oldb.subrange(facets@[i].byte_start as int, facets@[i].byte_end as int));
            }
        }
        text.append(s);
        RichTextBuilder { text, facets }
    }

    /// Appends `url` as visible text and emits one link span over it: the
    /// span starts at the byte length of the text before the call and ends
    /// exactly the UTF-8 byte length of `url` later.
    pub fn link(self, url: &str) -> (r: Self)
        requires
            self.wf(),
        ensures
            r.text_model() == self.text_model() + url@,
            r.facets_model().len() == self.facets_model().len() + 1,
            forall|i: int|
                0 <= i < self.facets_model().len() ==> r.facets_model()[i]
                    == self.facets_model()[i],
            r.facets_model().last().byte_start as int == encode_utf8(self.text_model()).len(),
            r.facets_model().last().byte_end as int == encode_utf8(self.text_model()).len()
                + encode_utf8(url@).len(),
            r.facets_model().last().uri() == url@,
            r.wf(),
    {
        let RichTextBuilder { mut text, mut facets } = self;
        let ghost old_text = text@;
        let ghost old_facets = facets@;
        let byte_start = text.as_str().as_bytes().len();
        let uri = url.to_owned();
        proof {
            lemma_encode_utf8_concat(text@, url@);
        }
        text.append(url);
        let byte_end = text.as_str().as_bytes().len();
        facets.push(Facet { byte_start, byte_end, feature: FacetFeature::Link(uri) });
        proof {
            let oldb = encode_utf8(old_text);
            let urlb = encode_utf8(url@);
            let newb = encode_utf8(old_text + url@);
            assert forall|i: int| 0 <= i < old_facets.len() implies newb.subrange(
                (#[trigger] old_facets[i]).byte_start as int,
                old_facets[i].byte_end as int,
            ) == encode_utf8(old_facets[i].uri()) by {
                assert(newb.subrange(old_facets[i].byte_start as int, old_facets[i].byte_end as int)
                    =~= oldb.subrange(
                    old_facets[i].byte_start as int,
                    old_facets[i].byte_end as int,
                ));
            }
            assert(newb.subrange(byte_start as int, byte_end as int) =~= urlb);
            if url@.len() > 0 {
                lemma_encode_utf8_nonempty(url@);
            }
        }
        RichTextBuilder { text, facets }
    }

    /// Hands out the accumulated text and its spans.
    pub fn build(self) -> (r: (String, Vec<Facet>))
        ensures
            r.0@ == self.text_model(),
            r.1@ == self.facets_model(),
            self.wf() ==> spans_wf(r.1@, encode_utf8(r.0@)),
    {
        (self.text, self.facets)
    }
}

} // verus!
