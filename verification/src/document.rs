//! Documents and the stripping of transient fields.
//!
//! The remote engine decorates every matched record with fields that exist
//! only for ranking and pagination (the sort key and the relevance score).
//! Those fields are not part of the record's persistent content and must not
//! appear on the output stream.

use vstd::prelude::*;

verus! {

/// One matched record: the ordered top-level fields of a structured object.
/// Field values are opaque; the engine reads only the keys.
pub struct Document {
    pub fields: Vec<(String, serde_json::Value)>,
}

/// Whether a key names a transient field added by the query engine.
pub open spec fn is_transient_key(k: Seq<char>) -> bool {
    k == "sort"@ || k == "_score"@
}

/// The fields that survive stripping, in their original order: exactly those
/// whose key is not a transient key.
pub open spec fn stripped_fields(s: Seq<(String, serde_json::Value)>) -> Seq<(String, serde_json::Value)>
    decreases s.len(),
{
    if s.len() == 0 {
        Seq::empty()
    } else if is_transient_key(s.last().0@) {
        stripped_fields(s.drop_last())
    } else {
        stripped_fields(s.drop_last()).push(s.last())
    }
}

/// Stripping keeps exactly the fields whose key is not transient, in their
/// original order: no stripped field carries a transient key, at most as many
/// fields come out as went in, and a document with no transient key is
/// unchanged.
pub proof fn lemma_stripped_fields(s: Seq<(String, serde_json::Value)>)
    ensures
        forall|i: int|
            0 <= i < stripped_fields(s).len() ==> !is_transient_key(
                #[trigger] stripped_fields(s)[i].0@,
            ),
        stripped_fields(s) == s.filter(
            |f: (String, serde_json::Value)| !is_transient_key(f.0@),
        ),
        stripped_fields(s).len() <= s.len(),
        (forall|i: int| 0 <= i < s.len() ==> !is_transient_key(#[trigger] s[i].0@))
            ==> stripped_fields(s) == s,
    decreases s.len(),
{
    reveal(Seq::filter);
    if s.len() == 0 {
        assert(s =~= Seq::<(String, serde_json::Value)>::empty());
    } else {
        lemma_stripped_fields(s.drop_last());
        if forall|i: int| 0 <= i < s.len() ==> !is_transient_key(#[trigger] s[i].0@) {
            assert(forall|i: int|
                0 <= i < s.drop_last().len() ==> !is_transient_key(
                    #[trigger] s.drop_last()[i].0@,
                ));
            assert(stripped_fields(s.drop_last()).push(s.last()) =~= s);
        }
    }
}

impl Document {
    /// Whether this document carries no transient field.
    pub open spec fn clean(self) -> bool {
        forall|i: int|
            0 <= i < self.fields@.len() ==> !is_transient_key(#[trigger] self.fields@[i].0@)
    }

    /// Removes exactly the transient pagination fields — the sort key and the
    /// relevance score, when present; their absence is not an error — and
    /// keeps every other field in order.
    pub fn strip_transient(self) -> (r: Document)
        ensures
            r.fields@ == stripped_fields(self.fields@),
            r.clean(),
    {
        let sort_key: String = "sort".to_owned();
        let score_key: String = "_score".to_owned();
        let mut rest = self.fields;
        let ghost orig = rest@;
        let mut kept: Vec<(String, serde_json::Value)> = Vec::new();
        let ghost mut i: int = 0;
        while rest.len() > 0
            invariant
                0 <= i <= orig.len(),
                rest@ =~= orig.skip(i),
                kept@ == stripped_fields(orig.take(i)),
                sort_key@ == "sort"@,
                score_key@ == "_score"@,
            decreases rest.len(),
        {
            let pair = rest.remove(0);
            proof {
                assert(pair == orig[i]);
                assert(orig.take(i + 1).drop_last() =~= orig.take(i));
                assert(orig.take(i + 1).last() == orig[i]);
            }
            let transient = pair.0 == sort_key || pair.0 == score_key;
            if !transient {
                kept.push(pair);
            }
            proof {
                i = i + 1;
            }
        }
        proof {
            assert(orig.take(i) =~= orig);
            lemma_stripped_fields(orig);
        }
        Document { fields: kept }
    }
}

} // verus!
