use vstd::prelude::*;

use crate::attribute::{
    decodes, display_of, get_str_from_attribute, utf8_text, AttributeValue, DecodeError,
};

verus! {

/// A stored record: attribute names with their values, each name once.
pub type Record = Vec<(String, AttributeValue)>;

/// A record read as text: attribute names with the text of their values.
pub type NormalizedRecord = Vec<(String, String)>;

/// Whether every value of the entries can be read as text.
pub open spec fn all_decode(entries: Seq<(String, AttributeValue)>) -> bool {
    forall|i: int| 0 <= i < entries.len() ==> decodes(#[trigger] entries[i].1)
}

/// The text record that entries read as, in their order: each entry whose
/// value reads as some text gives its name with that text, and the others are
/// dropped.
pub open spec fn normalized(entries: Seq<(String, AttributeValue)>) -> Seq<(Seq<char>, Seq<char>)>
    decreases entries.len(),
{
    if entries.len() == 0 {
        Seq::empty()
    } else {
        let rest = normalized(entries.drop_last());
        let (name, value) = entries.last();
        match display_of(value) {
            Some(t) => rest.push((name@, t)),
            None => rest,
        }
    }
}

/// A text record as pairs of texts.
pub open spec fn pairs_view(rec: Seq<(String, String)>) -> Seq<(Seq<char>, Seq<char>)> {
    rec.map_values(|p: (String, String)| (p.0@, p.1@))
}

/// The names of a stored record's entries.
pub open spec fn names(entries: Seq<(String, AttributeValue)>) -> Seq<Seq<char>> {
    entries.map_values(|p: (String, AttributeValue)| p.0@)
}

/// Every name of a normalized record is a name of the entries it came from.
pub proof fn lemma_normalized_names(entries: Seq<(String, AttributeValue)>)
    ensures
        forall|j: int|
            0 <= j < normalized(entries).len() ==> names(entries).contains(
                #[trigger] normalized(entries)[j].0,
            ),
    decreases entries.len(),
{
    if entries.len() > 0 {
        let init = entries.drop_last();
        lemma_normalized_names(init);
        assert forall|j: int| 0 <= j < normalized(entries).len() implies names(entries).contains(
            #[trigger] normalized(entries)[j].0,
        ) by {
            if j < normalized(init).len() {
                let k = choose|k: int| 0 <= k < names(init).len() && names(init)[k] == normalized(init)[j].0;
                assert(names(entries)[k] == names(init)[k]);
            } else {
                assert(names(entries)[entries.len() - 1] == normalized(entries)[j].0);
            }
        }
    }
}

/// The names of a text record.
pub open spec fn text_names(rec: Seq<(Seq<char>, Seq<char>)>) -> Seq<Seq<char>> {
    rec.map_values(|p: (Seq<char>, Seq<char>)| p.0)
}

/// Entries with distinct names normalize to a text record with distinct names.
pub proof fn lemma_normalized_unique(entries: Seq<(String, AttributeValue)>)
    requires
        names(entries).no_duplicates(),
    ensures
        text_names(normalized(entries)).no_duplicates(),
    decreases entries.len(),
{
    if entries.len() > 0 {
        let init = entries.drop_last();
        assert(names(init) =~= names(entries).drop_last());
        assert(names(init).no_duplicates());
        lemma_normalized_unique(init);
        lemma_normalized_names(init);
        let last = entries.last();
        if display_of(last.1) is Some {
            let rest = normalized(init);
            let all = normalized(entries);
            assert(text_names(all) =~= text_names(rest).push(last.0@));
            assert forall|a: int, b: int|
                0 <= a < text_names(all).len() && 0 <= b < text_names(all).len() && a != b
                implies text_names(all)[a] != text_names(all)[b] by {
                if a < rest.len() && b < rest.len() {
                } else if a < rest.len() {
                    let k = choose|k: int| 0 <= k < names(init).len() && names(init)[k] == rest[a].0;
                    assert(names(entries)[k] == names(init)[k]);
                    assert(names(entries)[entries.len() - 1] == last.0@);
                } else if b < rest.len() {
                    let k = choose|k: int| 0 <= k < names(init).len() && names(init)[k] == rest[b].0;
                    assert(names(entries)[k] == names(init)[k]);
                    assert(names(entries)[entries.len() - 1] == last.0@);
                }
            }
        }
    }
}

/// Reads every value of a record as text and keeps the entries that read as
/// some text, in their order; a value that reads as nothing drops its entry.
///
/// A binary payload that is not well-formed UTF-8 anywhere in the record fails
/// the whole record, with no partial result.
pub fn normalize_record(rec: &Record) -> (r: Result<NormalizedRecord, DecodeError>)
    ensures
        r is Ok <==> all_decode(rec@),
        // one binary payload that is not well-formed UTF-8 fails the whole record
        (exists|i: int|
            0 <= i < rec@.len() && (#[trigger] rec@[i]).1.b is Some && utf8_text(
                rec@[i].1.b->Some_0@,
            ) is None) ==> r is Err,
        r matches Ok(out) ==> pairs_view(out@) == normalized(rec@),
        r matches Ok(out) ==> forall|j: int|
            0 <= j < out.len() ==> names(rec@).contains(#[trigger] out@[j].0@),
        // distinct names stay distinct
        names(rec@).no_duplicates() ==> (r matches Ok(out) ==> text_names(
            pairs_view(out@),
        ).no_duplicates()),
{
    let mut out: NormalizedRecord = Vec::new();
    let mut i: usize = 0;
    while i < rec.len()
        invariant
            i <= rec.len(),
            all_decode(rec@.subrange(0, i as int)),
            pairs_view(out@) == normalized(rec@.subrange(0, i as int)),
        decreases rec.len() - i,
    {
        let ghost before = rec@.subrange(0, i as int);
        let ghost after = rec@.subrange(0, i + 1);
        assert(after.drop_last() == before);
        let entry = &rec[i];
        match get_str_from_attribute(&entry.1) {
            Ok(Some(t)) => {
                out.push((entry.0.clone(), t));
            },
            Ok(None) => {},
            Err(e) => {
                assert(!decodes(rec@[i as int].1));
                return Err(e);
            },
        }
        assert(pairs_view(out@) =~= normalized(after));
        i = i + 1;
    }
    assert(rec@.subrange(0, rec.len() as int) == rec@);
    proof {
        lemma_normalized_names(rec@);
        if names(rec@).no_duplicates() {
            lemma_normalized_unique(rec@);
        }
        assert forall|j: int| 0 <= j < out.len() implies names(rec@).contains(
            #[trigger] out@[j].0@,
        ) by {
            assert(pairs_view(out@)[j].0 == out@[j].0@);
        }
    }
    Ok(out)
}

} // verus!
