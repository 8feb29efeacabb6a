use vstd::prelude::*;
use crate::secret::{SecretData, metadata_of};
use crate::vault::{contains_name, index_of_name, lemma_lookup_at, lookup_name, unique_names};

verus! {

/// Law: creating a fresh secret makes it describable under that name.
///
/// Appending a record whose name is not yet present keeps the names
/// unique, makes the name present, and the lookup by that name yields
/// exactly the appended record. Its metadata bears the same name with the
/// value blanked out, so what a description hands back renders as the
/// redaction marker, never as the plaintext.
pub proof fn lemma_create_then_describe(s: Seq<SecretData>, d: SecretData)
    requires
        unique_names(s),
        !contains_name(s, d.name),
    ensures
        unique_names(s.push(d)),
        contains_name(s.push(d), d.name),
        lookup_name(s.push(d), d.name) == d,
        metadata_of(lookup_name(s.push(d), d.name)).name == d.name,
        metadata_of(lookup_name(s.push(d), d.name)).value == Seq::<char>::empty(),
{
    let t = s.push(d);
    assert forall|i: int, j: int| 0 <= i < j < t.len() implies t[i].name != t[j].name by {
        if j < s.len() {
            assert(s[i].name != s[j].name);
        } else {
            assert(t[j] == d);
            assert(t[i] == s[i]);
        }
    }
    lemma_lookup_at(t, d.name, s.len() as int);
}

/// Law: the value handed to a successful create is exactly the value a
/// decrypt of the same name returns afterwards, character for character —
/// whitespace, unicode and the empty string included, since nothing here
/// depends on what the value holds.
pub proof fn lemma_create_then_decrypt(s: Seq<SecretData>, d: SecretData)
    requires
        unique_names(s),
        !contains_name(s, d.name),
    ensures
        lookup_name(s.push(d), d.name).value == d.value,
{
    lemma_create_then_describe(s, d);
}

/// Law: creating one secret leaves every other secret untouched. Any name
/// already present is still present after the create, bound to the very
/// same record.
pub proof fn lemma_create_preserves_others(s: Seq<SecretData>, d: SecretData, other: Seq<char>)
    requires
        unique_names(s),
        !contains_name(s, d.name),
        contains_name(s, other),
        other != d.name,
    ensures
        contains_name(s.push(d), other),
        lookup_name(s.push(d), other) == lookup_name(s, other),
{
    lemma_create_then_describe(s, d);
    let j = index_of_name(s, other);
    assert(0 <= j < s.len() && s[j].name == other);
    lemma_lookup_at(s, other, j);
    lemma_lookup_at(s.push(d), other, j);
}

/// The listing a state yields: every record as metadata, in order.
pub open spec fn listing_of(s: Seq<SecretData>) -> Seq<SecretData> {
    s.map_values(|d: SecretData| metadata_of(d))
}

/// Law: a listing never shows a duplicate name. Taking metadata keeps
/// every record's name, so a uniquely-named state yields a listing whose
/// entries all bear distinct names.
pub proof fn lemma_listing_names_unique(s: Seq<SecretData>)
    requires
        unique_names(s),
    ensures
        listing_of(s).len() == s.len(),
        forall|i: int, j: int| 0 <= i < j < s.len() ==> #[trigger] listing_of(s)[i].name
            != #[trigger] listing_of(s)[j].name,
{
    let m = listing_of(s);
    assert forall|i: int, j: int| 0 <= i < j < s.len() implies m[i].name != m[j].name by {
        assert(m[i] == metadata_of(s[i]));
        assert(m[j] == metadata_of(s[j]));
        assert(s[i].name != s[j].name);
    }
}

} // verus!
