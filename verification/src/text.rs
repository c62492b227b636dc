//! Comparing text, and the views of optional and listed text.

use vstd::prelude::*;

verus! {

/// The text that is there, if any, as characters.
pub open spec fn opt_text(text: Option<String>) -> Option<Seq<char>> {
    match text {
        Some(t) => Some(t@),
        None => None,
    }
}

/// The texts of a list, as characters.
pub open spec fn string_texts(list: Seq<String>) -> Seq<Seq<char>> {
    Seq::new(list.len(), |i: int| list[i]@)
}

/// The texts of a list of slices, as characters.
pub open spec fn str_texts(list: Seq<&str>) -> Seq<Seq<char>> {
    Seq::new(list.len(), |i: int| list[i]@)
}

/// Two texts with the same bytes have the same characters.
proof fn lemma_same_bytes(a: &str, b: &str)
    ensures
        a@ == b@ <==> vstd::utf8::encode_utf8(a@) == vstd::utf8::encode_utf8(b@),
{
    vstd::utf8::encode_utf8_decode_utf8(a@);
    vstd::utf8::encode_utf8_decode_utf8(b@);
}

/// Whether two texts hold the same characters.
pub fn same_text(a: &str, b: &str) -> (same: bool)
    ensures
        same == (a@ == b@),
{
    proof {
        lemma_same_bytes(a, b);
    }
    let left = a.as_bytes();
    let right = b.as_bytes();
    if left.len() != right.len() {
        return false;
    }
    let mut i: usize = 0;
    while i < left.len()
        invariant
            i <= left@.len(),
            left@.len() == right@.len(),
            left@ == vstd::utf8::encode_utf8(a@),
            right@ == vstd::utf8::encode_utf8(b@),
            a@ == b@ <==> vstd::utf8::encode_utf8(a@) == vstd::utf8::encode_utf8(b@),
            forall|j: int| 0 <= j < i ==> left@[j] == right@[j],
        decreases left@.len() - i,
    {
        if left[i] != right[i] {
            return false;
        }
        i = i + 1;
    }
    assert(left@ =~= right@);
    true
}

/// Whether a text is one of a list of owned texts.
pub fn lists_string(list: &[String], wanted: &str) -> (found: bool)
    ensures
        found == string_texts(list@).contains(wanted@),
{
    let mut i: usize = 0;
    while i < list.len()
        invariant
            i <= list@.len(),
            forall|j: int| 0 <= j < i ==> string_texts(list@)[j] != wanted@,
        decreases list@.len() - i,
    {
        if same_text(list[i].as_str(), wanted) {
            assert(string_texts(list@)[i as int] == wanted@);
            return true;
        }
        i = i + 1;
    }
    false
}

/// Whether a text is one of a list of slices.
pub fn lists_str(list: &[&str], wanted: &str) -> (found: bool)
    ensures
        found == str_texts(list@).contains(wanted@),
{
    let mut i: usize = 0;
    while i < list.len()
        invariant
            i <= list@.len(),
            forall|j: int| 0 <= j < i ==> str_texts(list@)[j] != wanted@,
        decreases list@.len() - i,
    {
        if same_text(list[i], wanted) {
            assert(str_texts(list@)[i as int] == wanted@);
            return true;
        }
        i = i + 1;
    }
    false
}

/// A copy of the text that is there, if any.
pub fn copy_opt_text(text: &Option<String>) -> (copy: Option<String>)
    ensures
        copy == *text,
{
    match text {
        Some(t) => Some(t.clone()),
        None => None,
    }
}

/// An optional text is seen as the characters that it has, and is seen to be there exactly
/// if it is.
pub proof fn law_optional_text_is_seen(text: Option<String>)
    ensures
        match text {
            Some(t) => opt_text(text) == Some(t@),
            None => opt_text(text) is None,
        },
{
}

/// A list of texts is seen as the texts that it has, in their order.
pub proof fn law_listed_texts_are_seen(owned: Seq<String>, slices: Seq<&str>)
    ensures
        string_texts(owned).len() == owned.len(),
        forall|i: int| 0 <= i < owned.len() ==> #[trigger] string_texts(owned)[i] == owned[i]@,
        str_texts(slices).len() == slices.len(),
        forall|i: int| 0 <= i < slices.len() ==> #[trigger] str_texts(slices)[i] == slices[i]@,
{
}

/// Texts are compared by their characters, and a text is found in a list exactly if the
/// list has it.
pub proof fn law_texts_are_found(
    a: &str,
    b: &str,
    owned: &[String],
    slices: &[&str],
    same: bool,
    in_owned: bool,
    in_slices: bool,
)
    requires
        call_ensures(same_text, (a, b), same),
        call_ensures(lists_string, (owned, a), in_owned),
        call_ensures(lists_str, (slices, a), in_slices),
    ensures
        same <==> a@ == b@,
        in_owned <==> exists|i: int| 0 <= i < owned@.len() && (#[trigger] owned@[i])@ == a@,
        in_slices <==> exists|i: int| 0 <= i < slices@.len() && (#[trigger] slices@[i])@ == a@,
{
    if in_owned {
        let k = choose|k: int|
            0 <= k < string_texts(owned@).len() && string_texts(owned@)[k] == a@;
        assert(owned@[k]@ == a@);
    }
    if exists|i: int| 0 <= i < owned@.len() && (#[trigger] owned@[i])@ == a@ {
        let k = choose|k: int| 0 <= k < owned@.len() && (#[trigger] owned@[k])@ == a@;
        assert(string_texts(owned@)[k] == a@);
    }
    if in_slices {
        let k = choose|k: int| 0 <= k < str_texts(slices@).len() && str_texts(slices@)[k] == a@;
        assert(slices@[k]@ == a@);
    }
    if exists|i: int| 0 <= i < slices@.len() && (#[trigger] slices@[i])@ == a@ {
        let k = choose|k: int| 0 <= k < slices@.len() && (#[trigger] slices@[k])@ == a@;
        assert(str_texts(slices@)[k] == a@);
    }
}

} // verus!
