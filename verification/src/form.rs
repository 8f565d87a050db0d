//! Form-encoded text (`application/x-www-form-urlencoded`) as lists of
//! pairs. The encoding itself is the work of `serde_urlencoded`.

use vstd::prelude::*;

verus! {

/// The text that `serde_urlencoded` writes for a list of pairs; none where
/// it fails.
pub uninterp spec fn form_text(pairs: Seq<(Seq<char>, Seq<char>)>) -> Option<Seq<char>>;

/// The pairs that `serde_urlencoded` reads from a text; none where it
/// refuses the text.
pub uninterp spec fn form_pairs(text: Seq<char>) -> Option<Vec<(String, String)>>;

/// `serde_urlencoded::to_string` on a list of pairs of texts. Claims only
/// that the outcome is a function of the pairs: the text written is
/// `form_text` of them, and an error means there is none.
#[verifier::external_body]
pub(crate) fn pairs_to_string(pairs: &Vec<(String, String)>) -> (r: Option<String>)
    ensures
        match r {
            Some(written) => form_text(pairs.deep_view()) == Some(written@),
            None => form_text(pairs.deep_view()) is None,
        },
{
    serde_urlencoded::to_string(pairs).ok()
}

/// `serde_urlencoded::from_str` at a list of pairs of texts. Claims only
/// that the outcome is a function of the text: the pairs read are
/// `form_pairs` of it, and an error means there are none.
#[verifier::external_body]
pub(crate) fn pairs_from_str(text: &str) -> (r: Option<Vec<(String, String)>>)
    ensures
        r == form_pairs(text@),
{
    serde_urlencoded::from_str::<Vec<(String, String)>>(text).ok()
}

/// The value of the first pair under `key`, if there is one.
pub open spec fn find_pair(pairs: Seq<(String, String)>, key: Seq<char>) -> Option<String>
    decreases pairs.len(),
{
    if pairs.len() == 0 {
        None
    } else if pairs[0].0@ == key {
        Some(pairs[0].1)
    } else {
        find_pair(pairs.skip(1), key)
    }
}

/// A copy of the value of the first pair under `key`.
pub fn pair_value(pairs: &Vec<(String, String)>, key: &str) -> (r: Option<String>)
    ensures
        r == find_pair(pairs@, key@),
{
    let wanted = crate::json::text(key);
    let mut i: usize = 0;
    assert(pairs@.skip(0) =~= pairs@);
    while i < pairs.len()
        invariant
            i <= pairs@.len(),
            wanted@ == key@,
            find_pair(pairs@, key@) == find_pair(pairs@.skip(i as int), key@),
        decreases pairs@.len() - i,
    {
        assert(pairs@.skip(i as int).len() > 0);
        assert(pairs@.skip(i as int)[0] == pairs@[i as int]);
        assert(pairs@.skip(i as int).skip(1) =~= pairs@.skip(i + 1));
        if pairs[i].0 == wanted {
            return Some(pairs[i].1.clone());
        }
        i = i + 1;
    }
    None
}

/// Writes a list of pairs as form-encoded text.
pub fn encode_form(pairs: &Vec<(String, String)>) -> (r: Option<String>)
    ensures
        match r {
            Some(written) => form_text(pairs.deep_view()) == Some(written@),
            None => form_text(pairs.deep_view()) is None,
        },
{
    pairs_to_string(pairs)
}

/// Reads form-encoded text as a list of pairs.
pub fn parse_form(text: &str) -> (r: Option<Vec<(String, String)>>)
    ensures
        r == form_pairs(text@),
{
    pairs_from_str(text)
}

} // verus!
