//! The per-item filter: an item is shown when the lowercased buffer text
//! occurs in the lowercased item text.

use vstd::prelude::*;

verus! {

/// The lowercase form of a string, as `str::to_lowercase` computes it.
pub uninterp spec fn lower_of(s: Seq<char>) -> Seq<char>;

/// Relies on `str::to_lowercase`: its result depends on the characters of
/// the input alone, so it is named by `lower_of`.
#[verifier::external_body]
pub(crate) fn lower_chars(s: &str) -> (r: Vec<char>)
    ensures
        r@ == lower_of(s@),
{
    s.to_lowercase().chars().collect()
}

/// `needle` occurs in `hay` starting at offset `k`.
pub open spec fn substring_at(hay: Seq<char>, needle: Seq<char>, k: int) -> bool {
    0 <= k && k + needle.len() <= hay.len() && hay.subrange(k, k + needle.len()) == needle
}

/// `needle` occurs somewhere in `hay`.
pub open spec fn is_substring(needle: Seq<char>, hay: Seq<char>) -> bool {
    exists|k: int| substring_at(hay, needle, k)
}

/// `needle` occurs in `hay` at offset `k` exactly when every character of
/// `needle` matches the one `k` further into `hay`.
fn match_at(hay: &Vec<char>, needle: &Vec<char>, k: usize) -> (r: bool)
    requires
        k + needle@.len() <= hay@.len(),
    ensures
        r == substring_at(hay@, needle@, k as int),
{
    let hay_len: usize = hay.len();
    let mut j: usize = 0;
    while j < needle.len()
        invariant
            j <= needle@.len(),
            k + needle@.len() <= hay@.len(),
            hay_len == hay@.len(),
            forall|t: int| 0 <= t < j ==> hay@[k + t] == needle@[t],
        decreases needle@.len() - j,
    {
        if hay[k + j] != needle[j] {
            assert(!substring_at(hay@, needle@, k as int)) by {
                if substring_at(hay@, needle@, k as int) {
                    assert(hay@.subrange(k as int, k + needle@.len())[j as int] == hay@[k + j]);
                }
            }
            return false;
        }
        j = j + 1;
    }
    assert(hay@.subrange(k as int, k + needle@.len()) =~= needle@);
    true
}

/// Whether `needle` occurs in `hay`, by trying every offset in order.
pub fn contains_chars(hay: &Vec<char>, needle: &Vec<char>) -> (r: bool)
    ensures
        r == is_substring(needle@, hay@),
{
    if needle.len() > hay.len() {
        assert(!is_substring(needle@, hay@)) by {
            if is_substring(needle@, hay@) {
                let k = choose|k: int| substring_at(hay@, needle@, k);
            }
        }
        return false;
    }
    let end: usize = hay.len() - needle.len();
    let mut k: usize = 0;
    while k < end
        invariant
            needle@.len() <= hay@.len(),
            end == hay@.len() - needle@.len(),
            k <= end,
            forall|t: int| 0 <= t < k ==> !substring_at(hay@, needle@, t),
        decreases end - k,
    {
        if match_at(hay, needle, k) {
            assert(is_substring(needle@, hay@));
            return true;
        }
        k = k + 1;
    }
    if match_at(hay, needle, end) {
        assert(is_substring(needle@, hay@));
        return true;
    }
    assert(!is_substring(needle@, hay@)) by {
        if is_substring(needle@, hay@) {
            let t = choose|t: int| substring_at(hay@, needle@, t);
            assert(0 <= t <= end);
        }
    }
    false
}

/// An item with text `item` is shown for buffer text `buf`: always, unless
/// filtering is on, the buffer is non-empty, and the lowercased buffer does
/// not occur in the lowercased item text.
pub open spec fn passes(filter_by_input: bool, buf: Seq<char>, item: Seq<char>) -> bool {
    !filter_by_input || buf.len() == 0 || is_substring(lower_of(buf), lower_of(item))
}

/// The per-item filter decision of the control.
pub fn passes_filter(filter_by_input: bool, buf: &str, item: &str) -> (r: bool)
    ensures
        r == passes(filter_by_input, buf@, item@),
{
    if !filter_by_input {
        return true;
    }
    if buf.is_empty() {
        return true;
    }
    let needle = lower_chars(buf);
    let hay = lower_chars(item);
    contains_chars(&hay, &needle)
}

} // verus!
