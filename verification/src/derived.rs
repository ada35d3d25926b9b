//! Pure functions computing derived facts from extracted header data:
//! the sender's domain and attachment presence/count.

use vstd::prelude::*;
use crate::headers::{FieldModel, HeaderMap, lookup_or_na, na_text};
use crate::textutil::{
    count_matches, lemma_suffix_after_last_at, lemma_trim_preserves_count, suffix_after_last,
    trim, trimmed,
};

verus! {

/// The fixed fallback when no domain can be extracted from `From`.
pub open spec fn domain_fallback_text() -> Seq<char> {
    "Not able to extract domain"@
}

/// `s` with a single trailing `'>'` removed, if there is one.
pub open spec fn strip_one_trailing_gt(s: Seq<char>) -> Seq<char> {
    if s.len() > 0 && s.last() == '>' {
        s.drop_last()
    } else {
        s
    }
}

/// The sender domain derived from a raw `From` value: trim whitespace;
/// if exactly one `'@'` remains, the part after it with a single
/// trailing `'>'` stripped (this handles the `Name <user@domain>`
/// display form); otherwise the fixed fallback text. No further
/// address-grammar validation is performed.
pub open spec fn sender_domain_of(from: Seq<char>) -> Seq<char> {
    let t = trim(from);
    if count_matches(t, '@') == 1 {
        strip_one_trailing_gt(suffix_after_last(t, '@'))
    } else {
        domain_fallback_text()
    }
}

/// Characterization of the derived domain over the raw (untrimmed)
/// `From` value: with exactly one `'@'` anywhere in it, the result is
/// the substring after that `'@'` of the trimmed value, with a single
/// trailing `'>'` stripped if present; with zero or two-or-more
/// `'@'` occurrences, the result is exactly the fallback text.
pub proof fn lemma_sender_domain_characterization(from: Seq<char>)
    ensures
        count_matches(from, '@') == 1 ==> sender_domain_of(from)
            == strip_one_trailing_gt(suffix_after_last(trim(from), '@')),
        count_matches(from, '@') != 1 ==> sender_domain_of(from) == domain_fallback_text(),
{
    lemma_trim_preserves_count(from, '@');
}

/// Derives the sender domain from a raw `From` value.
pub fn domain_of(from: &str) -> (r: String)
    ensures
        r@ == sender_domain_of(from@),
{
    let t: String = trimmed(from);
    let n: usize = t.as_str().unicode_len();
    let mut i: usize = 0;
    let mut cnt: usize = 0;
    let mut last_at: usize = 0;
    proof {
        assert(t@.take(0) =~= Seq::<char>::empty());
    }
    while i < n
        invariant
            i <= n,
            n == t@.len(),
            cnt <= i,
            cnt as nat == count_matches(t@.take(i as int), '@'),
            cnt > 0 ==> (last_at < i && t@[last_at as int] == '@'
                && (forall|j: int| last_at < j < i ==> t@[j] != '@')),
        decreases n - i,
    {
        let c = t.as_str().get_char(i);
        proof {
            assert(t@.take(i as int + 1).drop_last() =~= t@.take(i as int));
        }
        if c == '@' {
            cnt = cnt + 1;
            last_at = i;
        }
        i += 1;
    }
    proof {
        assert(t@.take(n as int) =~= t@);
    }
    if cnt != 1 {
        return "Not able to extract domain".to_owned();
    }
    proof {
        lemma_suffix_after_last_at(t@, '@', last_at as int);
    }
    let start: usize = last_at + 1;
    let mut end: usize = n;
    if end > start {
        let last_char = t.as_str().get_char(end - 1);
        if last_char == '>' {
            end = end - 1;
        }
    }
    let piece = t.as_str().substring_char(start, end);
    proof {
        assert(t@.skip(start as int) =~= t@.subrange(start as int, n as int));
        if n > start && t@[n as int - 1] == '>' {
            assert(t@.skip(start as int).drop_last()
                =~= t@.subrange(start as int, n as int - 1));
        }
    }
    piece.to_owned()
}

/// Derives the sender domain from the `From` header of a message
/// (reading `"NA"` when the header is absent).
pub fn sender_domain(headers: &HeaderMap) -> (r: String)
    ensures
        r@ == sender_domain_of(lookup_or_na(headers@, "From"@)),
{
    let from = headers.get("From");
    domain_of(from.as_str())
}

/// A body part counts as an attachment exactly when its
/// `Content-Disposition` lookup is not the `"NA"` sentinel; the
/// field's actual value is not inspected.
pub open spec fn is_attachment_entry(part: Seq<FieldModel>) -> bool {
    lookup_or_na(part, "Content-Disposition"@) != na_text()
}

/// The number of per-part header maps that count as attachments.
pub open spec fn attachment_count(parts: Seq<Seq<FieldModel>>) -> nat
    decreases parts.len(),
{
    if parts.len() == 0 {
        0
    } else {
        attachment_count(parts.drop_last())
            + (if is_attachment_entry(parts.last()) { 1nat } else { 0nat })
    }
}

/// The attachment count is exactly the number of per-part header maps
/// whose `Content-Disposition` lookup is not the `"NA"` sentinel.
pub proof fn lemma_attachment_count_is_filter(parts: Seq<Seq<FieldModel>>)
    ensures
        attachment_count(parts)
            == parts.filter(|part: Seq<FieldModel>| is_attachment_entry(part)).len(),
    decreases parts.len(),
{
    reveal(Seq::filter);
    if parts.len() > 0 {
        lemma_attachment_count_is_filter(parts.drop_last());
    }
}

/// Returns `(has_any, count)` over the per-part header maps: `count`
/// is exactly the number of parts whose `Content-Disposition` lookup
/// is not `"NA"`, and `has_any` holds exactly when that number is
/// nonzero.
pub fn attachment_summary(part_headers: &Vec<HeaderMap>) -> (r: (bool, usize))
    ensures
        r.1 as nat == attachment_count(part_headers.deep_view()),
        r.0 == (attachment_count(part_headers.deep_view()) != 0),
{
    let ghost dv = part_headers.deep_view();
    let mut count: usize = 0;
    let mut i: usize = 0;
    proof {
        assert(dv.take(0) =~= Seq::<Seq<FieldModel>>::empty());
        assert(attachment_count(dv.take(0)) == 0);
    }
    while i < part_headers.len()
        invariant
            i <= part_headers.len(),
            count <= i,
            dv == part_headers.deep_view(),
            dv.len() == part_headers@.len(),
            count as nat == attachment_count(dv.take(i as int)),
        decreases part_headers.len() - i,
    {
        let disposition = part_headers[i].get("Content-Disposition");
        let na: String = "NA".to_owned();
        proof {
            assert(dv[i as int] == part_headers@[i as int]@);
            assert(dv.take(i as int + 1).drop_last() =~= dv.take(i as int));
            assert(dv.take(i as int + 1).last() == dv[i as int]);
        }
        if disposition != na {
            count = count + 1;
        }
        i += 1;
    }
    proof {
        assert(dv.take(part_headers@.len() as int) =~= dv);
    }
    (count > 0, count)
}

} // verus!
