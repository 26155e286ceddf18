//! Properties that hold across the library's functions and inputs.

use vstd::prelude::*;
use crate::display::{ellipsis, short_title};
use crate::audit::permissions_in_pool;
use crate::kit::recovery_kit_html;
use crate::options::{document_type_named, DocumentType};
use crate::text::{decimal, digit_char, first_line, has_infix, has_prefix, head_line, occurs_at, strip_prefixes};

verus! {

/// A listed title never runs over 30 characters, and shortening an already
/// shortened title leaves it as it is.
pub proof fn law_short_title_fits(t: Seq<char>)
    ensures
        short_title(t).len() <= 30,
        short_title(short_title(t)) == short_title(t),
{
    if t.len() > 30 {
        assert(ellipsis().len() == 3);
        assert(short_title(t).len() == 30);
    }
}

/// The items a listing shows and the items it reports as left out add up
/// to all the items.
pub proof fn law_listing_accounts_for_all(total: nat, limit: nat)
    ensures
        (if total > limit { limit } else { total }) + (if total > limit { (total - limit) as nat } else { 0nat }) == total,
{
}

proof fn lemma_head_line_no_line_feed(s: Seq<char>)
    ensures
        forall|j: int| 0 <= j < head_line(s).len() ==> head_line(s)[j] != '\n',
        head_line(s).len() <= s.len(),
    decreases s.len(),
{
    if s.len() > 0 && s[0] != '\n' {
        lemma_head_line_no_line_feed(s.drop_first());
        let h = head_line(s);
        let t = head_line(s.drop_first());
        assert(h == seq![s[0]] + t);
        assert forall|j: int| 0 <= j < h.len() implies h[j] != '\n' by {
            if j > 0 {
                assert(h[j] == t[j - 1]);
            }
        }
    }
}

/// The first line of a text never holds a line feed, and is no longer
/// than the text.
pub proof fn law_first_line_is_one_line(s: Seq<char>)
    ensures
        first_line(s) matches Some(l) ==> l.len() <= s.len() && forall|j: int| 0 <= j < l.len() ==> l[j] != '\n',
{
    lemma_head_line_no_line_feed(s);
    if s.len() > 0 {
        let h = head_line(s);
        if h.len() < s.len() && h.len() > 0 && h.last() == '\r' {
            let l = h.drop_last();
            assert forall|j: int| 0 <= j < l.len() implies l[j] != '\n' by {
                assert(l[j] == h[j]);
            }
        }
    }
}

/// Stripping every leading copy of a non-empty prefix leaves a text that
/// no longer starts with it.
pub proof fn law_strip_prefixes_is_complete(s: Seq<char>, p: Seq<char>)
    requires
        p.len() > 0,
    ensures
        !has_prefix(strip_prefixes(s, p), p),
    decreases s.len(),
{
    if has_prefix(s, p) {
        law_strip_prefixes_is_complete(s.subrange(p.len() as int, s.len() as int), p);
    }
}

/// Decimal notation uses digits only and has no leading zero.
pub proof fn law_decimal_is_canonical(n: nat)
    ensures
        decimal(n).len() >= 1,
        forall|i: int| 0 <= i < decimal(n).len() ==> '0' <= #[trigger] decimal(n)[i] && decimal(n)[i] <= '9',
        n > 0 ==> decimal(n)[0] != '0',
    decreases n,
{
    if n < 10 {
        assert(decimal(n) == seq![digit_char(n)]);
    } else {
        law_decimal_is_canonical(n / 10);
        let d = decimal(n);
        let h = decimal(n / 10);
        assert(d == h.push(digit_char(n % 10)));
        assert forall|i: int| 0 <= i < d.len() implies '0' <= #[trigger] d[i] && d[i] <= '9' by {
            if i < h.len() {
                assert(d[i] == h[i]);
            }
        }
        assert(d[0] == h[0]);
    }
}

/// The recovery kit page holds the public key and the secret key it was
/// written for.
pub proof fn law_recovery_kit_holds_keys(now: Seq<char>, public: Seq<char>, secret: Seq<char>)
    ensures
        has_infix(recovery_kit_html(now, public, secret), public),
        has_infix(recovery_kit_html(now, public, secret), secret),
{
    let page = recovery_kit_html(now, public, secret);
    let head = crate::kit::KIT_HEAD@ + now + crate::kit::KIT_PUBLIC@;
    let mid = head + public + crate::kit::KIT_SECRET@;
    assert(page =~= head + public + (crate::kit::KIT_SECRET@ + secret + crate::kit::KIT_COMMAND@ + secret + crate::kit::KIT_TAIL@));
    assert(page.subrange(head.len() as int, (head.len() + public.len()) as int) =~= public);
    assert(occurs_at(page, public, head.len() as int));
    assert(page =~= mid + secret + (crate::kit::KIT_COMMAND@ + secret + crate::kit::KIT_TAIL@));
    assert(page.subrange(mid.len() as int, (mid.len() + secret.len()) as int) =~= secret);
    assert(occurs_at(page, secret, mid.len() as int));
}

/// A document kind keyword that names no kind selects text and code, as
/// the keyword `text` does.
pub proof fn law_unknown_document_keyword_is_text(l: Seq<char>)
    requires
        l != "pdf"@, l != "spreadsheet"@, l != "sheet"@, l != "excel"@, l != "csv"@,
        l != "word"@, l != "docx"@, l != "doc"@,
        l != "presentation"@, l != "ppt"@, l != "pptx"@,
        l != "ebook"@, l != "epub"@,
    ensures
        document_type_named(l) == DocumentType::TextOrCode,
        document_type_named(l) == document_type_named("text"@),
{
    reveal_strlit("text");
    reveal_strlit("pdf");
    reveal_strlit("spreadsheet");
    reveal_strlit("sheet");
    reveal_strlit("excel");
    reveal_strlit("csv");
    reveal_strlit("word");
    reveal_strlit("docx");
    reveal_strlit("doc");
    reveal_strlit("presentation");
    reveal_strlit("ppt");
    reveal_strlit("pptx");
    reveal_strlit("ebook");
    reveal_strlit("epub");
    let t = "text"@;
    assert(t.len() == 4);
    assert(t != "pdf"@ && t != "spreadsheet"@ && t != "sheet"@ && t != "excel"@ && t != "csv"@ && t != "doc"@);
    assert(t != "presentation"@ && t != "ppt"@ && t != "ebook"@);
    assert(t[0] != "word"@[0] && t[0] != "docx"@[0] && t[0] != "pptx"@[0] && t[0] != "epub"@[0]);
}

proof fn lemma_permissions_are_filter(pool: Seq<Seq<char>>)
    ensures
        permissions_in_pool(pool) == pool.filter(|s: Seq<char>| has_prefix(s, "android.permission."@)),
    decreases pool.len(),
{
    reveal(Seq::filter);
    if pool.len() > 0 {
        lemma_permissions_are_filter(pool.drop_last());
    }
}

/// An audit lists as requested permissions exactly the strings of the APK's
/// string pool that begin with `android.permission.`, in pool order: each
/// listed permission begins with that prefix, each pool string with the
/// prefix is listed, and nothing is listed that is not in the pool.
pub proof fn law_audit_lists_exactly_permissions(pool: Seq<Seq<char>>)
    ensures
        permissions_in_pool(pool) == pool.filter(|s: Seq<char>| has_prefix(s, "android.permission."@)),
        forall|i: int| 0 <= i < permissions_in_pool(pool).len()
            ==> has_prefix(#[trigger] permissions_in_pool(pool)[i], "android.permission."@),
        forall|j: int| 0 <= j < pool.len() && has_prefix(pool[j], "android.permission."@)
            ==> permissions_in_pool(pool).contains(#[trigger] pool[j]),
        forall|i: int| 0 <= i < permissions_in_pool(pool).len()
            ==> pool.contains(#[trigger] permissions_in_pool(pool)[i]),
{
    let pred = |s: Seq<char>| has_prefix(s, "android.permission."@);
    lemma_permissions_are_filter(pool);
    pool.filter_lemma(pred);
    let f = pool.filter(pred);
    assert forall|i: int| 0 <= i < f.len() implies pool.contains(#[trigger] f[i]) by {
        pool.lemma_filter_contains_rev(pred, f[i]);
    }
}

} // verus!
