//! Directory listings: entry names, and the order in which entries are shown.
use vstd::prelude::*;

verus! {

broadcast use vstd::seq_lib::group_seq_properties;

/// What `Path::file_name` gives for a path: its final component, if it has one.
pub uninterp spec fn file_name_of(path: Seq<char>) -> Option<Seq<char>>;

/// Relies on `std::path::Path::file_name`: the final component of the path,
/// or `None` when the path ends in `..` or is a root or empty. A component of
/// a `&str` path is valid text, so the conversion back to `String` is exact.
#[verifier::external_body]
fn file_name(path: &str) -> (r: Option<String>)
    ensures
        match r {
            Some(n) => file_name_of(path@) == Some(n@),
            None => file_name_of(path@) is None,
        },
{
    std::path::Path::new(path).file_name().map(|n| n.to_string_lossy().into_owned())
}

/// `a` comes strictly before `b` in lexicographic order of characters (the
/// order of their UTF-8 bytes).
pub open spec fn text_less(a: Seq<char>, b: Seq<char>) -> bool
    decreases a.len(),
{
    if b.len() == 0 {
        false
    } else if a.len() == 0 {
        true
    } else if a[0] != b[0] {
        (a[0] as int) < (b[0] as int)
    } else {
        text_less(a.drop_first(), b.drop_first())
    }
}

/// The view of a listing entry: its name and whether it is a directory.
pub type EntryView = (Seq<char>, bool);

pub open spec fn entry_view(e: (String, bool)) -> EntryView {
    (e.0@, e.1)
}

pub open spec fn entries_view(v: Seq<(String, bool)>) -> Seq<EntryView> {
    v.map_values(|e: (String, bool)| entry_view(e))
}

/// `a` is shown before `b`: directories come first, and within each group
/// names are in lexicographic order.
pub open spec fn entry_before(a: EntryView, b: EntryView) -> bool {
    (a.1 && !b.1) || (a.1 == b.1 && text_less(a.0, b.0))
}

/// No entry is shown after one that should follow it.
pub open spec fn listing_sorted(s: Seq<EntryView>) -> bool {
    forall|i: int, j: int| 0 <= i < j < s.len() ==> !entry_before(#[trigger] s[j], #[trigger] s[i])
}

proof fn lemma_text_less_transitive(a: Seq<char>, b: Seq<char>, c: Seq<char>)
    requires
        text_less(a, b),
        text_less(b, c),
    ensures
        text_less(a, c),
    decreases a.len(),
{
    if a.len() > 0 && b.len() > 0 && c.len() > 0 && a[0] == b[0] && b[0] == c[0] {
        lemma_text_less_transitive(a.drop_first(), b.drop_first(), c.drop_first());
    }
}

proof fn lemma_text_less_asymmetric(a: Seq<char>, b: Seq<char>)
    ensures
        !(text_less(a, b) && text_less(b, a)),
    decreases a.len(),
{
    if a.len() > 0 && b.len() > 0 && a[0] == b[0] {
        lemma_text_less_asymmetric(a.drop_first(), b.drop_first());
    }
}

proof fn lemma_entry_before_transitive(a: EntryView, b: EntryView, c: EntryView)
    requires
        entry_before(a, b),
        entry_before(b, c),
    ensures
        entry_before(a, c),
{
    if a.1 == b.1 && b.1 == c.1 {
        lemma_text_less_transitive(a.0, b.0, c.0);
    }
}

proof fn lemma_entry_before_asymmetric(a: EntryView, b: EntryView)
    ensures
        !(entry_before(a, b) && entry_before(b, a)),
{
    lemma_text_less_asymmetric(a.0, b.0);
}

/// Compares two names character by character.
pub fn text_less_exec(a: &str, b: &str) -> (r: bool)
    ensures
        r == text_less(a@, b@),
{
    let la = a.unicode_len();
    let lb = b.unicode_len();
    let mut i: usize = 0;
    while i < la && i < lb
        invariant
            la == a@.len(),
            lb == b@.len(),
            i <= la,
            i <= lb,
            text_less(a@, b@) == text_less(a@.skip(i as int), b@.skip(i as int)),
        decreases la - i,
    {
        let ca = a.get_char(i);
        let cb = b.get_char(i);
        if ca != cb {
            return (ca as u32) < (cb as u32);
        }
        assert(a@.skip(i as int).drop_first() =~= a@.skip(i + 1));
        assert(b@.skip(i as int).drop_first() =~= b@.skip(i + 1));
        i = i + 1;
    }
    i == la && i < lb
}

/// Whether entry `a` is shown before entry `b`.
fn entry_before_exec(a: &(String, bool), b: &(String, bool)) -> (r: bool)
    ensures
        r == entry_before(entry_view(*a), entry_view(*b)),
{
    if a.1 && !b.1 {
        true
    } else if a.1 == b.1 {
        text_less_exec(a.0.as_str(), b.0.as_str())
    } else {
        false
    }
}

/// Puts entries in listing order: directories first, then files, each group
/// by name.
pub fn sort_entries(entries: &Vec<(String, bool)>) -> (r: Vec<(String, bool)>)
    ensures
        listing_sorted(entries_view(r@)),
        entries_view(r@).to_multiset() == entries_view(entries@).to_multiset(),
{
    let ghost input = entries_view(entries@);
    let mut out: Vec<(String, bool)> = Vec::new();
    let mut i: usize = 0;
    while i < entries.len()
        invariant
            i <= entries@.len(),
            input == entries_view(entries@),
            listing_sorted(entries_view(out@)),
            entries_view(out@).to_multiset() == input.take(i as int).to_multiset(),
        decreases entries@.len() - i,
    {
        let e = &entries[i];
        let x = (e.0.clone(), e.1);
        let mut p: usize = 0;
        while p < out.len() && !entry_before_exec(&x, &out[p])
            invariant
                p <= out@.len(),
                forall|k: int|
                    0 <= k < p ==> !entry_before(entry_view(x), #[trigger] entries_view(out@)[k]),
            decreases out@.len() - p,
        {
            p = p + 1;
        }
        let ghost s = entries_view(out@);
        let ghost xv = entry_view(x);
        proof {
            let t = s.insert(p as int, xv);
            s.insert_ensures(p as int, xv);
            assert forall|a: int, b: int| 0 <= a < b < t.len() implies !entry_before(
                #[trigger] t[b],
                #[trigger] t[a],
            ) by {
                if a == p && b > p {
                    if entry_before(s[b - 1], xv) {
                        if b - 1 == p {
                            lemma_entry_before_asymmetric(s[p as int], xv);
                        } else {
                            lemma_entry_before_transitive(s[b - 1], xv, s[p as int]);
                        }
                    }
                }
            }
            assert(t.remove(p as int) =~= s);
            t.to_multiset_ensures();
            assert(t[p as int] == xv);
            assert(t.contains(xv));
            assert(t.to_multiset() =~= s.to_multiset().insert(xv));
            input.take(i as int).to_multiset_ensures();
            assert(input.take(i + 1) =~= input.take(i as int).push(xv));
        }
        out.insert(p, x);
        assert(entries_view(out@) =~= s.insert(p as int, xv));
        i = i + 1;
    }
    assert(input.take(i as int) =~= input);
    out
}

/// The message of a path that has no final component.
pub open spec fn unnamed_message(path: Seq<char>) -> Seq<char> {
    "File path "@ + path + " does not have a final component"@
}

/// The final component of a path, or a message saying that it has none.
pub fn name(path: &str) -> (r: Result<String, String>)
    ensures
        match r {
            Ok(n) => file_name_of(path@) == Some(n@),
            Err(e) => file_name_of(path@) is None && e@ == unnamed_message(path@),
        },
{
    match file_name(path) {
        Some(n) => Ok(n),
        None => {
            let mut message = String::from_str("File path ");
            message.append(path);
            message.append(" does not have a final component");
            Err(message)
        },
    }
}

/// Every path of the raw listing has a final component.
pub open spec fn all_named(raw: Seq<(String, bool)>) -> bool {
    forall|i: int| 0 <= i < raw.len() ==> (#[trigger] file_name_of(raw[i].0@)) is Some
}

/// The raw listing with each path replaced by its final component.
pub open spec fn named_entries(raw: Seq<(String, bool)>) -> Seq<EntryView> {
    raw.map_values(|e: (String, bool)| (file_name_of(e.0@)->Some_0, e.1))
}

/// Turns a raw directory listing, of (path, is directory) pairs, into the
/// entries to show: each path reduced to its name, directories first, then
/// files, each group in order of name. Fails on the first path without a
/// name.
pub fn sorted_names(raw: &Vec<(String, bool)>) -> (r: Result<Vec<(String, bool)>, String>)
    ensures
        match r {
            Ok(v) => all_named(raw@) && listing_sorted(entries_view(v@))
                && entries_view(v@).to_multiset() == named_entries(raw@).to_multiset(),
            Err(e) => exists|i: int|
                0 <= i < raw@.len() && (#[trigger] file_name_of(raw@[i].0@)) is None
                    && e@ == unnamed_message(raw@[i].0@),
        },
{
    let mut named: Vec<(String, bool)> = Vec::new();
    let mut i: usize = 0;
    while i < raw.len()
        invariant
            i <= raw@.len(),
            named@.len() == i,
            forall|k: int| 0 <= k < i ==> (#[trigger] file_name_of(raw@[k].0@)) is Some,
            entries_view(named@) =~= named_entries(raw@.take(i as int)),
        decreases raw@.len() - i,
    {
        let entry = &raw[i];
        match name(entry.0.as_str()) {
            Ok(n) => {
                assert(file_name_of(raw@[i as int].0@)->Some_0 == n@);
                named.push((n, entry.1));
            },
            Err(e) => {
                return Err(e);
            },
        }
        proof {
            let prev = named_entries(raw@.take(i as int));
            let cur = named_entries(raw@.take(i + 1));
            assert forall|k: int| 0 <= k < i + 1 implies #[trigger] cur[k] == entries_view(named@)[k] by {
                if k < i {
                    assert(cur[k] == prev[k]);
                }
            }
        }
        i = i + 1;
        assert(entries_view(named@) =~= named_entries(raw@.take(i as int)));
    }
    assert(raw@.take(i as int) =~= raw@);
    Ok(sort_entries(&named))
}

/// The listing shown when a directory cannot be read: one file entry whose
/// name is the error's message.
pub fn error_listing(message: String) -> (r: Vec<(String, bool)>)
    ensures
        entries_view(r@) == seq![(message@, false)],
{
    let r = vec![(message, false)];
    assert(entries_view(r@) =~= seq![(message@, false)]);
    r
}

/// `shown` is what `sorted_names` makes of `raw`: every path named, in
/// listing order, each entry once.
pub open spec fn lists(shown: Seq<EntryView>, raw: Seq<(String, bool)>) -> bool {
    &&& all_named(raw)
    &&& listing_sorted(shown)
    &&& shown.to_multiset() == named_entries(raw).to_multiset()
}

/// `message` is what `sorted_names` reports for `raw`.
pub open spec fn unnamed_in(message: Seq<char>, raw: Seq<(String, bool)>) -> bool {
    exists|i: int|
        0 <= i < raw.len() && (#[trigger] file_name_of(raw[i].0@)) is None && message
            == unnamed_message(raw[i].0@)
}

/// The entries shown for a directory read with result `raw`: its sorted
/// names, or a single entry that holds the error.
pub open spec fn shows(shown: Seq<EntryView>, raw: Result<Vec<(String, bool)>, String>) -> bool {
    match raw {
        Ok(v) => if all_named(v@) {
            lists(shown, v@)
        } else {
            exists|m: Seq<char>| unnamed_in(m, v@) && shown == seq![(m, false)]
        },
        Err(e) => shown == seq![(e@, false)],
    }
}

/// The entries to show for a directory read with result `raw`: a read or
/// naming failure becomes a single entry holding its message.
pub fn listing_or_error(raw: Result<Vec<(String, bool)>, String>) -> (r: Vec<(String, bool)>)
    ensures
        shows(entries_view(r@), raw),
{
    match raw {
        Ok(v) => match sorted_names(&v) {
            Ok(s) => s,
            Err(e) => {
                let r = error_listing(e);
                assert(unnamed_in(entries_view(r@)[0].0, v@));
                r
            },
        },
        Err(e) => error_listing(e),
    }
}

proof fn lemma_text_less_total(a: Seq<char>, b: Seq<char>)
    requires
        a != b,
    ensures
        text_less(a, b) || text_less(b, a),
    decreases a.len(),
{
    if a.len() > 0 && b.len() > 0 && a[0] == b[0] {
        if a.drop_first() == b.drop_first() {
            assert(a =~= seq![a[0]] + a.drop_first());
            assert(b =~= seq![b[0]] + b.drop_first());
        }
        lemma_text_less_total(a.drop_first(), b.drop_first());
    } else if a.len() == 0 && b.len() == 0 {
        assert(a =~= b);
    } else if a.len() > 0 && b.len() > 0 {
        assert(a[0] != b[0]);
        assert((a[0] as int) != (b[0] as int));
    }
}

/// Listing order is fixed by the entries alone: two listings in listing
/// order that hold the same entries are the same listing. So a directory
/// read twice with the same contents is shown the same way, whatever order
/// its entries were read in.
pub proof fn lemma_listing_order_unique(a: Seq<EntryView>, b: Seq<EntryView>)
    requires
        listing_sorted(a),
        listing_sorted(b),
        a.to_multiset() == b.to_multiset(),
    ensures
        a == b,
    decreases a.len(),
{
    a.to_multiset_ensures();
    b.to_multiset_ensures();
    if a.len() == 0 {
        assert(b.len() == 0);
        assert(a =~= b);
    } else {
        assert(b.len() > 0);
        let x = a[0];
        let y = b[0];
        if x != y {
            assert(b.contains(y)) by {
                assert(b[0] == y);
            }
            assert(a.to_multiset().count(y) > 0);
            assert(a.contains(y));
            let i = choose|i: int| 0 <= i < a.len() && a[i] == y;
            assert(a.contains(x)) by {
                assert(a[0] == x);
            }
            assert(b.to_multiset().count(x) > 0);
            assert(b.contains(x));
            let j = choose|j: int| 0 <= j < b.len() && b[j] == x;
            assert(i > 0);
            assert(j > 0);
            assert(!entry_before(a[i], a[0]));
            assert(!entry_before(b[j], b[0]));
            if x.1 == y.1 {
                lemma_text_less_total(x.0, y.0);
            }
            assert(false);
        }
        assert(a.remove(0) =~= a.drop_first());
        assert(b.remove(0) =~= b.drop_first());
        assert(a.drop_first().to_multiset() == b.drop_first().to_multiset());
        assert forall|p: int, q: int| 0 <= p < q < a.drop_first().len() implies !entry_before(
            #[trigger] a.drop_first()[q],
            #[trigger] a.drop_first()[p],
        ) by {
            assert(a.drop_first()[q] == a[q + 1] && a.drop_first()[p] == a[p + 1]);
        }
        assert forall|p: int, q: int| 0 <= p < q < b.drop_first().len() implies !entry_before(
            #[trigger] b.drop_first()[q],
            #[trigger] b.drop_first()[p],
        ) by {
            assert(b.drop_first()[q] == b[q + 1] && b.drop_first()[p] == b[p + 1]);
        }
        lemma_listing_order_unique(a.drop_first(), b.drop_first());
        assert(a =~= seq![x] + a.drop_first());
        assert(b =~= seq![y] + b.drop_first());
    }
}

proof fn lemma_entry_before_total(a: EntryView, b: EntryView)
    requires
        a != b,
    ensures
        entry_before(a, b) || entry_before(b, a),
{
    if a.1 == b.1 {
        if a.0 == b.0 {
            assert(a == b);
        }
        lemma_text_less_total(a.0, b.0);
    }
}

/// A listing in listing order without repeated entries is strictly
/// ascending: every directory precedes every file, and names rise strictly
/// within each group.
pub proof fn lemma_listing_strict(s: Seq<EntryView>)
    requires
        listing_sorted(s),
        s.no_duplicates(),
    ensures
        forall|i: int, j: int| 0 <= i < j < s.len() ==> entry_before(#[trigger] s[i], #[trigger] s[j]),
{
    assert forall|i: int, j: int| 0 <= i < j < s.len() implies entry_before(#[trigger] s[i], #[trigger] s[j]) by {
        lemma_entry_before_total(s[i], s[j]);
    }
}

/// When no two paths of a raw listing have the same name and kind (as in a
/// directory), `sorted_names` lists them in strictly ascending order.
pub proof fn lemma_sorted_names_strict(shown: Seq<EntryView>, raw: Seq<(String, bool)>)
    requires
        lists(shown, raw),
        named_entries(raw).no_duplicates(),
    ensures
        forall|i: int, j: int|
            0 <= i < j < shown.len() ==> entry_before(#[trigger] shown[i], #[trigger] shown[j]),
{
    named_entries(raw).lemma_multiset_has_no_duplicates();
    shown.lemma_multiset_has_no_duplicates_conv();
    lemma_listing_strict(shown);
}

} // verus!
