//! Header sets as lists of name/value pairs with case-insensitive names,
//! and the media-type check used for JSON content detection.

use vstd::prelude::*;
use vstd::string::StrSliceExecFns;

verus! {

/// The code of a character after ASCII case folding: an upper-case ASCII
/// letter maps to the code of its lower-case counterpart, every other
/// character to its own code.
pub open spec fn fold_code(c: char) -> int {
    if 65 <= c as u32 && c as u32 <= 90 {
        c as u32 + 32
    } else {
        c as u32 as int
    }
}

/// Two character sequences are equal up to ASCII case.
pub open spec fn chars_eq_ci(a: Seq<char>, b: Seq<char>) -> bool {
    a.len() == b.len() && forall|i: int|
        0 <= i < a.len() ==> fold_code(a[i]) == fold_code(b[i])
}

/// The views of a list of owned header entries.
pub open spec fn entry_views(hs: Seq<(String, String)>) -> Seq<(Seq<char>, Seq<char>)> {
    hs.map_values(|p: (String, String)| (p.0@, p.1@))
}

/// The value of the first entry at or after position `i` whose name equals
/// `name` up to ASCII case, if any.
pub open spec fn lookup_from(
    hs: Seq<(Seq<char>, Seq<char>)>,
    name: Seq<char>,
    i: int,
) -> Option<Seq<char>>
    decreases hs.len() - i,
{
    if i < 0 || i >= hs.len() {
        None
    } else if chars_eq_ci(hs[i].0, name) {
        Some(hs[i].1)
    } else {
        lookup_from(hs, name, i + 1)
    }
}

/// The value stored under a header name, compared case-insensitively.
pub open spec fn lookup_header(hs: Seq<(Seq<char>, Seq<char>)>, name: Seq<char>) -> Option<
    Seq<char>,
> {
    lookup_from(hs, name, 0)
}

/// The entries after storing `value` under `name`: the first entry whose
/// name matches up to ASCII case is replaced, and if none matches the pair
/// is appended.
pub open spec fn put_from(
    hs: Seq<(Seq<char>, Seq<char>)>,
    name: Seq<char>,
    value: Seq<char>,
    i: int,
) -> Seq<(Seq<char>, Seq<char>)>
    decreases hs.len() - i,
{
    if i < 0 || i >= hs.len() {
        hs.push((name, value))
    } else if chars_eq_ci(hs[i].0, name) {
        hs.update(i, (name, value))
    } else {
        put_from(hs, name, value, i + 1)
    }
}

/// The entries after storing `value` under `name` (replace the first
/// case-insensitive match, else append).
pub open spec fn put_header(
    hs: Seq<(Seq<char>, Seq<char>)>,
    name: Seq<char>,
    value: Seq<char>,
) -> Seq<(Seq<char>, Seq<char>)> {
    put_from(hs, name, value, 0)
}

/// The header set after storing into `base`, in order, every entry of
/// `entries` from position `i` on.
pub open spec fn put_all_from(
    base: Seq<(Seq<char>, Seq<char>)>,
    entries: Seq<(Seq<char>, Seq<char>)>,
    i: int,
) -> Seq<(Seq<char>, Seq<char>)>
    decreases entries.len() - i,
{
    if i < 0 || i >= entries.len() {
        base
    } else {
        put_all_from(put_header(base, entries[i].0, entries[i].1), entries, i + 1)
    }
}

/// The header set built by storing every entry in order, starting from an
/// empty set.
pub open spec fn put_all(entries: Seq<(Seq<char>, Seq<char>)>) -> Seq<(Seq<char>, Seq<char>)> {
    put_all_from(Seq::empty(), entries, 0)
}

/// Building a set from a single entry yields exactly that entry.
pub proof fn lemma_put_all_single(p: (Seq<char>, Seq<char>))
    ensures
        put_all(seq![p]) == seq![p],
{
    let e = seq![p];
    assert(put_header(Seq::empty(), p.0, p.1) =~= e);
    assert(put_all_from(Seq::empty(), e, 0) == put_all_from(put_header(Seq::empty(), p.0, p.1), e, 1));
    assert(put_all_from(put_header(Seq::empty(), p.0, p.1), e, 1) == put_header(Seq::empty(), p.0, p.1));
}

/// Building a set from two entries whose names differ up to ASCII case
/// yields exactly those two entries, in order.
pub proof fn lemma_put_all_distinct_pair(p: (Seq<char>, Seq<char>), q: (Seq<char>, Seq<char>))
    requires
        !chars_eq_ci(p.0, q.0),
    ensures
        put_all(seq![p, q]) == seq![p, q],
{
    let e = seq![p, q];
    let one = put_header(Seq::empty(), p.0, p.1);
    assert(one =~= seq![p]);
    assert(put_all_from(Seq::empty(), e, 0) == put_all_from(one, e, 1));
    assert(put_all_from(one, e, 1) == put_all_from(put_header(one, q.0, q.1), e, 2));
    assert(put_from(one, q.0, q.1, 0) == put_from(one, q.0, q.1, 1));
    assert(put_from(one, q.0, q.1, 1) == one.push(q));
    assert(one.push(q) =~= e);
    assert(put_all_from(put_header(one, q.0, q.1), e, 2) == put_header(one, q.0, q.1));
}

/// Optional white space allowed around a media type in a header value.
pub open spec fn is_ows(c: char) -> bool {
    c == ' ' || c == '\t'
}

/// The position of the first `';'` at or after `i`, or the length of `v`
/// if there is none.
pub open spec fn semi_from(v: Seq<char>, i: int) -> int
    decreases v.len() - i,
{
    if i < 0 || i >= v.len() {
        v.len() as int
    } else if v[i] == ';' {
        i
    } else {
        semi_from(v, i + 1)
    }
}

/// The first position in `[i, end)` holding a non-white-space character,
/// or `end` if there is none.
pub open spec fn skip_ows(v: Seq<char>, i: int, end: int) -> int
    decreases end - i,
{
    if i < 0 || i >= end || end > v.len() {
        i
    } else if is_ows(v[i]) {
        skip_ows(v, i + 1, end)
    } else {
        i
    }
}

/// The position after the last non-white-space character in `[start, end)`,
/// or `start` if all of the range is white space.
pub open spec fn rskip_ows(v: Seq<char>, start: int, end: int) -> int
    decreases end - start,
{
    if end <= start || start < 0 || end > v.len() {
        end
    } else if is_ows(v[end - 1]) {
        rskip_ows(v, start, end - 1)
    } else {
        end
    }
}

/// A Content-Type value names the media type `application/json`: the part
/// before the first `';'`, with surrounding white space removed, equals
/// `application/json` up to ASCII case.  Parameters after the `';'` (such
/// as a charset) play no part.
pub open spec fn media_type_is_json(v: Seq<char>) -> bool {
    let e = semi_from(v, 0);
    let a = skip_ows(v, 0, e);
    let b = rskip_ows(v, a, e);
    chars_eq_ci(v.subrange(a, b), "application/json"@)
}

/// A header set announces JSON content: its Content-Type entry exists and
/// names the media type `application/json`.
pub open spec fn headers_indicate_json(hs: Seq<(Seq<char>, Seq<char>)>) -> bool {
    match lookup_header(hs, "content-type"@) {
        Some(v) => media_type_is_json(v),
        None => false,
    }
}

/// Storing touches no entry before the scan position.
proof fn lemma_put_from_prefix(
    hs: Seq<(Seq<char>, Seq<char>)>,
    name: Seq<char>,
    value: Seq<char>,
    i: int,
)
    requires
        0 <= i,
    ensures
        put_from(hs, name, value, i).len() >= hs.len(),
        forall|j: int|
            0 <= j < i && j < hs.len() ==> put_from(hs, name, value, i)[j] == hs[j],
    decreases hs.len() - i,
{
    if i < hs.len() && !chars_eq_ci(hs[i].0, name) {
        lemma_put_from_prefix(hs, name, value, i + 1);
    }
}

/// A lookup reads only the entries at or after its scan position.
proof fn lemma_lookup_agrees(
    a: Seq<(Seq<char>, Seq<char>)>,
    b: Seq<(Seq<char>, Seq<char>)>,
    name: Seq<char>,
    i: int,
)
    requires
        a.len() == b.len(),
        0 <= i,
        forall|j: int| i <= j < a.len() ==> a[j] == b[j],
    ensures
        lookup_from(a, name, i) == lookup_from(b, name, i),
    decreases a.len() - i,
{
    if i < a.len() {
        lemma_lookup_agrees(a, b, name, i + 1);
    }
}

proof fn lemma_lookup_after_put_from(
    hs: Seq<(Seq<char>, Seq<char>)>,
    name: Seq<char>,
    value: Seq<char>,
    i: int,
)
    requires
        0 <= i <= hs.len(),
    ensures
        lookup_from(put_from(hs, name, value, i), name, i) == Some(value),
    decreases hs.len() - i,
{
    let r = put_from(hs, name, value, i);
    if i >= hs.len() {
        assert(r[i] == (name, value));
    } else if chars_eq_ci(hs[i].0, name) {
        assert(r[i] == (name, value));
    } else {
        lemma_lookup_after_put_from(hs, name, value, i + 1);
        lemma_put_from_prefix(hs, name, value, i + 1);
        assert(r[i] == hs[i]);
    }
}

/// Looking a name up right after storing a value under it yields that
/// value, whatever the header set held before.
pub proof fn lemma_lookup_after_put(
    hs: Seq<(Seq<char>, Seq<char>)>,
    name: Seq<char>,
    value: Seq<char>,
)
    ensures
        lookup_header(put_header(hs, name, value), name) == Some(value),
{
    lemma_lookup_after_put_from(hs, name, value, 0);
}

proof fn lemma_put_preserves_from(
    hs: Seq<(Seq<char>, Seq<char>)>,
    name: Seq<char>,
    value: Seq<char>,
    other: Seq<char>,
    i: int,
)
    requires
        0 <= i <= hs.len(),
        !chars_eq_ci(name, other),
    ensures
        lookup_from(put_from(hs, name, value, i), other, i) == lookup_from(hs, other, i),
    decreases hs.len() - i,
{
    let r = put_from(hs, name, value, i);
    if i >= hs.len() {
        assert(r[i] == (name, value));
        assert(lookup_from(r, other, i + 1) is None);
    } else if chars_eq_ci(hs[i].0, name) {
        assert(r[i] == (name, value));
        if chars_eq_ci(hs[i].0, other) {
            assert(chars_eq_ci(name, other)) by {
                assert(forall|k: int|
                    0 <= k < name.len() ==> fold_code(name[k]) == fold_code(other[k]));
            }
        }
        lemma_lookup_agrees(r, hs, other, i + 1);
    } else {
        lemma_put_preserves_from(hs, name, value, other, i + 1);
        lemma_put_from_prefix(hs, name, value, i + 1);
        assert(r[i] == hs[i]);
    }
}

/// Storing a value under one name leaves the lookup of every other name
/// unchanged, where the two names differ up to ASCII case.
pub proof fn lemma_put_preserves_other_names(
    hs: Seq<(Seq<char>, Seq<char>)>,
    name: Seq<char>,
    value: Seq<char>,
    other: Seq<char>,
)
    requires
        !chars_eq_ci(name, other),
    ensures
        lookup_header(put_header(hs, name, value), other) == lookup_header(hs, other),
{
    lemma_put_preserves_from(hs, name, value, other, 0);
}

/// The position of the first `';'` in `v` is `k`, when nothing before `k`
/// is a `';'` and `k` is either a `';'` or the end.
proof fn lemma_semi_from_at(v: Seq<char>, i: int, k: int)
    requires
        0 <= i <= k <= v.len(),
        forall|j: int| i <= j < k ==> v[j] != ';',
        k == v.len() || v[k] == ';',
    ensures
        semi_from(v, i) == k,
    decreases k - i,
{
    if i < k {
        lemma_semi_from_at(v, i + 1, k);
    }
}

/// The JSON media-type check does not depend on what follows the first
/// `';'`: `application/json` alone passes it, and so does
/// `application/json` followed by a `';'` and any parameters, a charset
/// among them.
pub proof fn lemma_media_type_params_ignored(params: Seq<char>)
    ensures
        media_type_is_json("application/json"@),
        media_type_is_json("application/json"@ + seq![';'] + params),
{
    reveal_strlit("application/json");
    let lit = "application/json"@;
    assert(lit.len() == 16);
    assert(forall|j: int| 0 <= j < 16 ==> lit[j] != ';');
    lemma_semi_from_at(lit, 0, 16);
    assert(skip_ows(lit, 0, 16) == 0);
    assert(rskip_ows(lit, 0, 16) == 16);
    assert(lit.subrange(0, 16) =~= lit);
    assert(chars_eq_ci(lit, lit));
    let w = lit + seq![';'] + params;
    assert(forall|j: int| 0 <= j < 16 ==> w[j] == lit[j]);
    assert(w[16] == ';');
    lemma_semi_from_at(w, 0, 16);
    assert(skip_ows(w, 0, 16) == 0);
    assert(rskip_ows(w, 0, 16) == 16);
    assert(w.subrange(0, 16) =~= lit);
    assert(chars_eq_ci(w.subrange(0, 16), lit));
}

/// The case-folded code of a character.
pub fn fold_code_exec(c: char) -> (r: u32)
    ensures
        r == fold_code(c),
{
    let n = c as u32;
    if 65 <= n && n <= 90 {
        n + 32
    } else {
        n
    }
}

/// Whether two strings are equal up to ASCII case.
pub fn str_eq_ci(a: &str, b: &str) -> (r: bool)
    ensures
        r == chars_eq_ci(a@, b@),
{
    let alen = a.unicode_len();
    let blen = b.unicode_len();
    if alen != blen {
        return false;
    }
    let mut i: usize = 0;
    while i < alen
        invariant
            alen == a@.len(),
            blen == b@.len(),
            alen == blen,
            i <= alen,
            forall|j: int| 0 <= j < i ==> fold_code(a@[j]) == fold_code(b@[j]),
        decreases alen - i,
    {
        if fold_code_exec(a.get_char(i)) != fold_code_exec(b.get_char(i)) {
            assert(fold_code(a@[i as int]) != fold_code(b@[i as int]));
            return false;
        }
        i += 1;
    }
    true
}

/// Whether a header value names the media type `application/json`.
pub fn media_type_is_json_exec(v: &str) -> (r: bool)
    ensures
        r == media_type_is_json(v@),
{
    let n = v.unicode_len();
    let mut e: usize = 0;
    while e < n && v.get_char(e) != ';'
        invariant
            e <= n,
            n == v@.len(),
            semi_from(v@, 0) == semi_from(v@, e as int),
        decreases n - e,
    {
        e += 1;
    }
    assert(semi_from(v@, 0) == e);
    let mut a: usize = 0;
    while a < e && is_ows_exec(v.get_char(a))
        invariant
            a <= e,
            e <= n,
            n == v@.len(),
            skip_ows(v@, 0, e as int) == skip_ows(v@, a as int, e as int),
        decreases e - a,
    {
        a += 1;
    }
    assert(skip_ows(v@, 0, e as int) == a);
    let mut b: usize = e;
    while b > a && is_ows_exec(v.get_char(b - 1))
        invariant
            a <= b,
            b <= e,
            e <= n,
            n == v@.len(),
            rskip_ows(v@, a as int, e as int) == rskip_ows(v@, a as int, b as int),
        decreases b,
    {
        b -= 1;
    }
    assert(rskip_ows(v@, a as int, e as int) == b);
    let lit = "application/json";
    let litlen = lit.unicode_len();
    if b - a != litlen {
        return false;
    }
    let mut i: usize = 0;
    while i < litlen
        invariant
            i <= litlen,
            litlen == lit@.len(),
            a + litlen == b,
            b <= n,
            n == v@.len(),
            lit@ == "application/json"@,
            a == skip_ows(v@, 0, semi_from(v@, 0)),
            b == rskip_ows(v@, a as int, semi_from(v@, 0)),
            forall|j: int| 0 <= j < i ==> fold_code(v@[a + j]) == fold_code(lit@[j]),
        decreases litlen - i,
    {
        if fold_code_exec(v.get_char(a + i)) != fold_code_exec(lit.get_char(i)) {
            assert(v@.subrange(a as int, b as int)[i as int] == v@[a + i]);
            return false;
        }
        i += 1;
    }
    assert(chars_eq_ci(v@.subrange(a as int, b as int), lit@)) by {
        assert(forall|j: int|
            0 <= j < litlen ==> v@.subrange(a as int, b as int)[j] == v@[a + j]);
    }
    true
}

/// Whether a character is optional white space.
fn is_ows_exec(c: char) -> (r: bool)
    ensures
        r == is_ows(c),
{
    c == ' ' || c == '\t'
}

/// The value stored in `hs` under `name` (case-insensitive), cloned.
pub fn find_header(hs: &Vec<(String, String)>, name: &str) -> (r: Option<String>)
    ensures
        match r {
            Some(v) => lookup_header(entry_views(hs@), name@) == Some(v@),
            None => lookup_header(entry_views(hs@), name@) is None,
        },
{
    let ghost ev = entry_views(hs@);
    let mut i: usize = 0;
    while i < hs.len()
        invariant
            i <= hs@.len(),
            ev == entry_views(hs@),
            lookup_from(ev, name@, 0) == lookup_from(ev, name@, i as int),
        decreases hs@.len() - i,
    {
        assert(ev[i as int] == (hs@[i as int].0@, hs@[i as int].1@));
        if str_eq_ci(hs[i].0.as_str(), name) {
            return Some(hs[i].1.clone());
        }
        i += 1;
    }
    None
}

} // verus!
