use vstd::prelude::*;

use crate::text::has_text_at;

verus! {

/// The characters that end a pair: `&` between pairs, and `?` and space,
/// which stand before the query string and after it in a request line.
pub open spec fn is_separator_char(c: char) -> bool {
    c == '&' || c == '?' || c == ' '
}

/// Whether `c` ends a pair.
pub fn is_separator(c: char) -> (r: bool)
    ensures
        r == is_separator_char(c),
{
    c == '&' || c == '?' || c == ' '
}

/// The length of the first segment of `q`, up to the first separator.
pub open spec fn segment_len(q: Seq<char>) -> nat
    decreases q.len(),
{
    if q.len() == 0 || is_separator_char(q[0]) {
        0
    } else {
        1 + segment_len(q.drop_first())
    }
}

/// Whether the segment `seg` is the pair `name=...`.
pub open spec fn is_pair_named(seg: Seq<char>, name: Seq<char>) -> bool {
    seg.len() > name.len() && seg.subrange(0, name.len() as int) == name && seg[name.len() as int]
        == '='
}

/// The value of the first pair named `name` in `q`: pairs are separated by
/// `&`, `?` or a space, and a pair is a name, `=`, and its value.
pub open spec fn query_value(q: Seq<char>, name: Seq<char>) -> Option<Seq<char>>
    decreases q.len(),
{
    let e = segment_len(q) as int;
    let seg = q.subrange(0, e);
    if is_pair_named(seg, name) {
        Some(seg.subrange(name.len() as int + 1, e))
    } else if e < q.len() {
        query_value(q.subrange(e + 1, q.len() as int), name)
    } else {
        None
    }
}

proof fn lemma_segment_len_bound(q: Seq<char>)
    ensures
        segment_len(q) <= q.len(),
        segment_len(q) < q.len() ==> is_separator_char(q[segment_len(q) as int]),
        forall|i: int| 0 <= i < segment_len(q) ==> !is_separator_char(q[i]),
    decreases q.len(),
{
    if q.len() > 0 && !is_separator_char(q[0]) {
        lemma_segment_len_bound(q.drop_first());
        assert forall|i: int| 0 <= i < segment_len(q) implies !is_separator_char(q[i]) by {
            if i > 0 {
                assert(q[i] == q.drop_first()[i - 1]);
            }
        }
    }
}

proof fn lemma_segment_len_is(q: Seq<char>, m: int)
    requires
        0 <= m <= q.len(),
        forall|i: int| 0 <= i < m ==> !is_separator_char(q[i]),
        m == q.len() || is_separator_char(q[m]),
    ensures
        segment_len(q) == m,
    decreases m,
{
    if m > 0 {
        assert forall|i: int| 0 <= i < m - 1 implies !is_separator_char(q.drop_first()[i]) by {
            assert(q.drop_first()[i] == q[i + 1]);
        }
        lemma_segment_len_is(q.drop_first(), m - 1);
    }
}

/// The pair `k=v` of a query string.
pub open spec fn query_pair(k: Seq<char>, v: Seq<char>) -> Seq<char> {
    k + seq!['='] + v
}

/// Whether `s` holds no separator.
pub open spec fn has_no_separator(s: Seq<char>) -> bool {
    forall|i: int| 0 <= i < s.len() ==> !is_separator_char(#[trigger] s[i])
}

proof fn lemma_pair_segment(k: Seq<char>, v: Seq<char>, rest: Seq<char>)
    requires
        has_no_separator(k),
        has_no_separator(v),
    ensures
        segment_len(query_pair(k, v) + rest) >= query_pair(k, v).len(),
        rest.len() > 0 && is_separator_char(rest[0]) ==> segment_len(query_pair(k, v) + rest) == query_pair(
            k,
            v,
        ).len(),
        rest.len() == 0 ==> segment_len(query_pair(k, v) + rest) == query_pair(k, v).len(),
{
    let p = query_pair(k, v);
    let q = p + rest;
    assert forall|i: int| 0 <= i < p.len() implies !is_separator_char(q[i]) by {
        assert(q[i] == p[i]);
        if i < k.len() {
            assert(p[i] == k[i]);
        } else if i == k.len() {
            assert(p[i] == '=');
        } else {
            assert(p[i] == v[i - k.len() - 1]);
        }
    }
    lemma_segment_len_bound(q);
    if segment_len(q) < p.len() {
        assert(is_separator_char(q[segment_len(q) as int]));
    }
    if rest.len() > 0 && is_separator_char(rest[0]) {
        assert(is_separator_char(q[p.len() as int]));
        lemma_segment_len_is(q, p.len() as int);
    }
    if rest.len() == 0 {
        lemma_segment_len_is(q, p.len() as int);
    }
}

/// A query string that begins with the pair `k=v`, where neither holds `&`:
/// the pair is found where `k` is the name looked for, and skipped where the
/// two differ in their first character.
pub proof fn lemma_query_value_first_pair(
    k: Seq<char>,
    v: Seq<char>,
    rest: Seq<char>,
    name: Seq<char>,
)
    requires
        has_no_separator(k),
        has_no_separator(v),
        k.len() > 0,
        rest.len() == 0 || is_separator_char(rest[0]),
    ensures
        k == name ==> query_value(query_pair(k, v) + rest, name) == Some(v),
        name.len() > 0 && k[0] != name[0] ==> query_value(query_pair(k, v) + rest, name) == (
        if rest.len() == 0 {
            None
        } else {
            query_value(rest.drop_first(), name)
        }),
{
    let p = query_pair(k, v);
    let q = p + rest;
    lemma_pair_segment(k, v, rest);
    let e = p.len() as int;
    assert(q.subrange(0, e) =~= p);
    if k == name {
        assert(p.subrange(0, name.len() as int) =~= name);
        assert(p[name.len() as int] == '=');
        assert(p.subrange(name.len() as int + 1, e) =~= v);
    }
    if name.len() > 0 && k[0] != name[0] {
        assert(p[0] == k[0]);
        if p.len() > name.len() {
            assert(p.subrange(0, name.len() as int)[0] == p[0]);
        }
        assert(!is_pair_named(p, name));
        if rest.len() > 0 {
            assert(q.subrange(e + 1, q.len() as int) =~= rest.drop_first());
        }
    }
}

/// The raw value of the parameter `param_name` in `request`: a query string,
/// or a request line or request text around one. A pair starts at the
/// beginning or after `&`, `?` or a space, and its value ends at the next of
/// these or at the end. Unknown parameters are skipped; values are returned as
/// they stand, without percent-decoding.
pub fn extract_query_parameter<'a>(request: &'a str, param_name: &str) -> (r: Option<&'a str>)
    ensures
        match query_value(request@, param_name@) {
            Some(v) => r matches Some(x) && x@ == v,
            None => r is None,
        },
{
    let n = request.unicode_len();
    let m = param_name.unicode_len();
    let mut pos: usize = 0;
    assert(request@.subrange(0, n as int) =~= request@);
    loop
        invariant
            n == request@.len(),
            m == param_name@.len(),
            pos <= n,
            query_value(request@, param_name@) == query_value(request@.subrange(pos as int, n as int),
                param_name@,
            ),
        decreases n - pos,
    {
        let ghost rest = request@.subrange(pos as int, n as int);
        let mut end: usize = pos;
        while end < n && !is_separator(request.get_char(end))
            invariant
                n == request@.len(),
                pos <= end <= n,
                forall|i: int| pos <= i < end ==> !is_separator_char(request@[i]),
            decreases n - end,
        {
            end = end + 1;
        }
        proof {
            assert forall|i: int| 0 <= i < end - pos implies !is_separator_char(rest[i]) by {
                assert(rest[i] == request@[pos + i]);
            }
            lemma_segment_len_is(rest, end - pos);
        }
        let ghost seg = rest.subrange(0, end - pos);
        assert(seg =~= request@.subrange(pos as int, end as int));
        let named = end - pos > m && request.get_char(pos + m) == '=' && has_text_at(
            request,
            pos,
            param_name,
        );
        if named {
            assert(seg.subrange(0, m as int) =~= request@.subrange(pos as int, pos + m));
            assert(is_pair_named(seg, param_name@));
            let v = request.substring_char(pos + m + 1, end);
            assert(v@ =~= seg.subrange(m + 1, end - pos));
            return Some(v);
        }
        proof {
            if end - pos > m && request@[pos + m] == '=' {
                assert(seg.subrange(0, m as int) =~= request@.subrange(pos as int, pos + m));
            }
            assert(!is_pair_named(seg, param_name@));
        }
        if end == n {
            return None;
        }
        assert(rest.subrange(end - pos + 1, rest.len() as int) =~= request@.subrange(
            end + 1,
            n as int,
        ));
        pos = end + 1;
    }
}

} // verus!
