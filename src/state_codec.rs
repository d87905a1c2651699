use vstd::prelude::*;

use crate::encoding::{percent_decode, percent_decoded};
use crate::error::ServiceError;
use crate::text::has_text_at;

verus! {

/// The marker that starts the payload of every state blob this service mints.
pub const STATE_KEY: &'static str = "s3_file_uri=";

/// The characters of the envelope that identity providers add or strip.
pub open spec fn is_envelope_char(c: char) -> bool {
    c == '{' || c == '}' || c == '"'
}

/// `s` without its leading envelope characters.
pub open spec fn trim_front(s: Seq<char>) -> Seq<char>
    decreases s.len(),
{
    if s.len() > 0 && is_envelope_char(s[0]) {
        trim_front(s.drop_first())
    } else {
        s
    }
}

/// `s` without its trailing envelope characters.
pub open spec fn trim_back(s: Seq<char>) -> Seq<char>
    decreases s.len(),
{
    if s.len() > 0 && is_envelope_char(s.last()) {
        trim_back(s.drop_last())
    } else {
        s
    }
}

/// `s` without envelope characters at either end.
pub open spec fn trim_envelope(s: Seq<char>) -> Seq<char> {
    trim_back(trim_front(s))
}

/// The state blob that carries `image_url`: `{"{s3_file_uri=<image_url>}"}`.
pub open spec fn state_blob(image_url: Seq<char>) -> Seq<char> {
    "{\"{"@ + STATE_KEY@ + image_url + "}\"}"@
}

/// The image reference in an already percent-decoded blob: what follows the
/// marker once the envelope is trimmed; `None` without the marker or with an
/// empty remainder.
pub open spec fn payload_of(decoded: Seq<char>) -> Option<Seq<char>> {
    let t = trim_envelope(decoded);
    let k = STATE_KEY@.len();
    if t.len() > k && t.subrange(0, k as int) == STATE_KEY@ {
        Some(t.subrange(k as int, t.len() as int))
    } else {
        None
    }
}

/// The image reference that a state blob, as received, decodes to.
pub open spec fn decoded_state(s: Seq<char>) -> Option<Seq<char>> {
    match percent_decoded(s) {
        Some(d) => payload_of(d),
        None => None,
    }
}

/// The image references that survive the envelope: not empty, and not ending
/// in an envelope character, which trimming could not tell from the envelope.
pub open spec fn is_carried_reference(image_url: Seq<char>) -> bool {
    image_url.len() > 0 && !is_envelope_char(image_url.last())
}

fn is_envelope(c: char) -> (r: bool)
    ensures
        r == is_envelope_char(c),
{
    c == '{' || c == '}' || c == '"'
}

/// Wraps `image_url` in the state envelope.
pub fn encode_state(image_url: &str) -> (r: String)
    ensures
        r@ == state_blob(image_url@),
{
    let mut r = String::from_str("{\"{");
    r.append(STATE_KEY);
    r.append(image_url);
    r.append("}\"}");
    r
}

proof fn lemma_trim_front_step(s: Seq<char>, lo: int)
    requires
        0 <= lo < s.len(),
        is_envelope_char(s[lo]),
    ensures
        trim_front(s.subrange(lo, s.len() as int)) == trim_front(s.subrange(lo + 1, s.len() as int)),
{
    assert(s.subrange(lo, s.len() as int).drop_first() =~= s.subrange(lo + 1, s.len() as int));
}

proof fn lemma_trim_back_step(s: Seq<char>, lo: int, hi: int)
    requires
        0 <= lo < hi <= s.len(),
        is_envelope_char(s[hi - 1]),
    ensures
        trim_back(s.subrange(lo, hi)) == trim_back(s.subrange(lo, hi - 1)),
{
    assert(s.subrange(lo, hi).drop_last() =~= s.subrange(lo, hi - 1));
}

/// Normalises `s` as the envelope allows: the bounds of `trim_envelope(s@)`.
fn envelope_bounds(s: &str) -> (r: (usize, usize))
    ensures
        r.0 <= r.1 <= s@.len(),
        trim_envelope(s@) == s@.subrange(r.0 as int, r.1 as int),
{
    let n = s.unicode_len();
    let mut lo: usize = 0;
    assert(s@.subrange(0, n as int) =~= s@);
    while lo < n && is_envelope(s.get_char(lo))
        invariant
            n == s@.len(),
            lo <= n,
            trim_front(s@) == trim_front(s@.subrange(lo as int, n as int)),
        decreases n - lo,
    {
        proof {
            lemma_trim_front_step(s@, lo as int);
        }
        lo = lo + 1;
    }
    assert(trim_front(s@) == s@.subrange(lo as int, n as int));
    let mut hi: usize = n;
    while hi > lo && is_envelope(s.get_char(hi - 1))
        invariant
            n == s@.len(),
            lo <= hi <= n,
            trim_back(s@.subrange(lo as int, n as int)) == trim_back(s@.subrange(lo as int, hi as int)),
        decreases hi,
    {
        proof {
            lemma_trim_back_step(s@, lo as int, hi as int);
        }
        hi = hi - 1;
    }
    (lo, hi)
}

/// The image reference in an already percent-decoded state blob: the
/// envelope trimmed, the marker checked and removed; `MalformedState` without
/// the marker or with nothing after it.
pub fn image_url_from_payload(d: &str) -> (r: Result<String, ServiceError>)
    ensures
        match payload_of(d@) {
            Some(u) => r matches Ok(v) && v@ == u,
            None => r matches Err(ServiceError::MalformedState),
        },
{
    let (lo, hi) = envelope_bounds(d);
    let ghost t = d@.subrange(lo as int, hi as int);
    let k = STATE_KEY.unicode_len();
    if hi - lo <= k {
        return Err(ServiceError::MalformedState);
    }
    if !has_text_at(d, lo, STATE_KEY) {
        assert(t.subrange(0, k as int) =~= d@.subrange(lo as int, lo + k));
        return Err(ServiceError::MalformedState);
    }
    assert(t.subrange(0, k as int) =~= d@.subrange(lo as int, lo + k));
    let rest = d.substring_char(lo + k, hi);
    assert(rest@ =~= t.subrange(k as int, t.len() as int));
    Ok(String::from_str(rest))
}

/// Recovers the image reference from the `state` parameter of an OAuth
/// callback: one pass of percent-decoding, then the envelope trimmed and the
/// marker checked and removed.
pub fn extract_image_url_from_state(s: &str) -> (r: Result<String, ServiceError>)
    ensures
        match decoded_state(s@) {
            Some(u) => r matches Ok(v) && v@ == u,
            None => r matches Err(ServiceError::MalformedState),
        },
{
    match percent_decode(s) {
        Some(d) => image_url_from_payload(d.as_str()),
        None => Err(ServiceError::MalformedState),
    }
}

/// Whether `s` begins with `p`.
pub open spec fn starts_with(s: Seq<char>, p: Seq<char>) -> bool {
    s.len() >= p.len() && s.subrange(0, p.len() as int) == p
}

proof fn lemma_trim_front_past(p: Seq<char>, x: Seq<char>)
    requires
        forall|i: int| 0 <= i < p.len() ==> is_envelope_char(#[trigger] p[i]),
        x.len() > 0,
        !is_envelope_char(x[0]),
    ensures
        trim_front(p + x) == x,
    decreases p.len(),
{
    if p.len() == 0 {
        assert(p + x =~= x);
    } else {
        assert((p + x).drop_first() =~= p.drop_first() + x);
        assert forall|i: int| 0 <= i < p.drop_first().len() implies is_envelope_char(
            #[trigger] p.drop_first()[i],
        ) by {
            assert(p.drop_first()[i] == p[i + 1]);
        }
        lemma_trim_front_past(p.drop_first(), x);
    }
}

proof fn lemma_trim_back_past(x: Seq<char>, q: Seq<char>)
    requires
        forall|i: int| 0 <= i < q.len() ==> is_envelope_char(#[trigger] q[i]),
        x.len() > 0,
        !is_envelope_char(x.last()),
    ensures
        trim_back(x + q) == x,
    decreases q.len(),
{
    if q.len() == 0 {
        assert(x + q =~= x);
    } else {
        assert((x + q).drop_last() =~= x + q.drop_last());
        assert((x + q).last() == q[q.len() - 1]);
        assert forall|i: int| 0 <= i < q.drop_last().len() implies is_envelope_char(
            #[trigger] q.drop_last()[i],
        ) by {
            assert(q.drop_last()[i] == q[i]);
        }
        lemma_trim_back_past(x, q.drop_last());
    }
}

/// Decoding recovers every image reference that the envelope can carry: a
/// `state` value that percent-decodes to the blob minted for `image_url`
/// decodes to `image_url`. That holds of the blob itself wherever it has no
/// `%`, and of the blob after one pass of percent-encoding.
pub proof fn lemma_state_round_trip(image_url: Seq<char>, received: Seq<char>)
    requires
        is_carried_reference(image_url),
        percent_decoded(received) == Some(state_blob(image_url)),
    ensures
        decoded_state(received) == Some(image_url),
{
    reveal_strlit("{\"{");
    reveal_strlit("}\"}");
    reveal_strlit("s3_file_uri=");
    let open = "{\"{"@;
    let close = "}\"}"@;
    let key = STATE_KEY@;
    let x = key + image_url;
    assert(x[0] == 's');
    assert(state_blob(image_url) =~= open + (x + close));
    assert(open[0] == '{' && open[1] == '"' && open[2] == '{');
    assert((x + close)[0] == x[0]);
    lemma_trim_front_past(open, x + close);
    assert(close[0] == '}' && close[1] == '"' && close[2] == '}');
    assert(x.last() == image_url.last());
    lemma_trim_back_past(x, close);
    assert(trim_envelope(state_blob(image_url)) == x);
    assert(x.subrange(0, key.len() as int) =~= key);
    assert(x.subrange(key.len() as int, x.len() as int) =~= image_url);
}

/// Every accepted `state` value percent-decodes to a text whose trimmed form
/// begins with the marker: a payload without it is refused.
pub proof fn lemma_prefix_integrity(received: Seq<char>)
    ensures
        decoded_state(received) is Some ==> (percent_decoded(received) matches Some(d)
            && starts_with(trim_envelope(d), STATE_KEY@)),
{
}

proof fn lemma_trim_front_shape(s: Seq<char>)
    ensures
        trim_front(s).len() == 0 || !is_envelope_char(trim_front(s)[0]),
    decreases s.len(),
{
    if s.len() > 0 && is_envelope_char(s[0]) {
        lemma_trim_front_shape(s.drop_first());
    }
}

proof fn lemma_trim_back_shape(s: Seq<char>)
    ensures
        trim_back(s).len() <= s.len(),
        trim_back(s) == s.subrange(0, trim_back(s).len() as int),
        trim_back(s).len() == 0 || !is_envelope_char(trim_back(s).last()),
    decreases s.len(),
{
    if s.len() > 0 && is_envelope_char(s.last()) {
        lemma_trim_back_shape(s.drop_last());
        assert(s.drop_last().subrange(0, trim_back(s).len() as int) =~= s.subrange(
            0,
            trim_back(s).len() as int,
        ));
    } else {
        assert(s.subrange(0, s.len() as int) =~= s);
    }
}

/// Normalising is stable: trimming the envelope from a trimmed text changes
/// nothing, so decoding a payload that was already normalised gives the same
/// result as decoding the text it came from.
pub proof fn lemma_trim_idempotent(s: Seq<char>)
    ensures
        trim_envelope(trim_envelope(s)) == trim_envelope(s),
        payload_of(trim_envelope(s)) == payload_of(s),
{
    let x = trim_front(s);
    let y = trim_back(x);
    lemma_trim_front_shape(s);
    lemma_trim_back_shape(x);
    if y.len() > 0 {
        assert(y[0] == x[0]);
    }
    assert(trim_front(y) == y);
    assert(trim_back(y) == y);
}

} // verus!
