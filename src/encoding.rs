use vstd::prelude::*;

verus! {

/// Percent-decoding of a string followed by UTF-8 validation, as the
/// `percent-encoding` crate performs it; `None` where the bytes are not UTF-8.
pub uninterp spec fn percent_decoded(s: Seq<char>) -> Option<Seq<char>>;

/// Percent-encoding of every byte that is not an ASCII letter or digit, as the
/// `percent-encoding` crate performs it with its `NON_ALPHANUMERIC` set.
pub uninterp spec fn percent_encoded(s: Seq<char>) -> Seq<char>;

/// The characters that survive percent-encoding with the `NON_ALPHANUMERIC` set.
pub open spec fn is_encoded_char(c: char) -> bool {
    ('0' <= c && c <= '9') || ('a' <= c && c <= 'z') || ('A' <= c && c <= 'Z') || c == '%'
}

/// Relies on `percent_encoding::percent_decode_str` and `PercentDecode::decode_utf8`:
/// one pass of `%XX` decoding, then UTF-8 validation. An input without `%` is
/// handed back borrowed and unchanged.
#[verifier::external_body]
pub(crate) fn percent_decode(s: &str) -> (r: Option<String>)
    ensures
        match r {
            Some(d) => percent_decoded(s@) == Some(d@),
            None => percent_decoded(s@) is None,
        },
        !s@.contains('%') ==> (r is Some && r->0@ == s@),
{
    match percent_encoding::percent_decode_str(s).decode_utf8() {
        Ok(d) => Some(d.into_owned()),
        Err(_) => None,
    }
}

/// Relies on `percent_encoding::utf8_percent_encode` with `NON_ALPHANUMERIC`:
/// every byte but an ASCII letter or digit becomes `%XX`, so the output holds
/// only letters, digits and `%`, and decoding it gives the input back.
#[verifier::external_body]
pub(crate) fn percent_encode(s: &str) -> (r: String)
    ensures
        r@ == percent_encoded(s@),
        percent_decoded(r@) == Some(s@),
        forall|i: int| 0 <= i < r@.len() ==> is_encoded_char(#[trigger] r@[i]),
{
    percent_encoding::utf8_percent_encode(s, percent_encoding::NON_ALPHANUMERIC).to_string()
}

/// Appends `key` and the percent-encoded `value` to `url`.
pub fn push_query_pair(url: &mut String, key: &str, value: &str)
    ensures
        final(url)@ == old(url)@ + key@ + percent_encoded(value@),
{
    url.append(key);
    let v = percent_encode(value);
    url.append(v.as_str());
}

} // verus!
