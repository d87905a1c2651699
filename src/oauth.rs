use vstd::prelude::*;

use crate::encoding::{is_encoded_char, percent_encode, percent_encoded};
use crate::query::{has_no_separator, lemma_query_value_first_pair, query_pair, query_value};
use crate::state_codec::{
    decoded_state, encode_state, is_carried_reference, lemma_state_round_trip, state_blob,
};

verus! {

/// The identity provider's OAuth dialog.
pub const OAUTH_DIALOG: &'static str = "https://www.facebook.com/v19.0/dialog/oauth";

/// The permissions asked for.
pub const OAUTH_SCOPE: &'static str = "instagram_basic,instagram_content_publish,pages_show_list";

/// The path of the OAuth redirect.
pub const CALLBACK_PATH: &'static str = "/api/perform_post_action";

/// The redirect URI of the service listening at `listener_address`.
pub open spec fn redirect_uri_of(listener_address: Seq<char>) -> Seq<char> {
    "https://"@ + listener_address + CALLBACK_PATH@
}

/// The query string of the OAuth dialog URL that carries `image_url`.
pub open spec fn oauth_query_of(app_id: Seq<char>, redirect_uri: Seq<char>, image_url: Seq<char>) -> Seq<
    char,
> {
    query_pair("client_id"@, percent_encoded(app_id)) + seq!['&'] + query_pair(
        "redirect_uri"@,
        percent_encoded(redirect_uri),
    ) + seq!['&'] + query_pair("state"@, percent_encoded(state_blob(image_url))) + seq!['&']
        + query_pair("scope"@, OAUTH_SCOPE@)
}

/// The OAuth dialog URL that carries `image_url` through the sign-in.
pub open spec fn oauth_url_of(app_id: Seq<char>, redirect_uri: Seq<char>, image_url: Seq<char>) -> Seq<
    char,
> {
    OAUTH_DIALOG@ + seq!['?'] + oauth_query_of(app_id, redirect_uri, image_url)
}

/// The redirect URI of the service listening at `listener_address`.
pub fn redirect_uri(listener_address: &str) -> (r: String)
    ensures
        r@ == redirect_uri_of(listener_address@),
{
    let mut r = String::from_str("https://");
    r.append(listener_address);
    r.append(CALLBACK_PATH);
    r
}

/// The `state` parameter minted for `image_url`: the state blob,
/// percent-encoded for the query string. The callback's decoder recovers
/// `image_url` from it.
pub fn oauth_state_param(image_url: &str) -> (r: String)
    ensures
        r@ == percent_encoded(state_blob(image_url@)),
        is_carried_reference(image_url@) ==> decoded_state(r@) == Some(image_url@),
        forall|i: int| 0 <= i < r@.len() ==> is_encoded_char(#[trigger] r@[i]),
{
    let blob = encode_state(image_url);
    let r = percent_encode(blob.as_str());
    proof {
        if is_carried_reference(image_url@) {
            lemma_state_round_trip(image_url@, r@);
        }
    }
    r
}

fn append_pair(q: &mut String, k: &str, v: &str)
    ensures
        final(q)@ == old(q)@ + query_pair(k@, v@),
{
    q.append(k);
    q.append("=");
    proof {
        reveal_strlit("=");
    }
    q.append(v);
}

/// The OAuth dialog URL that starts publishing `image_url`. Its `state`
/// parameter, found as the callback finds it and decoded as the callback
/// decodes it, gives `image_url` back.
pub fn generate_fb_oauth_url(app_id: &str, redirect_uri: &str, image_url: &str) -> (r: String)
    ensures
        r@ == oauth_url_of(app_id@, redirect_uri@, image_url@),
        is_carried_reference(image_url@) ==> (query_value(
            oauth_query_of(app_id@, redirect_uri@, image_url@),
            "state"@,
        ) matches Some(s) && decoded_state(s) == Some(image_url@)),
{
    let app = percent_encode(app_id);
    let redirect = percent_encode(redirect_uri);
    let state = oauth_state_param(image_url);
    proof {
        reveal_strlit("&");
    }
    let mut q = String::new();
    append_pair(&mut q, "client_id", app.as_str());
    q.append("&");
    append_pair(&mut q, "redirect_uri", redirect.as_str());
    q.append("&");
    append_pair(&mut q, "state", state.as_str());
    q.append("&");
    append_pair(&mut q, "scope", OAUTH_SCOPE);
    proof {
        let a = query_pair("client_id"@, app@);
        let b = query_pair("redirect_uri"@, redirect@);
        let c = query_pair("state"@, state@);
        let d = query_pair("scope"@, OAUTH_SCOPE@);
        assert(q@ =~= a + (seq!['&'] + b + (seq!['&'] + c + (seq!['&'] + d))));
        assert(q@ == oauth_query_of(app_id@, redirect_uri@, image_url@));
        reveal_strlit("client_id");
        reveal_strlit("redirect_uri");
        reveal_strlit("state");
        assert(has_no_separator("client_id"@));
        assert(has_no_separator("redirect_uri"@));
        assert(has_no_separator("state"@));
        lemma_no_separator_encoded(app@);
        lemma_no_separator_encoded(redirect@);
        lemma_no_separator_encoded(state@);
        lemma_query_value_first_pair(
            "client_id"@,
            app@,
            seq!['&'] + b + (seq!['&'] + c + (seq!['&'] + d)),
            "state"@,
        );
        assert((seq!['&'] + b + (seq!['&'] + c + (seq!['&'] + d))).drop_first() =~= b + (
        seq!['&'] + c + (seq!['&'] + d)));
        lemma_query_value_first_pair(
            "redirect_uri"@,
            redirect@,
            seq!['&'] + c + (seq!['&'] + d),
            "state"@,
        );
        assert((seq!['&'] + c + (seq!['&'] + d)).drop_first() =~= c + (seq!['&'] + d));
        lemma_query_value_first_pair("state"@, state@, seq!['&'] + d, "state"@);
    }
    let mut url = String::from_str(OAUTH_DIALOG);
    url.append("?");
    proof {
        reveal_strlit("?");
    }
    url.append(q.as_str());
    url
}

proof fn lemma_no_separator_encoded(s: Seq<char>)
    requires
        forall|i: int| 0 <= i < s.len() ==> is_encoded_char(#[trigger] s[i]),
    ensures
        has_no_separator(s),
{
}

} // verus!
