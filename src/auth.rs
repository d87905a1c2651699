use vstd::prelude::*;

use crate::encoding::{percent_encoded, push_query_pair};
use crate::error::ServiceError;
use crate::http::{reply_body, success_member, Upstream};
use crate::text::same_text;

verus! {

/// The identity provider's token endpoint.
pub const TOKEN_ENDPOINT: &'static str = "https://graph.facebook.com/v19.0/oauth/access_token";

/// The JSON member of the token endpoint's reply that holds the token.
pub const ACCESS_TOKEN_MEMBER: &'static str = "access_token";

/// The value of the first parameter named `name` in `ps`.
pub open spec fn lookup(ps: Seq<(Seq<char>, Seq<char>)>, name: Seq<char>) -> Option<Seq<char>>
    decreases ps.len(),
{
    if ps.len() == 0 {
        None
    } else if ps[0].0 == name {
        Some(ps[0].1)
    } else {
        lookup(ps.drop_first(), name)
    }
}

/// Whether no two parameters of `ps` share a name.
pub open spec fn has_unique_names(ps: Seq<(Seq<char>, Seq<char>)>) -> bool {
    forall|i: int, j: int| 0 <= i < j < ps.len() ==> #[trigger] ps[i].0 != #[trigger] ps[j].0
}

proof fn lemma_lookup_at(ps: Seq<(Seq<char>, Seq<char>)>, name: Seq<char>, i: int)
    requires
        has_unique_names(ps),
        0 <= i < ps.len(),
        ps[i].0 == name,
    ensures
        lookup(ps, name) == Some(ps[i].1),
    decreases ps.len(),
{
    if i > 0 {
        assert(ps[0].0 != ps[i].0);
        assert(ps.drop_first()[i - 1] == ps[i]);
        assert forall|a: int, b: int| 0 <= a < b < ps.drop_first().len() implies #[trigger] ps.drop_first()[a].0
            != #[trigger] ps.drop_first()[b].0 by {
            assert(ps.drop_first()[a] == ps[a + 1]);
            assert(ps.drop_first()[b] == ps[b + 1]);
        }
        lemma_lookup_at(ps.drop_first(), name, i - 1);
    }
}

proof fn lemma_lookup_absent(ps: Seq<(Seq<char>, Seq<char>)>, name: Seq<char>)
    requires
        forall|i: int| 0 <= i < ps.len() ==> #[trigger] ps[i].0 != name,
    ensures
        lookup(ps, name) is None,
    decreases ps.len(),
{
    if ps.len() > 0 {
        assert(ps[0].0 != name);
        assert forall|i: int| 0 <= i < ps.drop_first().len() implies #[trigger] ps.drop_first()[i].0
            != name by {
            assert(ps.drop_first()[i] == ps[i + 1]);
        }
        lemma_lookup_absent(ps.drop_first(), name);
    }
}

/// `lookup` on parameters with unique names: the value of the one parameter
/// of that name.
proof fn lemma_lookup_unique(ps: Seq<(Seq<char>, Seq<char>)>, name: Seq<char>)
    requires
        has_unique_names(ps),
    ensures
        (exists|i: int| 0 <= i < ps.len() && #[trigger] ps[i].0 == name && lookup(ps, name) == Some(
            ps[i].1,
        )) || ((forall|i: int| 0 <= i < ps.len() ==> #[trigger] ps[i].0 != name) && lookup(
            ps,
            name,
        ) is None),
{
    if exists|i: int| 0 <= i < ps.len() && #[trigger] ps[i].0 == name {
        let i = choose|i: int| 0 <= i < ps.len() && #[trigger] ps[i].0 == name;
        lemma_lookup_at(ps, name, i);
    } else {
        lemma_lookup_absent(ps, name);
    }
}

/// Named parameters handed to the token exchange; minimally `code`. No two
/// parameters share a name.
pub struct AuthCredentials {
    parameters: Vec<(String, String)>,
}

impl View for AuthCredentials {
    type V = Seq<(Seq<char>, Seq<char>)>;

    closed spec fn view(&self) -> Seq<(Seq<char>, Seq<char>)> {
        self.parameters@.map_values(|p: (String, String)| (p.0@, p.1@))
    }
}

impl AuthCredentials {
    /// Credentials with no parameter.
    pub fn new() -> (r: AuthCredentials)
        ensures
            has_unique_names(r@),
            forall|name: Seq<char>| lookup(r@, name) is None,
    {
        let r = AuthCredentials { parameters: Vec::new() };
        assert(r@.len() == 0);
        r
    }

    /// The position of the parameter `name`, if there is one.
    fn position(&self, name: &str) -> (r: Option<usize>)
        ensures
            match r {
                Some(i) => i < self@.len() && self@[i as int].0 == name@,
                None => forall|i: int| 0 <= i < self@.len() ==> #[trigger] self@[i].0 != name@,
            },
    {
        let len = self.parameters.len();
        let mut i: usize = 0;
        while i < len
            invariant
                len == self.parameters@.len(),
                self@.len() == len,
                i <= len,
                forall|j: int| 0 <= j < i ==> #[trigger] self@[j].0 != name@,
            decreases len - i,
        {
            assert(self@[i as int] == (self.parameters@[i as int].0@, self.parameters@[i as int].1@));
            if same_text(self.parameters[i].0.as_str(), name) {
                return Some(i);
            }
            i = i + 1;
        }
        None
    }

    /// Sets the parameter `name` to `value`, in place where it exists;
    /// every other parameter keeps its value.
    pub fn insert(&mut self, name: String, value: String)
        requires
            has_unique_names(old(self)@),
        ensures
            has_unique_names(final(self)@),
            lookup(final(self)@, name@) == Some(value@),
            forall|other: Seq<char>|
                other != name@ ==> lookup(final(self)@, other) == lookup(old(self)@, other),
    {
        let ghost n = name@;
        let ghost v = value@;
        let ghost before = self@;
        let pos = self.position(name.as_str());
        match pos {
            Some(i) => {
                self.parameters.set(i, (name, value));
                assert(self@ =~= before.update(i as int, (n, v)));
            },
            None => {
                self.parameters.push((name, value));
                assert(self@ =~= before.push((n, v)));
            },
        }
        let ghost after = self@;
        let ghost k: int = match pos {
            Some(i) => i as int,
            None => before.len() as int,
        };
        assert(after[k] == (n, v));
        assert(forall|j: int| 0 <= j < after.len() && j != k ==> after[j] == before[j]);
        assert(has_unique_names(after));
        proof {
            lemma_lookup_at(after, n, k);
            assert forall|other: Seq<char>| other != n implies lookup(after, other) == lookup(
                before,
                other,
            ) by {
                lemma_lookup_unique(before, other);
                lemma_lookup_unique(after, other);
                if exists|i: int| 0 <= i < before.len() && #[trigger] before[i].0 == other {
                    let i = choose|i: int| 0 <= i < before.len() && #[trigger] before[i].0 == other;
                    assert(i != k);
                    lemma_lookup_at(after, other, i);
                } else {
                    assert forall|i: int| 0 <= i < after.len() implies #[trigger] after[i].0 != other by {
                        if i != k {
                            assert(after[i] == before[i]);
                        }
                    }
                    lemma_lookup_absent(after, other);
                }
            }
        }
    }

    /// The value of the parameter `name`.
    pub fn get(&self, name: &str) -> (r: Option<String>)
        ensures
            match lookup(self@, name@) {
                Some(v) => r matches Some(x) && x@ == v,
                None => r is None,
            },
    {
        let mut i: usize = 0;
        let len = self.parameters.len();
        assert(self@.subrange(0, len as int) =~= self@);
        while i < len
            invariant
                len == self.parameters@.len(),
                self@.len() == len,
                i <= len,
                lookup(self@, name@) == lookup(self@.subrange(i as int, len as int), name@),
            decreases len - i,
        {
            let ghost rest = self@.subrange(i as int, len as int);
            assert(rest[0] == self@[i as int]);
            assert(self@[i as int] == (self.parameters@[i as int].0@, self.parameters@[i as int].1@));
            if same_text(self.parameters[i].0.as_str(), name) {
                return Some(self.parameters[i].1.clone());
            }
            assert(rest.drop_first() =~= self@.subrange(i + 1, len as int));
            i = i + 1;
        }
        None
    }

    /// Credentials holding only the authorization code.
    pub fn with_code(code: String) -> (r: AuthCredentials)
        ensures
            has_unique_names(r@),
            lookup(r@, "code"@) == Some(code@),
    {
        let mut r = AuthCredentials::new();
        r.insert(String::from_str("code"), code);
        r
    }
}

/// The mathematical value of a [`FacebookAuthService`].
pub struct AuthServiceView {
    pub app_id: Seq<char>,
    pub client_secret: Seq<char>,
    pub redirect_uri: Seq<char>,
}

/// The URL of the token exchange for `code`.
pub open spec fn token_request_url_of(a: AuthServiceView, code: Seq<char>) -> Seq<char> {
    TOKEN_ENDPOINT@ + "?client_id="@ + percent_encoded(a.app_id) + "&redirect_uri="@
        + percent_encoded(a.redirect_uri) + "&client_secret="@ + percent_encoded(a.client_secret)
        + "&code="@ + percent_encoded(code)
}

/// The access token that a reply of the token endpoint grants, if any.
pub open spec fn token_of_reply(reply: Upstream) -> Option<Seq<char>> {
    success_member(reply, ACCESS_TOKEN_MEMBER@)
}

/// The token exchange client: turns an authorization code into an access token.
pub struct FacebookAuthService {
    app_id: String,
    client_secret: String,
    redirect_uri: String,
}

impl View for FacebookAuthService {
    type V = AuthServiceView;

    closed spec fn view(&self) -> AuthServiceView {
        AuthServiceView {
            app_id: self.app_id@,
            client_secret: self.client_secret@,
            redirect_uri: self.redirect_uri@,
        }
    }
}

impl FacebookAuthService {
    /// A client for the app `app_id`; `redirect_uri` must be the one that the
    /// OAuth dialog URL presented.
    pub fn new(app_id: String, client_secret: String, redirect_uri: String) -> (r: Self)
        ensures
            r@ == (AuthServiceView {
                app_id: app_id@,
                client_secret: client_secret@,
                redirect_uri: redirect_uri@,
            }),
    {
        FacebookAuthService { app_id, client_secret, redirect_uri }
    }

    /// The URL to GET for the token exchange; `MalformedCallback` where the
    /// credentials hold no `code`.
    pub fn token_request_url(&self, credentials: &AuthCredentials) -> (r: Result<
        String,
        ServiceError,
    >)
        ensures
            match lookup(credentials@, "code"@) {
                Some(code) => r matches Ok(u) && u@ == token_request_url_of(self@, code),
                None => r matches Err(ServiceError::MalformedCallback),
            },
    {
        let code = match credentials.get("code") {
            Some(c) => c,
            None => {
                return Err(ServiceError::MalformedCallback);
            },
        };
        let mut url = String::from_str(TOKEN_ENDPOINT);
        push_query_pair(&mut url, "?client_id=", self.app_id.as_str());
        push_query_pair(&mut url, "&redirect_uri=", self.redirect_uri.as_str());
        push_query_pair(&mut url, "&client_secret=", self.client_secret.as_str());
        push_query_pair(&mut url, "&code=", code.as_str());
        Ok(url)
    }

    /// Reads the token endpoint's reply: the granted token, or
    /// `AuthExchangeFailed` carrying the reply's body.
    pub fn read_token_reply(&self, reply: &Upstream) -> (r: Result<String, ServiceError>)
        ensures
            match token_of_reply(*reply) {
                Some(t) => r matches Ok(x) && x@ == t,
                None => r matches Err(ServiceError::AuthExchangeFailed(d)) && d@ == reply_body(
                    *reply,
                ),
            },
    {
        match reply.success_field(ACCESS_TOKEN_MEMBER) {
            Some(t) => Ok(t),
            None => Err(ServiceError::AuthExchangeFailed(reply.body_text())),
        }
    }
}

} // verus!
