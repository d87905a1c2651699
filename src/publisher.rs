use vstd::prelude::*;

use crate::auth::{
    token_of_reply, token_request_url_of, AuthCredentials, AuthServiceView, FacebookAuthService,
    lookup,
};
use crate::encoding::{percent_encoded, push_query_pair};
use crate::error::ServiceError;
use crate::http::{is_success_status, reply_body, success_member, Upstream};

verus! {

/// The caption of every published post.
pub const IG_POST_CAPTION: &'static str = "#berserk #darksouls #ai #guts #fantasy #darkfantasy #fantasyart #aiart #gutsberserk #lovecraft #undead #soulsborne";

/// The root of the social graph's API.
pub const GRAPH_API: &'static str = "https://graph.facebook.com/v19.0/";

/// The JSON member of the media-create reply that holds the container id.
pub const CONTAINER_ID_MEMBER: &'static str = "id";

/// The mathematical value of an [`InstagramPostRepository`].
pub struct PublisherView {
    pub account: Seq<char>,
    pub auth: AuthServiceView,
    pub token: Option<Seq<char>>,
}

/// The publisher after an `Authenticate` whose token exchange came back with
/// `reply`: the granted token installed, or the publisher unchanged.
pub open spec fn authenticated(p: PublisherView, reply: Upstream) -> PublisherView {
    match token_of_reply(reply) {
        Some(t) => PublisherView { token: Some(t), ..p },
        None => p,
    }
}

/// The URL of the media-create POST; every post carries [`IG_POST_CAPTION`].
pub open spec fn media_create_url_of(account: Seq<char>, image_url: Seq<char>, token: Seq<char>) -> Seq<
    char,
> {
    GRAPH_API@ + account + "/media"@ + "?image_url="@ + percent_encoded(image_url)
        + "&access_token="@ + percent_encoded(token) + "&caption="@ + percent_encoded(
        IG_POST_CAPTION@,
    )
}

/// The URL of the media-publish POST.
pub open spec fn media_publish_url_of(
    account: Seq<char>,
    container_id: Seq<char>,
    token: Seq<char>,
) -> Seq<char> {
    GRAPH_API@ + account + "/media_publish"@ + "?creation_id="@ + percent_encoded(container_id)
        + "&access_token="@ + percent_encoded(token)
}

/// The container id that a media-create reply carries, if any.
pub open spec fn container_of_reply(reply: Upstream) -> Option<Seq<char>> {
    success_member(reply, CONTAINER_ID_MEMBER@)
}

/// The publishing client: holds the access token, installed by `authenticate`
/// and read by the two publish steps.
pub struct InstagramPostRepository {
    ig_user_id: String,
    auth_service: FacebookAuthService,
    auth_token: Option<String>,
}

impl View for InstagramPostRepository {
    type V = PublisherView;

    closed spec fn view(&self) -> PublisherView {
        PublisherView {
            account: self.ig_user_id@,
            auth: self.auth_service@,
            token: match self.auth_token {
                Some(t) => Some(t@),
                None => None,
            },
        }
    }
}

/// Builds `GRAPH_API + account + path`.
fn graph_url(account: &str, path: &str) -> (r: String)
    ensures
        r@ == GRAPH_API@ + account@ + path@,
{
    let mut r = String::from_str(GRAPH_API);
    r.append(account);
    r.append(path);
    r
}

impl InstagramPostRepository {
    /// An unauthenticated publisher for the account `ig_user_id`.
    pub fn new(ig_user_id: String, auth_service: FacebookAuthService) -> (r: Self)
        ensures
            r@ == (PublisherView {
                account: ig_user_id@,
                auth: auth_service@,
                token: None,
            }),
    {
        InstagramPostRepository {
            ig_user_id,
            auth_service,
            auth_token: None,
        }
    }

    /// Whether a token is installed.
    pub fn is_authenticated(&self) -> (r: bool)
        ensures
            r == self@.token is Some,
    {
        self.auth_token.is_some()
    }

    /// The URL to GET for the token exchange of `Authenticate(credentials)`.
    pub fn token_request_url(&self, credentials: &AuthCredentials) -> (r: Result<
        String,
        ServiceError,
    >)
        ensures
            match lookup(credentials@, "code"@) {
                Some(code) => r matches Ok(u) && u@ == token_request_url_of(self@.auth, code),
                None => r matches Err(ServiceError::MalformedCallback),
            },
    {
        self.auth_service.token_request_url(credentials)
    }

    /// Completes `Authenticate` with the token endpoint's `reply`: installs the
    /// granted token, or fails with `AuthExchangeFailed` and leaves the
    /// publisher as it was.
    pub fn authenticate(&mut self, reply: &Upstream) -> (r: Result<(), ServiceError>)
        ensures
            final(self)@ == authenticated(old(self)@, *reply),
            match token_of_reply(*reply) {
                Some(_) => r is Ok,
                None => r matches Err(ServiceError::AuthExchangeFailed(d)) && d@ == reply_body(
                    *reply,
                ),
            },
    {
        match self.auth_service.read_token_reply(reply) {
            Ok(token) => {
                self.auth_token = Some(token);
                Ok(())
            },
            Err(e) => Err(e),
        }
    }

    /// The URL of the media-create POST for `image_url`, with the installed
    /// token; `NotAuthenticated` where none is installed.
    pub fn media_create_url(&self, image_url: &str) -> (r: Result<String, ServiceError>)
        ensures
            match self@.token {
                Some(t) => r matches Ok(u) && u@ == media_create_url_of(
                    self@.account,
                    image_url@,
                    t,
                ),
                None => r matches Err(ServiceError::NotAuthenticated),
            },
    {
        match &self.auth_token {
            Some(token) => {
                let mut url = graph_url(self.ig_user_id.as_str(), "/media");
                push_query_pair(&mut url, "?image_url=", image_url);
                push_query_pair(&mut url, "&access_token=", token.as_str());
                push_query_pair(&mut url, "&caption=", IG_POST_CAPTION);
                Ok(url)
            },
            None => Err(ServiceError::NotAuthenticated),
        }
    }

    /// The URL of the media-publish POST for `container_id`, with the
    /// installed token; `NotAuthenticated` where none is installed.
    pub fn media_publish_url(&self, container_id: &str) -> (r: Result<String, ServiceError>)
        ensures
            match self@.token {
                Some(t) => r matches Ok(u) && u@ == media_publish_url_of(
                    self@.account,
                    container_id@,
                    t,
                ),
                None => r matches Err(ServiceError::NotAuthenticated),
            },
    {
        match &self.auth_token {
            Some(token) => Ok(publish_url_with(self.ig_user_id.as_str(), container_id, token.as_str())),
            None => Err(ServiceError::NotAuthenticated),
        }
    }

    /// The installed token, if any.
    pub(crate) fn current_token(&self) -> (r: Option<String>)
        ensures
            match self@.token {
                Some(t) => r matches Some(x) && x@ == t,
                None => r is None,
            },
    {
        match &self.auth_token {
            Some(t) => Some(t.clone()),
            None => None,
        }
    }

    /// The account that posts are published to.
    pub fn account(&self) -> (r: &str)
        ensures
            r@ == self@.account,
    {
        self.ig_user_id.as_str()
    }
}

/// The URL of the media-publish POST for `container_id` with `token`.
pub fn publish_url_with(account: &str, container_id: &str, token: &str) -> (r: String)
    ensures
        r@ == media_publish_url_of(account@, container_id@, token@),
{
    let mut url = graph_url(account, "/media_publish");
    push_query_pair(&mut url, "?creation_id=", container_id);
    push_query_pair(&mut url, "&access_token=", token);
    url
}

/// Reads the media-create reply: the container id, or
/// `ContainerCreateFailed` carrying the reply's body.
pub fn read_container_reply(reply: &Upstream) -> (r: Result<String, ServiceError>)
    ensures
        match container_of_reply(*reply) {
            Some(id) => r matches Ok(x) && x@ == id,
            None => r matches Err(ServiceError::ContainerCreateFailed(d)) && d@ == reply_body(
                *reply,
            ),
        },
{
    match reply.success_field(CONTAINER_ID_MEMBER) {
        Some(id) => Ok(id),
        None => Err(ServiceError::ContainerCreateFailed(reply.body_text())),
    }
}

/// Reads the media-publish reply: success on 2xx, else `PublishFailed`
/// carrying the reply's body.
pub fn read_publish_reply(reply: &Upstream) -> (r: Result<(), ServiceError>)
    ensures
        if *reply matches Upstream::Reply { status, .. } && is_success_status(status) {
            r is Ok
        } else {
            r matches Err(ServiceError::PublishFailed(d)) && d@ == reply_body(*reply)
        },
{
    if reply.is_success() {
        Ok(())
    } else {
        Err(ServiceError::PublishFailed(reply.body_text()))
    }
}

/// An `Authenticate` never downgrades the publisher: a granted token is
/// installed, and a failed exchange leaves the publisher exactly as it was, so
/// an authenticated publisher stays authenticated.
pub proof fn lemma_token_monotonic(p: PublisherView, reply: Upstream)
    ensures
        token_of_reply(reply) is Some ==> authenticated(p, reply).token == token_of_reply(reply),
        token_of_reply(reply) is None ==> authenticated(p, reply) == p,
        p.token is Some ==> authenticated(p, reply).token is Some,
        authenticated(p, reply).account == p.account,
        authenticated(p, reply).auth == p.auth,
{
}

} // verus!
