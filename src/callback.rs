use vstd::prelude::*;

use crate::auth::{token_of_reply, token_request_url_of, AuthCredentials};
use crate::encoding::{percent_decode, percent_decoded};
use crate::error::{ErrorView, ServiceError};
use crate::http::{is_success_status, reply_body, Upstream};
use crate::publisher::{
    authenticated, container_of_reply, media_create_url_of, media_publish_url_of,
    publish_url_with, read_container_reply, read_publish_reply, InstagramPostRepository,
    PublisherView,
};
use crate::query::{extract_query_parameter, query_value};
use crate::state_codec::{decoded_state, extract_image_url_from_state};

verus! {

/// Where one OAuth callback stands.
pub enum CallbackPhase {
    /// The token exchange was sent; the image reference waits for publishing.
    AwaitingToken { image_url: String },
    /// The token was installed and the media-create POST sent with it.
    AwaitingContainer { token: String },
    /// The media-publish POST was sent.
    AwaitingPublish,
    /// The callback has answered.
    Finished,
}

/// The mathematical value of a [`CallbackPhase`].
pub enum PhaseView {
    AwaitingToken { image_url: Seq<char> },
    AwaitingContainer { token: Seq<char> },
    AwaitingPublish,
    Finished,
}

impl View for CallbackPhase {
    type V = PhaseView;

    open spec fn view(&self) -> PhaseView {
        match self {
            CallbackPhase::AwaitingToken { image_url } => PhaseView::AwaitingToken {
                image_url: image_url@,
            },
            CallbackPhase::AwaitingContainer { token } => PhaseView::AwaitingContainer {
                token: token@,
            },
            CallbackPhase::AwaitingPublish => PhaseView::AwaitingPublish,
            CallbackPhase::Finished => PhaseView::Finished,
        }
    }
}

/// What the caller must do next for a callback.
#[derive(Debug)]
pub enum CallbackAction {
    /// GET this URL at the token endpoint and hand back what came.
    ExchangeToken(String),
    /// POST to this media-create URL and hand back what came.
    CreateContainer(String),
    /// POST to this media-publish URL and hand back what came.
    PublishContainer(String),
    /// Answer the callback request: success, or the first error observed.
    Respond(Result<(), ServiceError>),
}

/// The mathematical value of a [`CallbackAction`]; `Respond(None)` is success.
pub enum ActionView {
    ExchangeToken(Seq<char>),
    CreateContainer(Seq<char>),
    PublishContainer(Seq<char>),
    Respond(Option<ErrorView>),
}

impl View for CallbackAction {
    type V = ActionView;

    open spec fn view(&self) -> ActionView {
        match self {
            CallbackAction::ExchangeToken(u) => ActionView::ExchangeToken(u@),
            CallbackAction::CreateContainer(u) => ActionView::CreateContainer(u@),
            CallbackAction::PublishContainer(u) => ActionView::PublishContainer(u@),
            CallbackAction::Respond(r) => ActionView::Respond(
                match r {
                    Ok(_) => None,
                    Err(e) => Some(e@),
                },
            ),
        }
    }
}

/// The authorization code that a raw `code` value carries: percent-decoded
/// and not empty.
pub open spec fn callback_code(raw: Seq<char>) -> Option<Seq<char>> {
    match percent_decoded(raw) {
        Some(c) => if c.len() > 0 {
            Some(c)
        } else {
            None
        },
        None => None,
    }
}

/// How a callback with the query string `q` starts.
pub open spec fn start_of(p: PublisherView, q: Seq<char>) -> (PhaseView, ActionView) {
    let fail = |e: ErrorView| (PhaseView::Finished, ActionView::Respond(Some(e)));
    match (query_value(q, "code"@), query_value(q, "state"@)) {
        (Some(raw_code), Some(raw_state)) => match callback_code(raw_code) {
            None => fail(ErrorView::MalformedCallback),
            Some(code) => match decoded_state(raw_state) {
                None => fail(ErrorView::MalformedState),
                Some(image_url) => (
                    PhaseView::AwaitingToken { image_url },
                    ActionView::ExchangeToken(token_request_url_of(p.auth, code)),
                ),
            },
        },
        _ => fail(ErrorView::MalformedCallback),
    }
}

/// How a callback in `phase` moves on when the outbound exchange it asked
/// for came back with `reply`: the publisher, phase and action after it.
pub open spec fn advance_of(p: PublisherView, phase: PhaseView, reply: Upstream) -> (
    PublisherView,
    PhaseView,
    ActionView,
) {
    let body = reply_body(reply);
    match phase {
        PhaseView::AwaitingToken { image_url } => match token_of_reply(reply) {
            Some(t) => (
                authenticated(p, reply),
                PhaseView::AwaitingContainer { token: t },
                ActionView::CreateContainer(media_create_url_of(p.account, image_url, t)),
            ),
            None => (
                p,
                PhaseView::Finished,
                ActionView::Respond(Some(ErrorView::AuthExchangeFailed(body))),
            ),
        },
        PhaseView::AwaitingContainer { token } => match container_of_reply(reply) {
            Some(id) => (
                p,
                PhaseView::AwaitingPublish,
                ActionView::PublishContainer(media_publish_url_of(p.account, id, token)),
            ),
            None => (
                p,
                PhaseView::Finished,
                ActionView::Respond(Some(ErrorView::ContainerCreateFailed(body))),
            ),
        },
        PhaseView::AwaitingPublish => if reply matches Upstream::Reply { status, .. }
            && is_success_status(status) {
            (p, PhaseView::Finished, ActionView::Respond(None))
        } else {
            (p, PhaseView::Finished, ActionView::Respond(Some(ErrorView::PublishFailed(body))))
        },
        PhaseView::Finished => (p, PhaseView::Finished, ActionView::Respond(
            Some(ErrorView::MalformedCallback),
        )),
    }
}

/// One OAuth callback, driven through authenticate-then-publish. The caller
/// performs each action and hands back what came of it; the publisher must be
/// held exclusively from `start` until the session finishes.
pub struct CallbackSession {
    phase: CallbackPhase,
}

impl View for CallbackSession {
    type V = PhaseView;

    closed spec fn view(&self) -> PhaseView {
        self.phase@
    }
}

fn finished_with(e: ServiceError) -> (r: (CallbackSession, CallbackAction))
    ensures
        r.0@ is Finished,
        r.1@ == ActionView::Respond(Some(e@)),
{
    (CallbackSession { phase: CallbackPhase::Finished }, CallbackAction::Respond(Err(e)))
}

impl CallbackSession {
    /// Starts a callback from the raw query string of the redirect: checks
    /// `code` and `state` and asks for the token exchange.
    pub fn start(publisher: &InstagramPostRepository, query: &str) -> (r: (
        CallbackSession,
        CallbackAction,
    ))
        ensures
            (r.0@, r.1@) == start_of(publisher@, query@),
    {
        let raw_code = extract_query_parameter(query, "code");
        let raw_state = extract_query_parameter(query, "state");
        let (raw_code, raw_state) = match (raw_code, raw_state) {
            (Some(c), Some(s)) => (c, s),
            _ => {
                return finished_with(ServiceError::MalformedCallback);
            },
        };
        let code = match percent_decode(raw_code) {
            Some(c) => c,
            None => {
                return finished_with(ServiceError::MalformedCallback);
            },
        };
        if code.unicode_len() == 0 {
            return finished_with(ServiceError::MalformedCallback);
        }
        let image_url = match extract_image_url_from_state(raw_state) {
            Ok(u) => u,
            Err(e) => {
                return finished_with(e);
            },
        };
        let ghost c = code@;
        let credentials = AuthCredentials::with_code(code);
        let url = match publisher.token_request_url(&credentials) {
            Ok(u) => u,
            Err(e) => {
                return finished_with(e);
            },
        };
        assert(url@ == token_request_url_of(publisher@.auth, c));
        (
            CallbackSession { phase: CallbackPhase::AwaitingToken { image_url } },
            CallbackAction::ExchangeToken(url),
        )
    }

    /// Whether the callback has answered.
    pub fn is_finished(&self) -> (r: bool)
        ensures
            r == self@ is Finished,
    {
        match self.phase {
            CallbackPhase::Finished => true,
            _ => false,
        }
    }

    /// Moves the callback on with what the last action's exchange came back
    /// with. The token step installs the token on `publisher`, and the
    /// media-create POST that follows is built in the same step, with it. A
    /// session that has already answered answers `MalformedCallback` again.
    pub fn advance(&mut self, publisher: &mut InstagramPostRepository, reply: &Upstream) -> (r:
        CallbackAction)
        ensures
            (final(publisher)@, final(self)@, r@) == advance_of(old(publisher)@, old(self)@, *reply),
    {
        let phase = &self.phase;
        match phase {
            CallbackPhase::AwaitingToken { image_url } => {
                let image_url = image_url.clone();
                self.phase = CallbackPhase::Finished;
                match publisher.authenticate(reply) {
                    Ok(()) => {},
                    Err(e) => {
                        return CallbackAction::Respond(Err(e));
                    },
                }
                let token = match publisher.current_token() {
                    Some(t) => t,
                    None => {
                        return CallbackAction::Respond(Err(ServiceError::NotAuthenticated));
                    },
                };
                match publisher.media_create_url(image_url.as_str()) {
                    Ok(url) => {
                        self.phase = CallbackPhase::AwaitingContainer { token };
                        CallbackAction::CreateContainer(url)
                    },
                    Err(e) => CallbackAction::Respond(Err(e)),
                }
            },
            CallbackPhase::AwaitingContainer { token } => {
                let token = token.clone();
                self.phase = CallbackPhase::Finished;
                match read_container_reply(reply) {
                    Ok(id) => {
                        self.phase = CallbackPhase::AwaitingPublish;
                        CallbackAction::PublishContainer(
                            publish_url_with(publisher.account(), id.as_str(), token.as_str()),
                        )
                    },
                    Err(e) => CallbackAction::Respond(Err(e)),
                }
            },
            CallbackPhase::AwaitingPublish => {
                self.phase = CallbackPhase::Finished;
                CallbackAction::Respond(read_publish_reply(reply))
            },
            CallbackPhase::Finished => CallbackAction::Respond(Err(ServiceError::MalformedCallback)),
        }
    }
}

/// The actions of a session in `phase`, when the exchanges it asks for come
/// back with `replies` in turn; it stops once the session has answered.
pub open spec fn trace(p: PublisherView, phase: PhaseView, replies: Seq<Upstream>) -> Seq<
    ActionView,
>
    decreases replies.len(),
{
    if replies.len() == 0 || phase is Finished {
        Seq::empty()
    } else {
        let (p2, phase2, a) = advance_of(p, phase, replies[0]);
        seq![a] + trace(p2, phase2, replies.drop_first())
    }
}

/// The actions of a whole callback with query string `q`.
pub open spec fn callback_trace(p: PublisherView, q: Seq<char>, replies: Seq<Upstream>) -> Seq<
    ActionView,
> {
    let (phase, a) = start_of(p, q);
    seq![a] + trace(p, phase, replies)
}

/// The image reference that the `state` of the query string `q` carries.
pub open spec fn callback_image(q: Seq<char>) -> Seq<char> {
    decoded_state(query_value(q, "state"@)->0)->0
}

proof fn lemma_trace_finished(p: PublisherView, replies: Seq<Upstream>)
    ensures
        trace(p, PhaseView::Finished, replies) == Seq::<ActionView>::empty(),
{
}

proof fn lemma_trace_step(p: PublisherView, phase: PhaseView, replies: Seq<Upstream>)
    requires
        replies.len() > 0,
        !(phase is Finished),
    ensures
        trace(p, phase, replies) == seq![advance_of(p, phase, replies[0]).2] + trace(
            advance_of(p, phase, replies[0]).0,
            advance_of(p, phase, replies[0]).1,
            replies.drop_first(),
        ),
{
}

/// Within one callback the outbound calls come in order, each with what the
/// one before it returned: the token exchange first; the media-create POST
/// only after that exchange granted a token, and with that very token; the
/// media-publish POST only after the media-create POST returned a container,
/// with that container and the same token. No call uses a token that another
/// callback's exchange granted.
pub proof fn lemma_callback_order(p: PublisherView, q: Seq<char>, replies: Seq<Upstream>)
    ensures
        callback_trace(p, q, replies).len() <= 4,
        forall|i: int|
            0 <= i < callback_trace(p, q, replies).len() && #[trigger] callback_trace(
                p,
                q,
                replies,
            )[i] is ExchangeToken ==> i == 0,
        forall|i: int|
            0 <= i < callback_trace(p, q, replies).len() && #[trigger] callback_trace(
                p,
                q,
                replies,
            )[i] is CreateContainer ==> {
                &&& i == 1
                &&& callback_trace(p, q, replies)[0] is ExchangeToken
                &&& token_of_reply(replies[0]) is Some
                &&& callback_trace(p, q, replies)[1] == ActionView::CreateContainer(
                    media_create_url_of(
                        p.account,
                        callback_image(q),
                        token_of_reply(replies[0])->0,
                    ),
                )
            },
        forall|i: int|
            0 <= i < callback_trace(p, q, replies).len() && #[trigger] callback_trace(
                p,
                q,
                replies,
            )[i] is PublishContainer ==> {
                &&& i == 2
                &&& callback_trace(p, q, replies)[1] is CreateContainer
                &&& token_of_reply(replies[0]) is Some
                &&& container_of_reply(replies[1]) is Some
                &&& callback_trace(p, q, replies)[2] == ActionView::PublishContainer(
                    media_publish_url_of(
                        p.account,
                        container_of_reply(replies[1])->0,
                        token_of_reply(replies[0])->0,
                    ),
                )
            },
{
    let acts = callback_trace(p, q, replies);
    let (phase0, a0) = start_of(p, q);
    assert(acts == seq![a0] + trace(p, phase0, replies));
    if phase0 is Finished || replies.len() == 0 {
        assert(trace(p, phase0, replies) == Seq::<ActionView>::empty());
        assert(acts =~= seq![a0]);
        assert(!(a0 is CreateContainer) && !(a0 is PublishContainer));
        return;
    }
    assert(phase0 is AwaitingToken);
    assert(a0 is ExchangeToken);
    let img = phase0->image_url;
    assert(img == callback_image(q));
    lemma_trace_step(p, phase0, replies);
    let (p1, phase1, a1) = advance_of(p, phase0, replies[0]);
    let r1 = replies.drop_first();
    let t1 = trace(p1, phase1, r1);
    assert(acts =~= seq![a0, a1] + t1);
    if phase1 is Finished || r1.len() == 0 {
        assert(t1 == Seq::<ActionView>::empty());
        assert(acts =~= seq![a0, a1]);
        return;
    }
    let t = token_of_reply(replies[0])->0;
    assert(phase1 == PhaseView::AwaitingContainer { token: t });
    assert(p1.account == p.account);
    lemma_trace_step(p1, phase1, r1);
    let (p2, phase2, a2) = advance_of(p1, phase1, r1[0]);
    let r2 = r1.drop_first();
    let t2 = trace(p2, phase2, r2);
    assert(r1[0] == replies[1]);
    assert(acts =~= seq![a0, a1, a2] + t2);
    if phase2 is Finished || r2.len() == 0 {
        assert(t2 == Seq::<ActionView>::empty());
        assert(acts =~= seq![a0, a1, a2]);
        return;
    }
    assert(phase2 is AwaitingPublish);
    lemma_trace_step(p2, phase2, r2);
    let (p3, phase3, a3) = advance_of(p2, phase2, r2[0]);
    assert(phase3 is Finished);
    lemma_trace_finished(p3, r2.drop_first());
    assert(a3 is Respond);
    assert(acts =~= seq![a0, a1, a2, a3]);
}

} // verus!
