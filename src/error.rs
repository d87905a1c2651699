use vstd::prelude::*;

verus! {

/// The failures that a request to the service can end in.
///
/// Upstream failures carry the body that the upstream service answered with,
/// so that a diagnostic response can show it; secrets never go in here.
#[derive(Debug, Clone, PartialEq, Eq)]
pub enum ServiceError {
    /// Input missing or malformed at the public API.
    BadRequest,
    /// The OAuth redirect lacks `code` or `state`.
    MalformedCallback,
    /// The state blob fails percent-decoding or the prefix check.
    MalformedState,
    /// The token endpoint failed, answered non-2xx, or sent an unreadable body.
    AuthExchangeFailed(String),
    /// A publish was attempted before any token was installed.
    NotAuthenticated,
    /// The media-create step failed; nothing was published.
    ContainerCreateFailed(String),
    /// The media-publish step failed; a container exists unpublished.
    PublishFailed(String),
    /// An outbound service could not be reached.
    UpstreamUnavailable,
    /// Startup configuration is missing or invalid.
    ConfigError,
}

/// The mathematical value of a [`ServiceError`]: details as character sequences.
pub enum ErrorView {
    BadRequest,
    MalformedCallback,
    MalformedState,
    AuthExchangeFailed(Seq<char>),
    NotAuthenticated,
    ContainerCreateFailed(Seq<char>),
    PublishFailed(Seq<char>),
    UpstreamUnavailable,
    ConfigError,
}

impl View for ServiceError {
    type V = ErrorView;

    open spec fn view(&self) -> ErrorView {
        match self {
            ServiceError::BadRequest => ErrorView::BadRequest,
            ServiceError::MalformedCallback => ErrorView::MalformedCallback,
            ServiceError::MalformedState => ErrorView::MalformedState,
            ServiceError::AuthExchangeFailed(d) => ErrorView::AuthExchangeFailed(d@),
            ServiceError::NotAuthenticated => ErrorView::NotAuthenticated,
            ServiceError::ContainerCreateFailed(d) => ErrorView::ContainerCreateFailed(d@),
            ServiceError::PublishFailed(d) => ErrorView::PublishFailed(d@),
            ServiceError::UpstreamUnavailable => ErrorView::UpstreamUnavailable,
            ServiceError::ConfigError => ErrorView::ConfigError,
        }
    }
}

impl ServiceError {
    /// The semantic name of the error kind, as shown in a diagnostic response.
    pub fn kind_name(&self) -> (r: &'static str)
        ensures
            r@ == kind_name_of(self@),
    {
        match self {
            ServiceError::BadRequest => "BadRequest",
            ServiceError::MalformedCallback => "MalformedCallback",
            ServiceError::MalformedState => "MalformedState",
            ServiceError::AuthExchangeFailed(_) => "AuthExchangeFailed",
            ServiceError::NotAuthenticated => "NotAuthenticated",
            ServiceError::ContainerCreateFailed(_) => "ContainerCreateFailed",
            ServiceError::PublishFailed(_) => "PublishFailed",
            ServiceError::UpstreamUnavailable => "UpstreamUnavailable",
            ServiceError::ConfigError => "ConfigError",
        }
    }

    /// The upstream body carried by the error, empty where there is none.
    pub fn detail(&self) -> (r: String)
        ensures
            r@ == detail_of(self@),
    {
        match self {
            ServiceError::AuthExchangeFailed(d) => d.clone(),
            ServiceError::ContainerCreateFailed(d) => d.clone(),
            ServiceError::PublishFailed(d) => d.clone(),
            _ => String::new(),
        }
    }

    /// The diagnostic text of a failed request: the kind, then `": "` and the
    /// upstream body where there is one.
    pub fn message(&self) -> (r: String)
        ensures
            r@ == message_of(self@),
    {
        let mut r = String::from_str(self.kind_name());
        let d = self.detail();
        if d.unicode_len() > 0 {
            r.append(": ");
            r.append(d.as_str());
        }
        r
    }
}

pub open spec fn kind_name_of(e: ErrorView) -> Seq<char> {
    match e {
        ErrorView::BadRequest => "BadRequest"@,
        ErrorView::MalformedCallback => "MalformedCallback"@,
        ErrorView::MalformedState => "MalformedState"@,
        ErrorView::AuthExchangeFailed(_) => "AuthExchangeFailed"@,
        ErrorView::NotAuthenticated => "NotAuthenticated"@,
        ErrorView::ContainerCreateFailed(_) => "ContainerCreateFailed"@,
        ErrorView::PublishFailed(_) => "PublishFailed"@,
        ErrorView::UpstreamUnavailable => "UpstreamUnavailable"@,
        ErrorView::ConfigError => "ConfigError"@,
    }
}

pub open spec fn detail_of(e: ErrorView) -> Seq<char> {
    match e {
        ErrorView::AuthExchangeFailed(d) => d,
        ErrorView::ContainerCreateFailed(d) => d,
        ErrorView::PublishFailed(d) => d,
        _ => Seq::empty(),
    }
}

pub open spec fn message_of(e: ErrorView) -> Seq<char> {
    if detail_of(e).len() > 0 {
        kind_name_of(e) + ": "@ + detail_of(e)
    } else {
        kind_name_of(e)
    }
}

} // verus!
