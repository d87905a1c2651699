use vstd::prelude::*;

verus! {

/// What one outbound HTTP exchange came back with: a reply, or nothing at all
/// (the service was unreachable or the exchange timed out).
#[derive(Debug, Clone, PartialEq, Eq)]
pub enum Upstream {
    Reply { status: u16, body: String },
    Unreachable,
}

/// Whether `status` is a 2xx status.
pub open spec fn is_success_status(status: u16) -> bool {
    200 <= status && status < 300
}

/// The body of a reply; empty where no reply came.
pub open spec fn reply_body(u: Upstream) -> Seq<char> {
    match u {
        Upstream::Reply { body, .. } => body@,
        Upstream::Unreachable => Seq::empty(),
    }
}

/// The string member `key` of the JSON object that `body` holds, as
/// `serde_json` reads it; `None` where `body` is no JSON object or the member
/// is missing or no string.
pub uninterp spec fn json_string_member(body: Seq<char>, key: Seq<char>) -> Option<Seq<char>>;

/// The string member `key` of a 2xx reply's JSON body.
pub open spec fn success_member(u: Upstream, key: Seq<char>) -> Option<Seq<char>> {
    match u {
        Upstream::Reply { status, body } => if is_success_status(status) {
            json_string_member(body@, key)
        } else {
            None
        },
        Upstream::Unreachable => None,
    }
}

/// Relies on `serde_json::from_str` into `serde_json::Value`, then
/// `Value::get` and `Value::as_str`: the string member `key` of a JSON object.
#[verifier::external_body]
fn json_string_field(body: &str, key: &str) -> (r: Option<String>)
    ensures
        match r {
            Some(v) => json_string_member(body@, key@) == Some(v@),
            None => json_string_member(body@, key@) is None,
        },
{
    let value: serde_json::Value = serde_json::from_str(body).ok()?;
    value.get(key)?.as_str().map(String::from)
}

impl Upstream {
    /// Whether a reply came and its status is 2xx.
    pub fn is_success(&self) -> (r: bool)
        ensures
            r == (*self matches Upstream::Reply { status, .. } && is_success_status(status)),
    {
        match self {
            Upstream::Reply { status, .. } => 200 <= *status && *status < 300,
            Upstream::Unreachable => false,
        }
    }

    /// The body of the reply; empty where no reply came.
    pub fn body_text(&self) -> (r: String)
        ensures
            r@ == reply_body(*self),
    {
        match self {
            Upstream::Reply { body, .. } => body.clone(),
            Upstream::Unreachable => String::new(),
        }
    }

    /// The string member `key` of the JSON body of a 2xx reply.
    pub fn success_field(&self, key: &str) -> (r: Option<String>)
        ensures
            match r {
                Some(v) => success_member(*self, key@) == Some(v@),
                None => success_member(*self, key@) is None,
            },
    {
        match self {
            Upstream::Reply { status, body } => {
                if 200 <= *status && *status < 300 {
                    json_string_field(body.as_str(), key)
                } else {
                    None
                }
            },
            Upstream::Unreachable => None,
        }
    }
}

} // verus!
