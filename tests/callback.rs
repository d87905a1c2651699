use instagen::auth::{AuthCredentials, FacebookAuthService};
use instagen::callback::{CallbackAction, CallbackSession};
use instagen::error::ServiceError;
use instagen::http::Upstream;
use instagen::oauth::oauth_state_param;
use instagen::publisher::{read_container_reply, read_publish_reply, InstagramPostRepository};

fn publisher() -> InstagramPostRepository {
    let auth = FacebookAuthService::new(
        "app1".to_string(),
        "SECRET-REDACTED".to_string(),
        "https://127.0.0.1:8080/api/perform_post_action".to_string(),
    );
    InstagramPostRepository::new("17841".to_string(), auth)
}

fn ok(body: &str) -> Upstream {
    Upstream::Reply { status: 200, body: body.to_string() }
}

fn url_of(a: &CallbackAction) -> String {
    match a {
        CallbackAction::ExchangeToken(u)
        | CallbackAction::CreateContainer(u)
        | CallbackAction::PublishContainer(u) => u.clone(),
        CallbackAction::Respond(r) => panic!("unexpected response {:?}", r),
    }
}

const CAPTION: &str = "%23berserk%20%23darksouls%20%23ai%20%23guts%20%23fantasy%20%23darkfantasy%20%23fantasyart%20%23aiart%20%23gutsberserk%20%23lovecraft%20%23undead%20%23soulsborne";

#[test]
fn auth_then_publish() {
    let mut p = publisher();
    let query = format!("code=AQxyz&state={}", oauth_state_param("https://ex.com/a.jpg"));
    let (mut s, a) = CallbackSession::start(&p, &query);
    assert!(matches!(a, CallbackAction::ExchangeToken(_)));
    assert_eq!(
        url_of(&a),
        "https://graph.facebook.com/v19.0/oauth/access_token?client_id=app1&redirect_uri=https%3A%2F%2F127%2E0%2E0%2E1%3A8080%2Fapi%2Fperform%5Fpost%5Faction&client_secret=SECRET%2DREDACTED&code=AQxyz"
    );
    assert!(!p.is_authenticated());
    let a = s.advance(&mut p, &ok("{\"access_token\":\"T\"}"));
    assert!(p.is_authenticated());
    assert!(matches!(a, CallbackAction::CreateContainer(_)));
    assert_eq!(
        url_of(&a),
        format!(
            "https://graph.facebook.com/v19.0/17841/media?image_url=https%3A%2F%2Fex%2Ecom%2Fa%2Ejpg&access_token=T&caption={}",
            CAPTION
        )
    );
    let a = s.advance(&mut p, &ok("{\"id\":\"C\"}"));
    assert!(matches!(a, CallbackAction::PublishContainer(_)));
    assert_eq!(
        url_of(&a),
        "https://graph.facebook.com/v19.0/17841/media_publish?creation_id=C&access_token=T"
    );
    let a = s.advance(&mut p, &ok("{\"id\":\"P\"}"));
    assert!(matches!(a, CallbackAction::Respond(Ok(()))));
    assert!(s.is_finished());
}

#[test]
fn missing_prefix_makes_no_outbound_call() {
    let p = publisher();
    let (s, a) = CallbackSession::start(&p, "code=AQ1&state=%7Bfoo%3Dbar%7D");
    assert!(matches!(a, CallbackAction::Respond(Err(ServiceError::MalformedState))));
    assert!(s.is_finished());
}

#[test]
fn missing_code_or_state_is_malformed_callback() {
    let p = publisher();
    for q in ["state=abc", "code=AQ1", "", "code=&state=%7B%7D", "other=1"] {
        let (s, a) = CallbackSession::start(&p, q);
        assert!(matches!(a, CallbackAction::Respond(Err(ServiceError::MalformedCallback))), "{}", q);
        assert!(s.is_finished());
    }
}

#[test]
fn token_exchange_failure_leaves_publisher_unchanged() {
    let mut p = publisher();
    let query = format!("code=AQbad&state={}", oauth_state_param("https://ex.com/a.jpg"));
    let (mut s, _) = CallbackSession::start(&p, &query);
    let a = s.advance(&mut p, &Upstream::Reply { status: 400, body: "bad code".to_string() });
    match a {
        CallbackAction::Respond(Err(e)) => {
            assert_eq!(e, ServiceError::AuthExchangeFailed("bad code".to_string()));
            assert_eq!(e.message(), "AuthExchangeFailed: bad code");
        }
        other => panic!("unexpected {:?}", other),
    }
    assert!(!p.is_authenticated());
    assert!(s.is_finished());
}

#[test]
fn failed_reauthentication_keeps_the_old_token() {
    let mut p = publisher();
    assert_eq!(p.authenticate(&ok("{\"access_token\":\"OLD\"}")), Ok(()));
    assert_eq!(
        p.authenticate(&Upstream::Unreachable),
        Err(ServiceError::AuthExchangeFailed(String::new()))
    );
    assert!(p.is_authenticated());
    assert_eq!(
        p.media_publish_url("C").unwrap(),
        "https://graph.facebook.com/v19.0/17841/media_publish?creation_id=C&access_token=OLD"
    );
}

#[test]
fn concurrent_callbacks_use_their_own_tokens() {
    let mut p = publisher();
    let q1 = format!("code=AQ1&state={}", oauth_state_param("https://ex.com/1.jpg"));
    let q2 = format!("code=AQ2&state={}", oauth_state_param("https://ex.com/2.jpg"));
    let (mut s1, _) = CallbackSession::start(&p, &q1);
    let (mut s2, _) = CallbackSession::start(&p, &q2);
    let a1 = s1.advance(&mut p, &ok("{\"access_token\":\"T1\"}"));
    assert!(url_of(&a1).contains("access_token=T1&"));
    let a2 = s2.advance(&mut p, &ok("{\"access_token\":\"T2\"}"));
    assert!(url_of(&a2).contains("access_token=T2&"));
    let b1 = s1.advance(&mut p, &ok("{\"id\":\"C1\"}"));
    assert_eq!(
        url_of(&b1),
        "https://graph.facebook.com/v19.0/17841/media_publish?creation_id=C1&access_token=T1"
    );
    let b2 = s2.advance(&mut p, &ok("{\"id\":\"C2\"}"));
    assert_eq!(
        url_of(&b2),
        "https://graph.facebook.com/v19.0/17841/media_publish?creation_id=C2&access_token=T2"
    );
}

#[test]
fn container_failure_carries_the_body() {
    let mut p = publisher();
    let query = format!("code=AQ1&state={}", oauth_state_param("https://ex.com/a.jpg"));
    let (mut s, _) = CallbackSession::start(&p, &query);
    s.advance(&mut p, &ok("{\"access_token\":\"T\"}"));
    let a = s.advance(&mut p, &Upstream::Reply { status: 500, body: "oops".to_string() });
    assert!(matches!(a, CallbackAction::Respond(Err(ServiceError::ContainerCreateFailed(ref d))) if d == "oops"));
    assert!(s.is_finished());
}

#[test]
fn publish_failure_carries_the_body() {
    let mut p = publisher();
    let query = format!("code=AQ1&state={}", oauth_state_param("https://ex.com/a.jpg"));
    let (mut s, _) = CallbackSession::start(&p, &query);
    s.advance(&mut p, &ok("{\"access_token\":\"T\"}"));
    s.advance(&mut p, &ok("{\"id\":\"C\"}"));
    let a = s.advance(&mut p, &Upstream::Reply { status: 403, body: "denied".to_string() });
    assert!(matches!(a, CallbackAction::Respond(Err(ServiceError::PublishFailed(ref d))) if d == "denied"));
}

#[test]
fn unreadable_replies_fail_their_step() {
    assert_eq!(
        read_container_reply(&ok("not json")),
        Err(ServiceError::ContainerCreateFailed("not json".to_string()))
    );
    assert_eq!(
        read_container_reply(&ok("{\"id\":7}")),
        Err(ServiceError::ContainerCreateFailed("{\"id\":7}".to_string()))
    );
    assert_eq!(read_container_reply(&ok("{\"id\":\"C9\",\"x\":1}")), Ok("C9".to_string()));
    assert_eq!(read_publish_reply(&Upstream::Unreachable), Err(ServiceError::PublishFailed(String::new())));
    assert_eq!(read_publish_reply(&Upstream::Reply { status: 204, body: String::new() }), Ok(()));
}

#[test]
fn publish_before_authentication_is_refused() {
    let p = publisher();
    assert_eq!(p.media_create_url("https://ex.com/a.jpg"), Err(ServiceError::NotAuthenticated));
    assert_eq!(p.media_publish_url("C"), Err(ServiceError::NotAuthenticated));
}

#[test]
fn credentials_map_names_to_values() {
    let mut c = AuthCredentials::new();
    assert_eq!(c.get("code"), None);
    c.insert("code".to_string(), "A".to_string());
    c.insert("other".to_string(), "B".to_string());
    c.insert("code".to_string(), "C".to_string());
    assert_eq!(c.get("code"), Some("C".to_string()));
    assert_eq!(c.get("other"), Some("B".to_string()));
    let p = publisher();
    assert_eq!(p.token_request_url(&AuthCredentials::new()), Err(ServiceError::MalformedCallback));
    assert_eq!(AuthCredentials::with_code("Z".to_string()).get("code"), Some("Z".to_string()));
}

#[test]
fn credentials_replace_a_name_in_place() {
    let mut c = AuthCredentials::with_code("A".to_string());
    c.insert("state".to_string(), "S".to_string());
    c.insert("code".to_string(), "B".to_string());
    c.insert("code".to_string(), "C".to_string());
    assert_eq!(c.get("code"), Some("C".to_string()));
    assert_eq!(c.get("state"), Some("S".to_string()));
    assert_eq!(c.get("cod"), None);
}

#[test]
fn a_finished_session_answers_again_without_outbound_calls() {
    let mut p = publisher();
    let (mut s, _) = CallbackSession::start(&p, "state=abc");
    assert!(s.is_finished());
    let a = s.advance(&mut p, &ok("{\"access_token\":\"T\"}"));
    assert!(matches!(a, CallbackAction::Respond(Err(ServiceError::MalformedCallback))));
    assert!(!p.is_authenticated());
}
