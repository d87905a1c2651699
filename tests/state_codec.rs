use instagen::error::ServiceError;
use instagen::oauth::{generate_fb_oauth_url, oauth_state_param, redirect_uri};
use instagen::query::extract_query_parameter;
use instagen::state_codec::{encode_state, extract_image_url_from_state};

const STORED: &str = "https://bucket.s3.us-east-1.amazonaws.com/2024-01-01-00-00-00.jpg";

#[test]
fn blob_has_the_literal_envelope() {
    assert_eq!(
        encode_state(STORED),
        "{\"{s3_file_uri=https://bucket.s3.us-east-1.amazonaws.com/2024-01-01-00-00-00.jpg}\"}"
    );
}

#[test]
fn decodes_after_provider_quoting() {
    let state = "%7B%22%7Bs3_file_uri%3Dhttps%3A%2F%2Fex.com%2Fa.jpg%7D%22%7D";
    assert_eq!(extract_image_url_from_state(state), Ok("https://ex.com/a.jpg".to_string()));
}

#[test]
fn missing_prefix_is_malformed_state() {
    assert_eq!(extract_image_url_from_state("%7Bfoo%3Dbar%7D"), Err(ServiceError::MalformedState));
}

#[test]
fn other_key_prefix_is_refused() {
    let state = "{\"{file_uri=https://ex.com/a.jpg}\"}";
    assert_eq!(extract_image_url_from_state(state), Err(ServiceError::MalformedState));
}

#[test]
fn empty_payload_is_malformed_state() {
    assert_eq!(
        extract_image_url_from_state("{\"{s3_file_uri=}\"}"),
        Err(ServiceError::MalformedState)
    );
    assert_eq!(extract_image_url_from_state(""), Err(ServiceError::MalformedState));
    assert_eq!(extract_image_url_from_state("{}\"\"{"), Err(ServiceError::MalformedState));
}

#[test]
fn invalid_utf8_after_decoding_is_malformed_state() {
    assert_eq!(
        extract_image_url_from_state("s3_file_uri=%FF%FE"),
        Err(ServiceError::MalformedState)
    );
}

#[test]
fn raw_blob_round_trips() {
    let blob = encode_state(STORED);
    assert_eq!(extract_image_url_from_state(&blob), Ok(STORED.to_string()));
}

#[test]
fn encoded_blob_round_trips() {
    let param = oauth_state_param(STORED);
    assert_eq!(extract_image_url_from_state(&param), Ok(STORED.to_string()));
    let again = percent_encoding::percent_decode_str(&param).decode_utf8().unwrap();
    assert_eq!(extract_image_url_from_state(&again), Ok(STORED.to_string()));
}

#[test]
fn state_param_is_percent_encoded_blob() {
    assert_eq!(
        oauth_state_param("https://ex.com/a.jpg"),
        "%7B%22%7Bs3%5Ffile%5Furi%3Dhttps%3A%2F%2Fex%2Ecom%2Fa%2Ejpg%7D%22%7D"
    );
}

#[test]
fn trimming_is_stable() {
    let once = "s3_file_uri=https://ex.com/a.jpg";
    let wrapped = "{\"{s3_file_uri=https://ex.com/a.jpg}\"}";
    let a = extract_image_url_from_state(wrapped);
    let b = extract_image_url_from_state(once);
    assert_eq!(a, b);
    assert_eq!(extract_image_url_from_state(wrapped), a);
    assert_eq!(a, Ok("https://ex.com/a.jpg".to_string()));
}

#[test]
fn trailing_envelope_character_of_a_reference_is_lost() {
    let blob = encode_state("https://ex.com/a}");
    assert_eq!(extract_image_url_from_state(&blob), Ok("https://ex.com/a".to_string()));
}

#[test]
fn oauth_url_carries_the_stored_reference() {
    let redirect = redirect_uri("127.0.0.1:8080");
    assert_eq!(redirect, "https://127.0.0.1:8080/api/perform_post_action");
    let url = generate_fb_oauth_url("986335749574127", &redirect, STORED);
    let prefix = "https://www.facebook.com/v19.0/dialog/oauth?";
    assert!(url.starts_with(prefix));
    let query = &url[prefix.len()..];
    assert_eq!(extract_query_parameter(query, "client_id"), Some("986335749574127"));
    assert_eq!(
        extract_query_parameter(query, "scope"),
        Some("instagram_basic,instagram_content_publish,pages_show_list")
    );
    let redirect_param = extract_query_parameter(query, "redirect_uri").unwrap();
    let decoded = percent_encoding::percent_decode_str(redirect_param).decode_utf8().unwrap();
    assert_eq!(decoded, redirect.as_str());
    let state = extract_query_parameter(query, "state").unwrap();
    let once = percent_encoding::percent_decode_str(state).decode_utf8().unwrap();
    assert_eq!(
        once,
        "{\"{s3_file_uri=https://bucket.s3.us-east-1.amazonaws.com/2024-01-01-00-00-00.jpg}\"}"
    );
    assert_eq!(extract_image_url_from_state(state), Ok(STORED.to_string()));
}

#[test]
fn query_parameters_are_found_by_exact_name() {
    let q = "xcode=1&code=AQ2&state=abc&extra=9";
    assert_eq!(extract_query_parameter(q, "code"), Some("AQ2"));
    assert_eq!(extract_query_parameter(q, "state"), Some("abc"));
    assert_eq!(extract_query_parameter(q, "extra"), Some("9"));
    assert_eq!(extract_query_parameter(q, "missing"), None);
    assert_eq!(extract_query_parameter("code=&state=s", "code"), Some(""));
    assert_eq!(extract_query_parameter("code", "code"), None);
    assert_eq!(extract_query_parameter("", "code"), None);
    assert_eq!(extract_query_parameter("a=1&code=x=y", "code"), Some("x=y"));
    assert_eq!(extract_query_parameter("code=1&code=2", "code"), Some("1"));
}

#[test]
fn parameters_are_found_in_a_request_line() {
    let request = "GET /api/perform_post_action?code=abc&state=xyz HTTP/1.1";
    assert_eq!(extract_query_parameter(request, "code"), Some("abc"));
    assert_eq!(extract_query_parameter(request, "state"), Some("xyz"));
    assert_eq!(extract_query_parameter(request, "scope"), None);
    assert_eq!(extract_query_parameter("GET /?xcode=1&code=2 HTTP/1.1", "code"), Some("2"));
    assert_eq!(
        extract_query_parameter("GET /?state=s HTTP/1.1\r\nHost: h\r\n\r\n", "state"),
        Some("s")
    );
}
