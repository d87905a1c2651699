use instagen::error::ServiceError;
use instagen::images::{GeneratedImage, ImageBucket, SavedImage};

#[test]
fn saved_image_url_names_bucket_region_and_key() {
    let bucket = ImageBucket::new("bucket".to_string(), "us-east-1".to_string());
    let image = GeneratedImage::new("2024-01-01-00-00-00.jpg".to_string(), "aGVsbG8=".to_string());
    let saved = bucket.saved_image(&image);
    assert_eq!(saved.id(), "2024-01-01-00-00-00.jpg");
    assert_eq!(saved.url(), "https://bucket.s3.us-east-1.amazonaws.com/2024-01-01-00-00-00.jpg");
}

#[test]
fn upload_body_decodes_base64() {
    let bucket = ImageBucket::new("b".to_string(), "r".to_string());
    let image = GeneratedImage::new("k".to_string(), "aGVsbG8=".to_string());
    assert_eq!(bucket.upload_body(&image), Ok(b"hello".to_vec()));
    let bad = GeneratedImage::new("k".to_string(), "***".to_string());
    assert_eq!(bucket.upload_body(&bad), Err(ServiceError::UpstreamUnavailable));
}

#[test]
fn entities_keep_their_fields() {
    let g = GeneratedImage::new("id1".to_string(), "data".to_string());
    assert_eq!(g.id(), "id1");
    assert_eq!(g.data(), "data");
    let s = SavedImage::new("id2".to_string(), "https://x/y".to_string());
    assert_eq!(s.id(), "id2");
    assert_eq!(s.url(), "https://x/y");
}

#[test]
fn error_messages_name_the_kind() {
    assert_eq!(ServiceError::MalformedState.message(), "MalformedState");
    assert_eq!(ServiceError::PublishFailed("x".to_string()).message(), "PublishFailed: x");
    assert_eq!(ServiceError::ContainerCreateFailed(String::new()).kind_name(), "ContainerCreateFailed");
    assert_eq!(ServiceError::AuthExchangeFailed("d".to_string()).detail(), "d");
}
