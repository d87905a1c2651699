use vstd::prelude::*;

use crate::error::ServiceError;

verus! {

/// An image as the generator produced it: an id and its base64 data.
#[derive(Debug, Clone)]
pub struct GeneratedImage {
    id: String,
    data: String,
}

impl GeneratedImage {
    pub closed spec fn id_view(&self) -> Seq<char> {
        self.id@
    }

    pub closed spec fn data_view(&self) -> Seq<char> {
        self.data@
    }

    pub fn new(id: String, data: String) -> (r: Self)
        ensures
            r.id_view() == id@,
            r.data_view() == data@,
    {
        GeneratedImage { id, data }
    }

    pub fn id(&self) -> (r: &str)
        ensures
            r@ == self.id_view(),
    {
        self.id.as_str()
    }

    pub fn data(&self) -> (r: &str)
        ensures
            r@ == self.data_view(),
    {
        self.data.as_str()
    }
}

/// An image committed to the object store: its id (the object key) and the
/// absolute URL at which the social graph can fetch it.
#[derive(Debug, Clone)]
pub struct SavedImage {
    id: String,
    url: String,
}

impl SavedImage {
    pub closed spec fn id_view(&self) -> Seq<char> {
        self.id@
    }

    pub closed spec fn url_view(&self) -> Seq<char> {
        self.url@
    }

    pub fn new(id: String, url: String) -> (r: Self)
        ensures
            r.id_view() == id@,
            r.url_view() == url@,
    {
        SavedImage { id, url }
    }

    pub fn id(&self) -> (r: &str)
        ensures
            r@ == self.id_view(),
    {
        self.id.as_str()
    }

    pub fn url(&self) -> (r: &str)
        ensures
            r@ == self.url_view(),
    {
        self.url.as_str()
    }
}

/// An image at either stage of its life.
#[derive(Debug, Clone)]
pub enum Image {
    Generated(GeneratedImage),
    Saved(SavedImage),
}

/// The bytes that standard base64 (with padding) encodes as `s`, as the
/// `base64` crate decodes them; `None` where `s` is no such encoding.
pub uninterp spec fn base64_decoded(s: Seq<char>) -> Option<Seq<u8>>;

/// Relies on `base64::Engine::decode` with the `STANDARD` engine.
#[verifier::external_body]
fn decode_base64(s: &str) -> (r: Option<Vec<u8>>)
    ensures
        match r {
            Some(b) => base64_decoded(s@) == Some(b@),
            None => base64_decoded(s@) is None,
        },
{
    base64::Engine::decode(&base64::engine::general_purpose::STANDARD, s.as_bytes()).ok()
}

/// The public URL of the object `key` in `bucket` of `region`.
pub open spec fn object_url_of(bucket: Seq<char>, region: Seq<char>, key: Seq<char>) -> Seq<char> {
    "https://"@ + bucket + ".s3."@ + region + ".amazonaws.com/"@ + key
}

/// Where the object store keeps images.
pub struct ImageBucket {
    bucket_name: String,
    region: String,
}

impl ImageBucket {
    pub closed spec fn bucket_view(&self) -> Seq<char> {
        self.bucket_name@
    }

    pub closed spec fn region_view(&self) -> Seq<char> {
        self.region@
    }

    pub fn new(bucket_name: String, region: String) -> (r: Self)
        ensures
            r.bucket_view() == bucket_name@,
            r.region_view() == region@,
    {
        ImageBucket { bucket_name, region }
    }

    pub fn bucket_name(&self) -> (r: &str)
        ensures
            r@ == self.bucket_view(),
    {
        self.bucket_name.as_str()
    }

    /// The public URL of the object `key`.
    pub fn object_url(&self, key: &str) -> (r: String)
        ensures
            r@ == object_url_of(self.bucket_view(), self.region_view(), key@),
    {
        let mut r = String::from_str("https://");
        r.append(self.bucket_name.as_str());
        r.append(".s3.");
        r.append(self.region.as_str());
        r.append(".amazonaws.com/");
        r.append(key);
        r
    }

    /// The bytes to upload for `image`: its base64 data decoded;
    /// `UpstreamUnavailable` where the generator sent no valid base64.
    pub fn upload_body(&self, image: &GeneratedImage) -> (r: Result<Vec<u8>, ServiceError>)
        ensures
            match base64_decoded(image.data_view()) {
                Some(b) => r matches Ok(x) && x@ == b,
                None => r matches Err(ServiceError::UpstreamUnavailable),
            },
    {
        match decode_base64(image.data()) {
            Some(b) => Ok(b),
            None => Err(ServiceError::UpstreamUnavailable),
        }
    }

    /// The record of `image` once it is stored under its id.
    pub fn saved_image(&self, image: &GeneratedImage) -> (r: SavedImage)
        ensures
            r.id_view() == image.id_view(),
            r.url_view() == object_url_of(self.bucket_view(), self.region_view(), image.id_view()),
    {
        SavedImage::new(String::from_str(image.id()), self.object_url(image.id()))
    }
}

} // verus!
