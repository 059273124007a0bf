//! Explicit configuration for the external asset host: credentials and the
//! two endpoint URLs, constructed once at startup and passed by reference
//! into the pipeline — never read from ambient global state.

use vstd::prelude::*;

verus! {

/// Everything an upload to the external asset host needs: the API key, the
/// shared signing secret, the public-id prefix, the upload endpoint and the
/// public fetch base URL.
#[derive(Clone, Debug)]
pub struct CloudinaryUploadConfig {
    pub key: String,
    pub secret: String,
    pub prefix: String,
    pub upload_url: String,
    pub fetch_url: String,
}

impl CloudinaryUploadConfig {
    /// Assembles the configuration from the account credentials: the upload
    /// endpoint and the public fetch base are derived from the account name
    /// (and the fetch base also from the prefix), with no call to the host.
    pub fn new(key: String, secret: String, prefix: String, name: &str) -> (r: Self)
        ensures
            r.key@ == key@,
            r.secret@ == secret@,
            r.prefix@ == prefix@,
            r.upload_url@ == "https://api.cloudinary.com/v1_1/"@ + name@ + "/image/upload/"@,
            r.fetch_url@ == "https://res.cloudinary.com/"@ + name@ + "/image/upload/"@ + prefix@
                + "/"@,
    {
        let mut upload_url: String = "https://api.cloudinary.com/v1_1/".to_owned();
        upload_url.append(name);
        upload_url.append("/image/upload/");
        let mut fetch_url: String = "https://res.cloudinary.com/".to_owned();
        fetch_url.append(name);
        fetch_url.append("/image/upload/");
        fetch_url.append(prefix.as_str());
        fetch_url.append("/");
        proof {
            assert(upload_url@ =~= "https://api.cloudinary.com/v1_1/"@ + name@
                + "/image/upload/"@);
            assert(fetch_url@ =~= "https://res.cloudinary.com/"@ + name@ + "/image/upload/"@
                + prefix@ + "/"@);
        }
        CloudinaryUploadConfig { key, secret, prefix, upload_url, fetch_url }
    }
}

/// The public base URL from which uploaded assets are fetched; an asset's
/// URL is this base followed by its slug.
#[derive(Clone, Debug)]
pub struct CloudinaryFetchUrl(pub String);

impl CloudinaryFetchUrl {
    /// Remembers the fetch base of a configuration.
    pub fn from_config(config: &CloudinaryUploadConfig) -> (r: Self)
        ensures
            r.0@ == config.fetch_url@,
    {
        CloudinaryFetchUrl(config.fetch_url.clone())
    }
}

} // verus!
