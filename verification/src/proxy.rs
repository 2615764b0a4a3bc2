//! The proxy a downloader routes its HTTP requests and yt-dlp through.
use vstd::prelude::*;

verus! {

/// A proxy, given by its URL (such as `http://host:8080` or `socks5://host:1080`).
#[derive(Debug)]
pub struct ProxyConfig {
    url: String,
}

impl View for ProxyConfig {
    type V = Seq<char>;

    closed spec fn view(&self) -> Seq<char> {
        self.url@
    }
}

impl ProxyConfig {
    /// The proxy at `url`.
    pub fn new(url: &str) -> (p: ProxyConfig)
        ensures
            p@ == url@,
    {
        ProxyConfig { url: String::from_str(url) }
    }

    /// The proxy's URL.
    pub fn url(&self) -> (u: &str)
        ensures
            u@ == self@,
    {
        self.url.as_str()
    }
}

impl Clone for ProxyConfig {
    /// A copy naming the same URL.
    fn clone(&self) -> (p: ProxyConfig)
        ensures
            p@ == self@,
    {
        ProxyConfig { url: self.url.clone() }
    }
}

} // verus!
