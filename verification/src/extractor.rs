//! Authentication settings of the two extractors (YouTube and generic sites).
use vstd::prelude::*;

verus! {

/// The view of an optional string.
pub open spec fn opt_chars(o: Option<String>) -> Option<Seq<char>> {
    match o {
        Some(s) => Some(s@),
        None => None,
    }
}

/// How an extractor authenticates: a Netscape cookie file, cookies taken
/// from a browser, and whether `.netrc` is used.
pub struct AuthView {
    pub cookies: Option<Seq<char>>,
    pub cookies_from_browser: Option<Seq<char>>,
    pub netrc: bool,
}

impl AuthView {
    /// No authentication configured.
    pub open spec fn none() -> AuthView {
        AuthView { cookies: None, cookies_from_browser: None, netrc: false }
    }

    /// The same settings with the cookie file `path`.
    pub open spec fn with_cookies(self, path: Seq<char>) -> AuthView {
        AuthView { cookies: Some(path), ..self }
    }

    /// The same settings with cookies taken from `browser`.
    pub open spec fn with_cookies_from_browser(self, browser: Seq<char>) -> AuthView {
        AuthView { cookies_from_browser: Some(browser), ..self }
    }

    /// The same settings with `.netrc` in use.
    pub open spec fn with_netrc(self) -> AuthView {
        AuthView { netrc: true, ..self }
    }
}

/// Authentication settings shared by both kinds of extractor.
#[derive(Debug)]
pub struct Auth {
    cookies: Option<String>,
    cookies_from_browser: Option<String>,
    netrc: bool,
}

impl View for Auth {
    type V = AuthView;

    closed spec fn view(&self) -> AuthView {
        AuthView {
            cookies: opt_chars(self.cookies),
            cookies_from_browser: opt_chars(self.cookies_from_browser),
            netrc: self.netrc,
        }
    }
}

fn clone_opt(o: &Option<String>) -> (r: Option<String>)
    ensures
        opt_chars(r) == opt_chars(*o),
{
    match o {
        Some(s) => Some(s.clone()),
        None => None,
    }
}

impl Auth {
    /// Settings with no authentication.
    pub fn new() -> (a: Auth)
        ensures
            a@ == AuthView::none(),
    {
        Auth { cookies: None, cookies_from_browser: None, netrc: false }
    }

    /// Uses the cookie file at `path`.
    pub fn with_cookies(&mut self, path: &str)
        ensures
            final(self)@ == old(self)@.with_cookies(path@),
    {
        self.cookies = Some(String::from_str(path));
    }

    /// Takes cookies from `browser`.
    pub fn with_cookies_from_browser(&mut self, browser: &str)
        ensures
            final(self)@ == old(self)@.with_cookies_from_browser(browser@),
    {
        self.cookies_from_browser = Some(String::from_str(browser));
    }

    /// Uses `.netrc`.
    pub fn with_netrc(&mut self)
        ensures
            final(self)@ == old(self)@.with_netrc(),
    {
        self.netrc = true;
    }

    /// The cookie file in use, if any.
    pub fn cookies(&self) -> (c: Option<&str>)
        ensures
            match c {
                Some(s) => self@.cookies == Some(s@),
                None => self@.cookies is None,
            },
    {
        match &self.cookies {
            Some(s) => Some(s.as_str()),
            None => None,
        }
    }

    /// The browser cookies are taken from, if any.
    pub fn cookies_from_browser(&self) -> (b: Option<&str>)
        ensures
            match b {
                Some(s) => self@.cookies_from_browser == Some(s@),
                None => self@.cookies_from_browser is None,
            },
    {
        match &self.cookies_from_browser {
            Some(s) => Some(s.as_str()),
            None => None,
        }
    }

    /// Whether `.netrc` is used.
    pub fn netrc(&self) -> (n: bool)
        ensures
            n == self@.netrc,
    {
        self.netrc
    }
}

impl Clone for Auth {
    /// A copy with the same settings.
    fn clone(&self) -> (a: Auth)
        ensures
            a@ == self@,
    {
        Auth {
            cookies: clone_opt(&self.cookies),
            cookies_from_browser: clone_opt(&self.cookies_from_browser),
            netrc: self.netrc,
        }
    }
}

/// The extractor used for YouTube URLs.
#[derive(Debug)]
pub struct Youtube {
    auth: Auth,
}

/// The extractor used for every other site.
#[derive(Debug)]
pub struct Generic {
    auth: Auth,
}

impl View for Youtube {
    type V = AuthView;

    closed spec fn view(&self) -> AuthView {
        self.auth@
    }
}

impl View for Generic {
    type V = AuthView;

    closed spec fn view(&self) -> AuthView {
        self.auth@
    }
}

impl Youtube {
    /// A YouTube extractor with no authentication.
    pub fn new() -> (e: Youtube)
        ensures
            e@ == AuthView::none(),
    {
        Youtube { auth: Auth::new() }
    }

    /// Authenticates with the cookie file at `path`.
    pub fn with_cookies(&mut self, path: &str) -> (r: &mut Self)
        ensures
            r@ == old(self)@.with_cookies(path@),
            *final(self) == *final(r),
    {
        self.auth.with_cookies(path);
        self
    }

    /// Authenticates with cookies taken from `browser`.
    pub fn with_cookies_from_browser(&mut self, browser: &str) -> (r: &mut Self)
        ensures
            r@ == old(self)@.with_cookies_from_browser(browser@),
            *final(self) == *final(r),
    {
        self.auth.with_cookies_from_browser(browser);
        self
    }

    /// Authenticates with `.netrc`.
    pub fn with_netrc(&mut self) -> (r: &mut Self)
        ensures
            r@ == old(self)@.with_netrc(),
            *final(self) == *final(r),
    {
        self.auth.with_netrc();
        self
    }

    /// The authentication settings.
    pub fn auth(&self) -> (a: &Auth)
        ensures
            a@ == self@,
    {
        &self.auth
    }
}

impl Clone for Youtube {
    /// A copy with the same authentication settings.
    fn clone(&self) -> (e: Youtube)
        ensures
            e@ == self@,
    {
        Youtube { auth: self.auth.clone() }
    }
}


impl Generic {
    /// A generic-site extractor with no authentication.
    pub fn new() -> (e: Generic)
        ensures
            e@ == AuthView::none(),
    {
        Generic { auth: Auth::new() }
    }

    /// Authenticates with the cookie file at `path`.
    pub fn with_cookies(&mut self, path: &str) -> (r: &mut Self)
        ensures
            r@ == old(self)@.with_cookies(path@),
            *final(self) == *final(r),
    {
        self.auth.with_cookies(path);
        self
    }

    /// Authenticates with cookies taken from `browser`.
    pub fn with_cookies_from_browser(&mut self, browser: &str) -> (r: &mut Self)
        ensures
            r@ == old(self)@.with_cookies_from_browser(browser@),
            *final(self) == *final(r),
    {
        self.auth.with_cookies_from_browser(browser);
        self
    }

    /// Authenticates with `.netrc`.
    pub fn with_netrc(&mut self) -> (r: &mut Self)
        ensures
            r@ == old(self)@.with_netrc(),
            *final(self) == *final(r),
    {
        self.auth.with_netrc();
        self
    }

    /// The authentication settings.
    pub fn auth(&self) -> (a: &Auth)
        ensures
            a@ == self@,
    {
        &self.auth
    }
}

impl Clone for Generic {
    /// A copy with the same authentication settings.
    fn clone(&self) -> (e: Generic)
        ensures
            e@ == self@,
    {
        Generic { auth: self.auth.clone() }
    }
}

} // verus!
