//! The downloader's configuration and the rules by which it changes.
use vstd::prelude::*;
use tokio_util::sync::CancellationToken;
use crate::cancel::{cancel_token, new_token, share_token, token_is_cancelled};
use crate::executor::{Executor, ExecutorView};
use crate::extractor::{opt_chars, AuthView, Generic, Youtube};
use crate::libraries::{Libraries, LibrariesView};
use crate::proxy::ProxyConfig;
use crate::text::{bool_chars, bool_to_str, decimal, u64_to_decimal};
use crate::timeout::Timeout;

verus! {

/// The time limit a downloader starts with, in seconds.
pub const DEFAULT_TIMEOUT_SECS: u64 = 30;

/// The views of a sequence of strings.
pub open spec fn strings_view(v: Seq<String>) -> Seq<Seq<char>> {
    v.map_values(|s: String| s@)
}

/// The view of an optional proxy.
pub open spec fn opt_proxy(p: Option<ProxyConfig>) -> Option<Seq<char>> {
    match p {
        Some(c) => Some(c@),
        None => None,
    }
}

/// The yt-dlp argument that names a cookie file.
pub open spec fn cookies_arg(path: Seq<char>) -> Seq<char> {
    "--cookies="@ + path
}

/// The yt-dlp argument that takes cookies from a browser.
pub open spec fn cookies_from_browser_arg(browser: Seq<char>) -> Seq<char> {
    "--cookies-from-browser="@ + browser
}

/// The yt-dlp argument that turns `.netrc` on.
pub open spec fn netrc_arg() -> Seq<char> {
    "--netrc"@
}

/// The yt-dlp argument that makes yt-dlp update itself.
pub open spec fn update_arg() -> Seq<char> {
    "--update"@
}

/// What a downloader is configured with.
pub struct DownloaderView {
    /// Authentication of the YouTube extractor.
    pub youtube_auth: AuthView,
    /// Authentication of the generic extractor.
    pub generic_auth: AuthView,
    /// Locations of yt-dlp and ffmpeg.
    pub libraries: LibrariesView,
    /// Directory downloads are written to.
    pub output_dir: Seq<char>,
    /// Arguments handed to yt-dlp, in order.
    pub args: Seq<Seq<char>>,
    /// User agent of HTTP requests, if set.
    pub user_agent: Option<Seq<char>>,
    /// Time limit of each yt-dlp run.
    pub timeout: Timeout,
    /// Proxy URL, if a proxy is configured.
    pub proxy: Option<Seq<char>>,
}

impl DownloaderView {
    /// A fresh configuration: no authentication, no arguments, no user agent.
    pub open spec fn fresh(
        libraries: LibrariesView,
        output_dir: Seq<char>,
        timeout: Timeout,
        proxy: Option<Seq<char>>,
    ) -> DownloaderView {
        DownloaderView {
            youtube_auth: AuthView::none(),
            generic_auth: AuthView::none(),
            libraries,
            output_dir,
            args: Seq::empty(),
            user_agent: None,
            timeout,
            proxy,
        }
    }

    /// The same configuration with user agent `ua`.
    pub open spec fn with_user_agent(self, ua: Seq<char>) -> DownloaderView {
        DownloaderView { user_agent: Some(ua), ..self }
    }

    /// The same configuration with `args` as its whole argument list.
    pub open spec fn with_args(self, args: Seq<Seq<char>>) -> DownloaderView {
        DownloaderView { args, ..self }
    }

    /// The same configuration with `args` added after its arguments.
    pub open spec fn appending_args(self, args: Seq<Seq<char>>) -> DownloaderView {
        DownloaderView { args: self.args + args, ..self }
    }

    /// The same configuration with `arg` added after its arguments.
    pub open spec fn adding_arg(self, arg: Seq<char>) -> DownloaderView {
        DownloaderView { args: self.args.push(arg), ..self }
    }

    /// The same configuration with time limit `timeout`.
    pub open spec fn with_timeout(self, timeout: Timeout) -> DownloaderView {
        DownloaderView { timeout, ..self }
    }

    /// The same configuration authenticated by the cookie file `path`:
    /// both extractors use it and yt-dlp is told of it.
    pub open spec fn with_cookies(self, path: Seq<char>) -> DownloaderView {
        DownloaderView {
            youtube_auth: self.youtube_auth.with_cookies(path),
            generic_auth: self.generic_auth.with_cookies(path),
            args: self.args.push(cookies_arg(path)),
            ..self
        }
    }

    /// The same configuration authenticated by the cookies of `browser`:
    /// both extractors use them and yt-dlp is told of them.
    pub open spec fn with_cookies_from_browser(self, browser: Seq<char>) -> DownloaderView {
        DownloaderView {
            youtube_auth: self.youtube_auth.with_cookies_from_browser(browser),
            generic_auth: self.generic_auth.with_cookies_from_browser(browser),
            args: self.args.push(cookies_from_browser_arg(browser)),
            ..self
        }
    }

    /// The same configuration authenticated by `.netrc`: both extractors use
    /// it and yt-dlp is told of it.
    pub open spec fn with_netrc(self) -> DownloaderView {
        DownloaderView {
            youtube_auth: self.youtube_auth.with_netrc(),
            generic_auth: self.generic_auth.with_netrc(),
            args: self.args.push(netrc_arg()),
            ..self
        }
    }

    /// The one-line description of the configuration:
    /// `Downloader(output_dir=<dir>, timeout=<whole seconds>s, proxy=<true|false>)`.
    pub open spec fn description(self) -> Seq<char> {
        "Downloader(output_dir="@ + self.output_dir + ", timeout="@ + decimal(
            self.timeout.spec_secs(),
        ) + "s, proxy="@ + bool_chars(self.proxy is Some) + ")"@
    }

    /// The run that updates yt-dlp: its own executable with `--update`,
    /// under the configured time limit.
    pub open spec fn update_run(self) -> ExecutorView {
        ExecutorView {
            executable: self.libraries.youtube,
            args: seq![update_arg()],
            timeout: self.timeout,
        }
    }
}

/// Universal video downloader configuration: a YouTube extractor, a generic
/// extractor, the yt-dlp and ffmpeg locations, the output directory, the
/// arguments handed to yt-dlp, the user agent, the time limit, the proxy and
/// the shutdown signal.
#[derive(Debug)]
pub struct Downloader {
    youtube_extractor: Youtube,
    generic_extractor: Generic,
    libraries: Libraries,
    output_dir: String,
    args: Vec<String>,
    user_agent: Option<String>,
    timeout: Timeout,
    proxy: Option<ProxyConfig>,
    cancellation_token: CancellationToken,
}

impl View for Downloader {
    type V = DownloaderView;

    closed spec fn view(&self) -> DownloaderView {
        DownloaderView {
            youtube_auth: self.youtube_extractor@,
            generic_auth: self.generic_extractor@,
            libraries: self.libraries@,
            output_dir: self.output_dir@,
            args: strings_view(self.args@),
            user_agent: opt_chars(self.user_agent),
            timeout: self.timeout,
            proxy: opt_proxy(self.proxy),
        }
    }
}

/// Concatenates two strings.
fn concat(a: &str, b: &str) -> (s: String)
    ensures
        s@ == a@ + b@,
{
    let mut s = String::from_str(a);
    s.append(b);
    s
}

fn clone_opt_proxy(p: &Option<ProxyConfig>) -> (r: Option<ProxyConfig>)
    ensures
        opt_proxy(r) == opt_proxy(*p),
{
    match p {
        Some(c) => Some(c.clone()),
        None => None,
    }
}

fn clone_opt_string(o: &Option<String>) -> (r: Option<String>)
    ensures
        opt_chars(r) == opt_chars(*o),
{
    match o {
        Some(s) => Some(s.clone()),
        None => None,
    }
}

fn clone_strings(v: &Vec<String>) -> (r: Vec<String>)
    ensures
        strings_view(r@) == strings_view(v@),
{
    let mut r: Vec<String> = Vec::new();
    let n = v.len();
    for i in 0..n
        invariant
            n == v@.len(),
            r@.len() == i,
            forall|j: int| 0 <= j < i ==> #[trigger] r@[j]@ == v@[j]@,
    {
        r.push(v[i].clone());
    }
    assert(strings_view(r@) =~= strings_view(v@));
    r
}

impl Downloader {
    /// The shutdown signal this downloader listens to; clones share it.
    pub closed spec fn shutdown_token(self) -> CancellationToken {
        self.cancellation_token
    }

    /// Creates a builder for a downloader using `libraries` that writes to `output_dir`.
    pub fn builder(libraries: Libraries, output_dir: String) -> (b: DownloaderBuilder)
        ensures
            b@.libraries == libraries@,
            b@.output_dir == output_dir@,
            b@.timeout.spec_secs() == DEFAULT_TIMEOUT_SECS,
            b@.timeout.spec_nanos() == 0,
            b@.proxy is None,
    {
        DownloaderBuilder::new(libraries, output_dir)
    }

    /// The YouTube extractor.
    pub fn youtube_extractor(&self) -> (e: &Youtube)
        ensures
            e@ == self@.youtube_auth,
    {
        &self.youtube_extractor
    }

    /// The generic extractor.
    pub fn generic_extractor(&self) -> (e: &Generic)
        ensures
            e@ == self@.generic_auth,
    {
        &self.generic_extractor
    }

    /// The yt-dlp and ffmpeg locations.
    pub fn libraries(&self) -> (l: &Libraries)
        ensures
            l@ == self@.libraries,
    {
        &self.libraries
    }

    /// The output directory.
    pub fn output_dir(&self) -> (d: &str)
        ensures
            d@ == self@.output_dir,
    {
        self.output_dir.as_str()
    }

    /// The arguments handed to yt-dlp.
    pub fn args(&self) -> (a: &[String])
        ensures
            strings_view(a@) == self@.args,
    {
        self.args.as_slice()
    }

    /// The user agent, if set.
    pub fn user_agent(&self) -> (u: Option<&str>)
        ensures
            match u {
                Some(s) => self@.user_agent == Some(s@),
                None => self@.user_agent is None,
            },
    {
        match &self.user_agent {
            Some(s) => Some(s.as_str()),
            None => None,
        }
    }

    /// The time limit of each yt-dlp run.
    pub fn timeout(&self) -> (t: Timeout)
        ensures
            t == self@.timeout,
    {
        self.timeout
    }

    /// The proxy, if one is configured.
    pub fn proxy(&self) -> (p: Option<&ProxyConfig>)
        ensures
            match p {
                Some(c) => self@.proxy == Some(c@),
                None => self@.proxy is None,
            },
    {
        match &self.proxy {
            Some(c) => Some(c),
            None => None,
        }
    }

    /// Sets the user agent of HTTP requests.
    pub fn set_user_agent(&mut self, user_agent: &str) -> (r: &mut Self)
        ensures
            r@ == old(self)@.with_user_agent(user_agent@),
            *final(self) == *final(r),
            r.shutdown_token() == old(self).shutdown_token(),
    {
        self.user_agent = Some(String::from_str(user_agent));
        self
    }

    /// Adds `args` after the arguments handed to yt-dlp.
    pub fn append_args(&mut self, args: Vec<String>) -> (r: &mut Self)
        ensures
            r@ == old(self)@.appending_args(strings_view(args@)),
            *final(self) == *final(r),
            r.shutdown_token() == old(self).shutdown_token(),
    {
        let mut args = args;
        let ghost before = self.args@;
        let ghost added = args@;
        self.args.append(&mut args);
        assert(strings_view(self.args@) =~= strings_view(before) + strings_view(added));
        self
    }

    /// Replaces the arguments handed to yt-dlp with `args`.
    pub fn set_args(&mut self, args: Vec<String>) -> (r: &mut Self)
        ensures
            r@ == old(self)@.with_args(strings_view(args@)),
            *final(self) == *final(r),
            r.shutdown_token() == old(self).shutdown_token(),
    {
        self.args = args;
        self
    }

    /// Sets the time limit of each yt-dlp run.
    pub fn set_timeout(&mut self, timeout: Timeout) -> (r: &mut Self)
        ensures
            r@ == old(self)@.with_timeout(timeout),
            *final(self) == *final(r),
            r.shutdown_token() == old(self).shutdown_token(),
    {
        self.timeout = timeout;
        self
    }

    /// Adds one argument after the arguments handed to yt-dlp.
    pub fn add_arg(&mut self, arg: &str) -> (r: &mut Self)
        ensures
            r@ == old(self)@.adding_arg(arg@),
            *final(self) == *final(r),
            r.shutdown_token() == old(self).shutdown_token(),
    {
        let ghost before = self.args@;
        self.args.push(String::from_str(arg));
        assert(strings_view(self.args@) =~= strings_view(before).push(arg@));
        self
    }

    /// Authenticates with the Netscape cookie file at `path`: both extractors
    /// use it, and `--cookies=<path>` is added to the yt-dlp arguments.
    pub fn set_cookies(&mut self, path: &str) -> (r: &mut Self)
        ensures
            r@ == old(self)@.with_cookies(path@),
            *final(self) == *final(r),
            r.shutdown_token() == old(self).shutdown_token(),
    {
        let arg = concat("--cookies=", path);
        self.youtube_extractor.with_cookies(path);
        self.generic_extractor.with_cookies(path);
        let ghost before = self.args@;
        self.args.push(arg);
        assert(strings_view(self.args@) =~= strings_view(before).push(cookies_arg(path@)));
        self
    }

    /// Authenticates with the cookies of `browser` (such as `chrome` or
    /// `firefox`): both extractors use them, and
    /// `--cookies-from-browser=<browser>` is added to the yt-dlp arguments.
    pub fn set_cookies_from_browser(&mut self, browser: &str) -> (r: &mut Self)
        ensures
            r@ == old(self)@.with_cookies_from_browser(browser@),
            *final(self) == *final(r),
            r.shutdown_token() == old(self).shutdown_token(),
    {
        let arg = concat("--cookies-from-browser=", browser);
        self.youtube_extractor.with_cookies_from_browser(browser);
        self.generic_extractor.with_cookies_from_browser(browser);
        let ghost before = self.args@;
        self.args.push(arg);
        assert(strings_view(self.args@) =~= strings_view(before).push(
            cookies_from_browser_arg(browser@),
        ));
        self
    }

    /// Authenticates with `.netrc`: both extractors use it, and `--netrc` is
    /// added to the yt-dlp arguments.
    pub fn set_netrc(&mut self) -> (r: &mut Self)
        ensures
            r@ == old(self)@.with_netrc(),
            *final(self) == *final(r),
            r.shutdown_token() == old(self).shutdown_token(),
    {
        self.youtube_extractor.with_netrc();
        self.generic_extractor.with_netrc();
        let ghost before = self.args@;
        self.args.push(String::from_str("--netrc"));
        assert(strings_view(self.args@) =~= strings_view(before).push(netrc_arg()));
        self
    }

    /// The run that updates the yt-dlp executable (`yt-dlp --update`),
    /// under the configured time limit.
    pub fn update_executor(&self) -> (e: Executor)
        ensures
            e@ == self@.update_run(),
    {
        let mut args: Vec<String> = Vec::new();
        args.push(String::from_str("--update"));
        let e = Executor::new(self.libraries.youtube.clone(), args, self.timeout);
        assert(e@.args =~= seq![update_arg()]);
        e
    }

    /// Signals every ongoing operation that shares this downloader's token to
    /// stop. It does not wait for them.
    pub fn shutdown(&self) {
        cancel_token(&self.cancellation_token)
    }

    /// Whether a shutdown has been signalled to this downloader or to a clone
    /// of it.
    pub fn is_shutdown_requested(&self) -> (b: bool) {
        token_is_cancelled(&self.cancellation_token)
    }

    /// The one-line description of the downloader, as its `Display` writes it:
    /// `Downloader(output_dir=<dir>, timeout=<whole seconds>s, proxy=<true|false>)`.
    pub fn display_string(&self) -> (s: String)
        ensures
            s@ == self@.description(),
    {
        let mut s = String::from_str("Downloader(output_dir=");
        s.append(self.output_dir.as_str());
        s.append(", timeout=");
        let secs = u64_to_decimal(self.timeout.as_secs());
        s.append(secs.as_str());
        s.append("s, proxy=");
        s.append(bool_to_str(self.proxy.is_some()));
        s.append(")");
        s
    }
}

impl Clone for Downloader {
    /// A downloader with the same configuration, including the authentication
    /// state of both extractors, that shares this one's shutdown signal.
    fn clone(&self) -> (d: Downloader)
        ensures
            d@ == self@,
            d.shutdown_token() == self.shutdown_token(),
    {
        Downloader {
            youtube_extractor: self.youtube_extractor.clone(),
            generic_extractor: self.generic_extractor.clone(),
            libraries: self.libraries.clone(),
            output_dir: self.output_dir.clone(),
            args: clone_strings(&self.args),
            user_agent: clone_opt_string(&self.user_agent),
            timeout: self.timeout,
            proxy: clone_opt_proxy(&self.proxy),
            cancellation_token: share_token(&self.cancellation_token),
        }
    }
}

/// What a [`DownloaderBuilder`] will build with.
pub struct BuilderView {
    pub libraries: LibrariesView,
    pub output_dir: Seq<char>,
    pub timeout: Timeout,
    pub proxy: Option<Seq<char>>,
}

/// Collects the settings of a downloader before it is built.
#[derive(Debug)]
pub struct DownloaderBuilder {
    libraries: Libraries,
    output_dir: String,
    timeout: Timeout,
    proxy: Option<ProxyConfig>,
}

impl View for DownloaderBuilder {
    type V = BuilderView;

    closed spec fn view(&self) -> BuilderView {
        BuilderView {
            libraries: self.libraries@,
            output_dir: self.output_dir@,
            timeout: self.timeout,
            proxy: opt_proxy(self.proxy),
        }
    }
}

impl DownloaderBuilder {
    /// A builder for a downloader using `libraries` that writes to
    /// `output_dir`, with the default time limit and no proxy.
    pub fn new(libraries: Libraries, output_dir: String) -> (b: DownloaderBuilder)
        ensures
            b@.libraries == libraries@,
            b@.output_dir == output_dir@,
            b@.timeout.spec_secs() == DEFAULT_TIMEOUT_SECS,
            b@.timeout.spec_nanos() == 0,
            b@.proxy is None,
    {
        DownloaderBuilder {
            libraries,
            output_dir,
            timeout: Timeout::from_secs(DEFAULT_TIMEOUT_SECS),
            proxy: None,
        }
    }

    /// Sets the time limit of each yt-dlp run.
    pub fn with_timeout(self, timeout: Timeout) -> (b: DownloaderBuilder)
        ensures
            b@ == (BuilderView { timeout, ..self@ }),
    {
        DownloaderBuilder { timeout, ..self }
    }

    /// Routes requests through `proxy`.
    pub fn with_proxy(self, proxy: ProxyConfig) -> (b: DownloaderBuilder)
        ensures
            b@ == (BuilderView { proxy: Some(proxy@), ..self@ }),
    {
        DownloaderBuilder { proxy: Some(proxy), ..self }
    }

    /// The downloader with these settings: no authentication, no yt-dlp
    /// arguments, no user agent, and a fresh shutdown signal.
    pub fn build(self) -> (d: Downloader)
        ensures
            d@ == DownloaderView::fresh(
                self@.libraries,
                self@.output_dir,
                self@.timeout,
                self@.proxy,
            ),
    {
        let d = Downloader {
            youtube_extractor: Youtube::new(),
            generic_extractor: Generic::new(),
            libraries: self.libraries,
            output_dir: self.output_dir,
            args: Vec::new(),
            user_agent: None,
            timeout: self.timeout,
            proxy: self.proxy,
            cancellation_token: new_token(),
        };
        assert(strings_view(d.args@) =~= Seq::empty());
        d
    }
}

} // verus!
