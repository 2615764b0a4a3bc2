//! Properties that relate the configuration operations of a downloader.
use vstd::prelude::*;
use crate::downloader::{cookies_arg, cookies_from_browser_arg, netrc_arg, update_arg, DownloaderView};
use crate::libraries::LibrariesView;
use crate::text::{decimal, digit_char};
use crate::timeout::Timeout;

verus! {

/// After `set_args(a)`, `args()` gives back exactly `a`.
pub proof fn law_args_read_after_set(v: DownloaderView, a: Seq<Seq<char>>)
    ensures
        v.with_args(a).args == a,
{
}

/// `set_args` replaces the whole argument list: a second call leaves no trace
/// of the first.
pub proof fn law_set_args_overrides(v: DownloaderView, a: Seq<Seq<char>>, b: Seq<Seq<char>>)
    ensures
        v.with_args(a).with_args(b) == v.with_args(b),
{
}

/// Appending `a` and then `b` is appending `a` followed by `b` at once.
pub proof fn law_append_args_concatenates(
    v: DownloaderView,
    a: Seq<Seq<char>>,
    b: Seq<Seq<char>>,
)
    ensures
        v.appending_args(a).appending_args(b) == v.appending_args(a + b),
{
    assert(v.args + a + b =~= v.args + (a + b));
}

/// Setting `a` and then appending `b` is setting `a` followed by `b`.
pub proof fn law_set_then_append(v: DownloaderView, a: Seq<Seq<char>>, b: Seq<Seq<char>>)
    ensures
        v.with_args(a).appending_args(b) == v.with_args(a + b),
{
}

/// Adding one argument is appending a list that holds only it.
pub proof fn law_add_arg_appends_one(v: DownloaderView, arg: Seq<char>)
    ensures
        v.adding_arg(arg) == v.appending_args(seq![arg]),
{
    assert(v.args.push(arg) =~= v.args + seq![arg]);
}

/// After `set_user_agent(ua)`, `user_agent()` gives back `ua`, and nothing
/// else of the configuration changed.
pub proof fn law_user_agent_read_after_set(v: DownloaderView, ua: Seq<char>)
    ensures
        v.with_user_agent(ua).user_agent == Some(ua),
        v.with_user_agent(ua) == (DownloaderView { user_agent: Some(ua), ..v }),
{
}

/// After `set_timeout(t)`, `timeout()` gives back `t`, and nothing else of the
/// configuration changed.
pub proof fn law_timeout_read_after_set(v: DownloaderView, t: Timeout)
    ensures
        v.with_timeout(t).timeout == t,
        v.with_timeout(t) == (DownloaderView { timeout: t, ..v }),
{
}

/// Settings of different kinds do not interfere: setting the user agent and
/// setting the time limit give the same configuration in either order, and
/// neither touches the arguments or the authentication.
pub proof fn law_user_agent_and_timeout_commute(v: DownloaderView, ua: Seq<char>, t: Timeout)
    ensures
        v.with_user_agent(ua).with_timeout(t) == v.with_timeout(t).with_user_agent(ua),
        v.with_user_agent(ua).with_timeout(t).args == v.args,
        v.with_user_agent(ua).with_timeout(t).youtube_auth == v.youtube_auth,
        v.with_user_agent(ua).with_timeout(t).generic_auth == v.generic_auth,
{
}

/// A cookie file authenticates both metadata fetches and downloads: both
/// extractors use it, `--cookies=<path>` is the last yt-dlp argument, the
/// earlier arguments are kept, and nothing else changes.
pub proof fn law_cookies_reach_everything(v: DownloaderView, path: Seq<char>)
    ensures
        v.with_cookies(path).youtube_auth.cookies == Some(path),
        v.with_cookies(path).generic_auth.cookies == Some(path),
        v.with_cookies(path).args.last() == cookies_arg(path),
        v.with_cookies(path).args.drop_last() == v.args,
        v.with_cookies(path).youtube_auth.cookies_from_browser == v.youtube_auth.cookies_from_browser,
        v.with_cookies(path).youtube_auth.netrc == v.youtube_auth.netrc,
        v.with_cookies(path).generic_auth.cookies_from_browser == v.generic_auth.cookies_from_browser,
        v.with_cookies(path).generic_auth.netrc == v.generic_auth.netrc,
        (DownloaderView {
            youtube_auth: v.youtube_auth,
            generic_auth: v.generic_auth,
            args: v.args,
            ..v.with_cookies(path)
        }) == v,
{
    assert(v.args.push(cookies_arg(path)).drop_last() =~= v.args);
}

/// Browser cookies authenticate both metadata fetches and downloads: both
/// extractors use them, `--cookies-from-browser=<browser>` is the last yt-dlp
/// argument, the earlier arguments are kept, and nothing else changes.
pub proof fn law_browser_cookies_reach_everything(v: DownloaderView, browser: Seq<char>)
    ensures
        v.with_cookies_from_browser(browser).youtube_auth.cookies_from_browser == Some(browser),
        v.with_cookies_from_browser(browser).generic_auth.cookies_from_browser == Some(browser),
        v.with_cookies_from_browser(browser).args.last() == cookies_from_browser_arg(browser),
        v.with_cookies_from_browser(browser).args.drop_last() == v.args,
        v.with_cookies_from_browser(browser).youtube_auth.cookies == v.youtube_auth.cookies,
        v.with_cookies_from_browser(browser).youtube_auth.netrc == v.youtube_auth.netrc,
        v.with_cookies_from_browser(browser).generic_auth.cookies == v.generic_auth.cookies,
        v.with_cookies_from_browser(browser).generic_auth.netrc == v.generic_auth.netrc,
        (DownloaderView {
            youtube_auth: v.youtube_auth,
            generic_auth: v.generic_auth,
            args: v.args,
            ..v.with_cookies_from_browser(browser)
        }) == v,
{
    assert(v.args.push(cookies_from_browser_arg(browser)).drop_last() =~= v.args);
}

/// `.netrc` authenticates both metadata fetches and downloads: both
/// extractors use it, `--netrc` is the last yt-dlp argument, the earlier
/// arguments are kept, and nothing else changes.
pub proof fn law_netrc_reaches_everything(v: DownloaderView)
    ensures
        v.with_netrc().youtube_auth.netrc,
        v.with_netrc().generic_auth.netrc,
        v.with_netrc().args.last() == netrc_arg(),
        v.with_netrc().args.drop_last() == v.args,
        v.with_netrc().youtube_auth.cookies == v.youtube_auth.cookies,
        v.with_netrc().youtube_auth.cookies_from_browser == v.youtube_auth.cookies_from_browser,
        v.with_netrc().generic_auth.cookies == v.generic_auth.cookies,
        v.with_netrc().generic_auth.cookies_from_browser == v.generic_auth.cookies_from_browser,
        (DownloaderView {
            youtube_auth: v.youtube_auth,
            generic_auth: v.generic_auth,
            args: v.args,
            ..v.with_netrc()
        }) == v,
{
    assert(v.args.push(netrc_arg()).drop_last() =~= v.args);
}

/// Turning `.netrc` on twice leaves the extractors as once does, while the
/// argument list records each request.
pub proof fn law_netrc_twice(v: DownloaderView)
    ensures
        v.with_netrc().with_netrc().youtube_auth == v.with_netrc().youtube_auth,
        v.with_netrc().with_netrc().generic_auth == v.with_netrc().generic_auth,
        v.with_netrc().with_netrc().args == v.args + seq![netrc_arg(), netrc_arg()],
{
    assert(v.args.push(netrc_arg()).push(netrc_arg()) =~= v.args + seq![netrc_arg(), netrc_arg()]);
}

/// A newly built downloader has no authentication, no yt-dlp arguments and no
/// user agent.
pub proof fn law_fresh_is_unauthenticated(
    libraries: crate::libraries::LibrariesView,
    output_dir: Seq<char>,
    timeout: Timeout,
    proxy: Option<Seq<char>>,
)
    ensures
        DownloaderView::fresh(libraries, output_dir, timeout, proxy).youtube_auth.cookies is None,
        DownloaderView::fresh(libraries, output_dir, timeout, proxy).youtube_auth.cookies_from_browser is None,
        !DownloaderView::fresh(libraries, output_dir, timeout, proxy).youtube_auth.netrc,
        DownloaderView::fresh(libraries, output_dir, timeout, proxy).generic_auth.cookies is None,
        DownloaderView::fresh(libraries, output_dir, timeout, proxy).generic_auth.cookies_from_browser is None,
        !DownloaderView::fresh(libraries, output_dir, timeout, proxy).generic_auth.netrc,
        DownloaderView::fresh(libraries, output_dir, timeout, proxy).args.len() == 0,
        DownloaderView::fresh(libraries, output_dir, timeout, proxy).user_agent is None,
{
}

/// One call of a `Downloader` method that changes its configuration, with
/// its argument taken by its view.
pub enum ConfigChange {
    /// `set_user_agent(ua)`
    UserAgent(Seq<char>),
    /// `append_args(args)`
    AppendArgs(Seq<Seq<char>>),
    /// `set_args(args)`
    SetArgs(Seq<Seq<char>>),
    /// `set_timeout(t)`
    SetTimeout(Timeout),
    /// `add_arg(arg)`
    AddArg(Seq<char>),
    /// `set_cookies(path)`
    Cookies(Seq<char>),
    /// `set_cookies_from_browser(browser)`
    CookiesFromBrowser(Seq<char>),
    /// `set_netrc()`
    Netrc,
}

impl ConfigChange {
    /// The arguments the call adds after the existing ones (none for
    /// `set_args`, which replaces them, nor for the calls that leave them).
    pub open spec fn pushed(self) -> Seq<Seq<char>> {
        match self {
            ConfigChange::AppendArgs(v) => v,
            ConfigChange::AddArg(a) => seq![a],
            ConfigChange::Cookies(p) => seq![cookies_arg(p)],
            ConfigChange::CookiesFromBrowser(b) => seq![cookies_from_browser_arg(b)],
            ConfigChange::Netrc => seq![netrc_arg()],
            _ => Seq::empty(),
        }
    }
}

/// The arguments a sequence of calls adds, in call order.
pub open spec fn pushed_all(cs: Seq<ConfigChange>) -> Seq<Seq<char>>
    decreases cs.len(),
{
    if cs.len() == 0 {
        Seq::empty()
    } else {
        pushed_all(cs.drop_last()) + cs.last().pushed()
    }
}

/// The configuration after one call, as that method's contract states it.
pub open spec fn apply(v: DownloaderView, c: ConfigChange) -> DownloaderView {
    match c {
        ConfigChange::UserAgent(ua) => v.with_user_agent(ua),
        ConfigChange::AppendArgs(a) => v.appending_args(a),
        ConfigChange::SetArgs(a) => v.with_args(a),
        ConfigChange::SetTimeout(t) => v.with_timeout(t),
        ConfigChange::AddArg(a) => v.adding_arg(a),
        ConfigChange::Cookies(p) => v.with_cookies(p),
        ConfigChange::CookiesFromBrowser(b) => v.with_cookies_from_browser(b),
        ConfigChange::Netrc => v.with_netrc(),
    }
}

/// The configuration after a sequence of calls, made in order.
pub open spec fn apply_all(v: DownloaderView, cs: Seq<ConfigChange>) -> DownloaderView
    decreases cs.len(),
{
    if cs.len() == 0 {
        v
    } else {
        apply(apply_all(v, cs.drop_last()), cs.last())
    }
}

/// Making the calls of `a` and then those of `b` is making the calls of `a + b`.
pub proof fn law_apply_all_concat(v: DownloaderView, a: Seq<ConfigChange>, b: Seq<ConfigChange>)
    ensures
        apply_all(v, a + b) == apply_all(apply_all(v, a), b),
    decreases b.len(),
{
    if b.len() == 0 {
        assert(a + b =~= a);
    } else {
        assert((a + b).drop_last() =~= a + b.drop_last());
        assert((a + b).last() == b.last());
        law_apply_all_concat(v, a, b.drop_last());
    }
}

/// No sequence of calls changes the yt-dlp and ffmpeg locations, the output
/// directory or the proxy a downloader was built with.
pub proof fn law_calls_keep_libraries_output_dir_and_proxy(v: DownloaderView, cs: Seq<ConfigChange>)
    ensures
        apply_all(v, cs).libraries == v.libraries,
        apply_all(v, cs).output_dir == v.output_dir,
        apply_all(v, cs).proxy == v.proxy,
    decreases cs.len(),
{
    if cs.len() > 0 {
        law_calls_keep_libraries_output_dir_and_proxy(v, cs.drop_last());
    }
}

/// Without a `set_args` among them, a sequence of calls leaves the earlier
/// arguments in place and adds, in call order, what each call adds.
pub proof fn law_args_without_set(v: DownloaderView, cs: Seq<ConfigChange>)
    requires
        forall|i: int| 0 <= i < cs.len() ==> !(#[trigger] cs[i] is SetArgs),
    ensures
        apply_all(v, cs).args == v.args + pushed_all(cs),
    decreases cs.len(),
{
    if cs.len() == 0 {
        assert(v.args + pushed_all(cs) =~= v.args);
    } else {
        let init = cs.drop_last();
        assert forall|i: int| 0 <= i < init.len() implies !(#[trigger] init[i] is SetArgs) by {
            assert(init[i] == cs[i]);
        }
        law_args_without_set(v, init);
        assert(!(cs[cs.len() - 1] is SetArgs));
        let w = apply_all(v, init);
        assert(apply(w, cs.last()).args =~= w.args + cs.last().pushed());
        assert(v.args + pushed_all(init) + cs.last().pushed() =~= v.args + (pushed_all(init)
            + cs.last().pushed()));
    }
}

/// After a sequence of calls whose last `set_args(a)` is the `k`-th, the
/// arguments are `a` followed, in call order, by what each later call adds.
pub proof fn law_args_after_last_set(
    v: DownloaderView,
    cs: Seq<ConfigChange>,
    k: int,
    a: Seq<Seq<char>>,
)
    requires
        0 <= k < cs.len(),
        cs[k] == ConfigChange::SetArgs(a),
        forall|i: int| k < i < cs.len() ==> !(#[trigger] cs[i] is SetArgs),
    ensures
        apply_all(v, cs).args == a + pushed_all(cs.subrange(k + 1, cs.len() as int)),
{
    let prefix = cs.subrange(0, k + 1);
    let rest = cs.subrange(k + 1, cs.len() as int);
    assert(cs =~= prefix + rest);
    law_apply_all_concat(v, prefix, rest);
    assert(prefix.last() == ConfigChange::SetArgs(a));
    let w = apply_all(v, prefix);
    assert(w.args == a);
    assert forall|i: int| 0 <= i < rest.len() implies !(#[trigger] rest[i] is SetArgs) by {
        assert(rest[i] == cs[k + 1 + i]);
    }
    law_args_without_set(w, rest);
}

/// A downloader built with `libraries` and `output_dir` keeps both through any
/// sequence of calls.
pub proof fn law_built_keeps_libraries_and_output_dir(
    libraries: LibrariesView,
    output_dir: Seq<char>,
    timeout: Timeout,
    proxy: Option<Seq<char>>,
    cs: Seq<ConfigChange>,
)
    ensures
        apply_all(DownloaderView::fresh(libraries, output_dir, timeout, proxy), cs).libraries
            == libraries,
        apply_all(DownloaderView::fresh(libraries, output_dir, timeout, proxy), cs).output_dir
            == output_dir,
{
    law_calls_keep_libraries_output_dir_and_proxy(
        DownloaderView::fresh(libraries, output_dir, timeout, proxy),
        cs,
    );
}

/// The text `--cookies=`.
pub open spec fn cookies_prefix() -> Seq<char> {
    seq!['-', '-', 'c', 'o', 'o', 'k', 'i', 'e', 's', '=']
}

/// The text `--cookies-from-browser=`.
pub open spec fn browser_prefix() -> Seq<char> {
    seq![
        '-', '-', 'c', 'o', 'o', 'k', 'i', 'e', 's', '-', 'f', 'r', 'o', 'm', '-', 'b', 'r', 'o',
        'w', 's', 'e', 'r', '=',
    ]
}

/// The description of a downloader ends in `proxy=true)` exactly when a
/// proxy is configured, whatever its URL, and in `proxy=false)` otherwise;
/// it starts with `Downloader(output_dir=` and the output directory, and
/// the time limit's whole seconds stand in it in decimal.
pub proof fn law_description_shows_proxy_presence(v: DownloaderView)
    ensures
        v.proxy is Some ==> v.description() == seq![
            'D', 'o', 'w', 'n', 'l', 'o', 'a', 'd', 'e', 'r', '(', 'o', 'u', 't', 'p', 'u', 't',
            '_', 'd', 'i', 'r', '=',
        ] + v.output_dir + seq![',', ' ', 't', 'i', 'm', 'e', 'o', 'u', 't', '=']
            + decimal(v.timeout.spec_secs()) + seq![
            's', ',', ' ', 'p', 'r', 'o', 'x', 'y', '=', 't', 'r', 'u', 'e', ')',
        ],
        v.proxy is None ==> v.description() == seq![
            'D', 'o', 'w', 'n', 'l', 'o', 'a', 'd', 'e', 'r', '(', 'o', 'u', 't', 'p', 'u', 't',
            '_', 'd', 'i', 'r', '=',
        ] + v.output_dir + seq![',', ' ', 't', 'i', 'm', 'e', 'o', 'u', 't', '=']
            + decimal(v.timeout.spec_secs()) + seq![
            's', ',', ' ', 'p', 'r', 'o', 'x', 'y', '=', 'f', 'a', 'l', 's', 'e', ')',
        ],
{
    reveal_strlit("Downloader(output_dir=");
    reveal_strlit(", timeout=");
    reveal_strlit("s, proxy=");
    reveal_strlit(")");
    let head = seq![
        'D', 'o', 'w', 'n', 'l', 'o', 'a', 'd', 'e', 'r', '(', 'o', 'u', 't', 'p', 'u', 't',
        '_', 'd', 'i', 'r', '=',
    ] + v.output_dir + seq![',', ' ', 't', 'i', 'm', 'e', 'o', 'u', 't', '=']
        + decimal(v.timeout.spec_secs());
    if v.proxy is Some {
        assert(v.description() =~= head + seq![
            's', ',', ' ', 'p', 'r', 'o', 'x', 'y', '=', 't', 'r', 'u', 'e', ')',
        ]);
    } else {
        assert(v.description() =~= head + seq![
            's', ',', ' ', 'p', 'r', 'o', 'x', 'y', '=', 'f', 'a', 'l', 's', 'e', ')',
        ]);
    }
}

/// A built downloader carries exactly what its builder held: the two
/// executables, the output directory, the time limit and the proxy.
pub proof fn law_build_keeps_builder_settings(
    libraries: LibrariesView,
    output_dir: Seq<char>,
    timeout: Timeout,
    proxy: Option<Seq<char>>,
)
    ensures
        DownloaderView::fresh(libraries, output_dir, timeout, proxy).libraries == libraries,
        DownloaderView::fresh(libraries, output_dir, timeout, proxy).output_dir == output_dir,
        DownloaderView::fresh(libraries, output_dir, timeout, proxy).timeout == timeout,
        DownloaderView::fresh(libraries, output_dir, timeout, proxy).proxy == proxy,
{
}

/// `set_cookies(p)` adds the argument `--cookies=` followed by the whole of `p`.
pub proof fn law_cookies_argument_names_whole_path(v: DownloaderView, path: Seq<char>)
    ensures
        v.with_cookies(path).args.last() == cookies_prefix() + path,
        v.with_cookies(path).args.last().len() == 10 + path.len(),
        v.with_cookies(path).args.last().subrange(10, 10 + path.len() as int) == path,
{
    reveal_strlit("--cookies=");
    assert(cookies_arg(path) =~= cookies_prefix() + path);
    assert((cookies_prefix() + path).subrange(10, 10 + path.len() as int) =~= path);
}

/// `set_cookies_from_browser(b)` adds the argument `--cookies-from-browser=`
/// followed by the whole of `b`.
pub proof fn law_browser_argument_names_given_browser(v: DownloaderView, browser: Seq<char>)
    ensures
        v.with_cookies_from_browser(browser).args.last() == browser_prefix() + browser,
        v.with_cookies_from_browser(browser).args.last().len() == 23 + browser.len(),
        v.with_cookies_from_browser(browser).args.last().subrange(23, 23 + browser.len() as int)
            == browser,
{
    reveal_strlit("--cookies-from-browser=");
    assert(cookies_from_browser_arg(browser) =~= browser_prefix() + browser);
    assert((browser_prefix() + browser).subrange(23, 23 + browser.len() as int) =~= browser);
}

/// The update run starts the configured yt-dlp executable with the single
/// argument `--update` under the configured time limit, whatever arguments
/// the downloader hands yt-dlp otherwise.
pub proof fn law_update_runs_yt_dlp(v: DownloaderView)
    ensures
        v.update_run().executable == v.libraries.youtube,
        v.update_run().args == seq![seq!['-', '-', 'u', 'p', 'd', 'a', 't', 'e']],
        v.update_run().timeout == v.timeout,
{
    reveal_strlit("--update");
    assert(update_arg() =~= seq!['-', '-', 'u', 'p', 'd', 'a', 't', 'e']);
    assert(v.update_run().args =~= seq![seq!['-', '-', 'u', 'p', 'd', 'a', 't', 'e']]);
}

/// `set_netrc()` adds the argument `--netrc`.
pub proof fn law_netrc_argument(v: DownloaderView)
    ensures
        v.with_netrc().args.last() == seq!['-', '-', 'n', 'e', 't', 'r', 'c'],
{
    reveal_strlit("--netrc");
    assert(netrc_arg() =~= seq!['-', '-', 'n', 'e', 't', 'r', 'c']);
}

/// `add_arg(a)` keeps every earlier argument and puts `a` last; `append_args(a)`
/// keeps every earlier argument and puts the whole of `a` after them, in order.
pub proof fn law_argument_list_growth(v: DownloaderView, arg: Seq<char>, args: Seq<Seq<char>>)
    ensures
        v.adding_arg(arg).args.len() == v.args.len() + 1,
        v.adding_arg(arg).args.last() == arg,
        v.adding_arg(arg).args.drop_last() == v.args,
        v.appending_args(args).args.len() == v.args.len() + args.len(),
        v.appending_args(args).args.subrange(0, v.args.len() as int) == v.args,
        v.appending_args(args).args.subrange(v.args.len() as int, (v.args.len() + args.len()) as int)
            == args,
{
    assert(v.args.push(arg).drop_last() =~= v.args);
    assert((v.args + args).subrange(0, v.args.len() as int) =~= v.args);
    assert((v.args + args).subrange(v.args.len() as int, (v.args.len() + args.len()) as int) =~= args);
}

/// The value of a text of decimal digits, most significant first.
pub open spec fn digits_value(s: Seq<char>) -> int
    decreases s.len(),
{
    if s.len() == 0 {
        0
    } else {
        10 * digits_value(s.drop_last()) + (s.last() as int - 48)
    }
}

/// The decimal text of `n` (the time limit as the description writes it) is
/// made of the digits `0` to `9`, reads back as `n`, and starts with `0`
/// only when it is `0` itself.
pub proof fn law_decimal_reads_back(n: nat)
    ensures
        decimal(n).len() >= 1,
        forall|i: int| 0 <= i < decimal(n).len() ==> '0' <= #[trigger] decimal(n)[i] <= '9',
        digits_value(decimal(n)) == n,
        decimal(n)[0] == '0' ==> n == 0,
    decreases n,
{
    let d = (n % 10) as nat;
    assert(digit_char(d) as int == 48 + d);
    if n < 10 {
        assert(decimal(n).drop_last() =~= Seq::<char>::empty());
        assert(digits_value(decimal(n)) == 10 * digits_value(Seq::<char>::empty()) + (
        digit_char(n) as int - 48));
    } else {
        law_decimal_reads_back(n / 10);
        let s = decimal(n);
        assert(s.drop_last() =~= decimal(n / 10));
        assert(s[0] == decimal(n / 10)[0]);
        assert(n == 10 * (n / 10) + n % 10);
    }
}

} // verus!
