use yt_dlp::binaries::{binary_action, BinaryAction, BinarySetup, SetupNext};
use yt_dlp::downloader::{Downloader, DownloaderBuilder, DEFAULT_TIMEOUT_SECS};
use yt_dlp::extractor::{Generic, Youtube};
use yt_dlp::libraries::Libraries;
use yt_dlp::proxy::ProxyConfig;
use yt_dlp::timeout::Timeout;

fn libs() -> Libraries {
    Libraries::new("libs/yt-dlp".to_string(), "libs/ffmpeg".to_string())
}

fn downloader() -> Downloader {
    Downloader::builder(libs(), "output".to_string()).build()
}

fn args_of(d: &Downloader) -> Vec<String> {
    d.args().to_vec()
}

#[test]
fn builder_defaults() {
    let d = downloader();
    assert_eq!(d.output_dir(), "output");
    assert_eq!(d.libraries().youtube, "libs/yt-dlp");
    assert_eq!(d.libraries().ffmpeg, "libs/ffmpeg");
    assert!(d.args().is_empty());
    assert_eq!(d.user_agent(), None);
    assert_eq!(d.timeout().as_secs(), DEFAULT_TIMEOUT_SECS);
    assert_eq!(d.timeout().as_secs(), 30);
    assert_eq!(d.timeout().subsec_nanos(), 0);
    assert!(d.proxy().is_none());
    assert!(!d.is_shutdown_requested());
}

#[test]
fn fresh_downloader_is_unauthenticated() {
    let d = downloader();
    for auth in [d.youtube_extractor().auth(), d.generic_extractor().auth()] {
        assert_eq!(auth.cookies(), None);
        assert_eq!(auth.cookies_from_browser(), None);
        assert!(!auth.netrc());
    }
}

#[test]
fn builder_with_timeout_and_proxy() {
    let d = DownloaderBuilder::new(libs(), "out".to_string())
        .with_timeout(Timeout::from_secs(120))
        .with_proxy(ProxyConfig::new("http://proxy:8080"))
        .build();
    assert_eq!(d.timeout().as_secs(), 120);
    assert_eq!(d.proxy().map(|p| p.url()), Some("http://proxy:8080"));
}

#[test]
fn set_user_agent_reads_back() {
    let mut d = downloader();
    d.set_user_agent("Mozilla/5.0");
    assert_eq!(d.user_agent(), Some("Mozilla/5.0"));
    d.set_user_agent("curl/8");
    assert_eq!(d.user_agent(), Some("curl/8"));
    assert!(d.args().is_empty());
}

#[test]
fn append_args_keeps_order() {
    let mut d = downloader();
    d.append_args(vec!["--no-progress".to_string()]);
    d.append_args(vec!["-f".to_string(), "best".to_string()]);
    assert_eq!(args_of(&d), vec!["--no-progress", "-f", "best"]);
}

#[test]
fn set_args_replaces_everything() {
    let mut d = downloader();
    d.add_arg("--a").add_arg("--b");
    d.set_args(vec!["--c".to_string()]);
    assert_eq!(args_of(&d), vec!["--c"]);
    d.set_args(Vec::new());
    assert!(d.args().is_empty());
}

#[test]
fn set_then_append_equals_set_of_concatenation() {
    let mut a = downloader();
    a.set_args(vec!["x".to_string()]).append_args(vec!["y".to_string()]);
    let mut b = downloader();
    b.set_args(vec!["x".to_string(), "y".to_string()]);
    assert_eq!(args_of(&a), args_of(&b));
}

#[test]
fn add_arg_pushes_one() {
    let mut d = downloader();
    d.add_arg("--no-progress");
    assert_eq!(args_of(&d), vec!["--no-progress"]);
}

#[test]
fn set_timeout_reads_back() {
    let mut d = downloader();
    d.set_timeout(Timeout::new(300, 5));
    assert_eq!(d.timeout().as_secs(), 300);
    assert_eq!(d.timeout().subsec_nanos(), 5);
}

#[test]
fn user_agent_and_timeout_commute() {
    let mut a = downloader();
    a.set_user_agent("ua").set_timeout(Timeout::from_secs(9));
    let mut b = downloader();
    b.set_timeout(Timeout::from_secs(9)).set_user_agent("ua");
    assert_eq!(a.display_string(), b.display_string());
    assert_eq!(a.user_agent(), b.user_agent());
    assert_eq!(a.timeout(), b.timeout());
    assert_eq!(args_of(&a), args_of(&b));
}

#[test]
fn set_cookies_reaches_both_extractors_and_args() {
    let mut d = downloader();
    d.add_arg("--keep");
    d.set_cookies("/tmp/cookies.txt");
    assert_eq!(args_of(&d), vec!["--keep", "--cookies=/tmp/cookies.txt"]);
    assert_eq!(d.youtube_extractor().auth().cookies(), Some("/tmp/cookies.txt"));
    assert_eq!(d.generic_extractor().auth().cookies(), Some("/tmp/cookies.txt"));
    assert_eq!(d.youtube_extractor().auth().cookies_from_browser(), None);
    assert!(!d.generic_extractor().auth().netrc());
}

#[test]
fn set_cookies_from_browser_reaches_both_extractors_and_args() {
    let mut d = downloader();
    d.set_cookies_from_browser("firefox");
    assert_eq!(args_of(&d), vec!["--cookies-from-browser=firefox"]);
    assert_eq!(d.youtube_extractor().auth().cookies_from_browser(), Some("firefox"));
    assert_eq!(d.generic_extractor().auth().cookies_from_browser(), Some("firefox"));
    assert_eq!(d.generic_extractor().auth().cookies(), None);
}

#[test]
fn set_netrc_reaches_both_extractors_and_args() {
    let mut d = downloader();
    d.set_netrc();
    assert_eq!(args_of(&d), vec!["--netrc"]);
    assert!(d.youtube_extractor().auth().netrc());
    assert!(d.generic_extractor().auth().netrc());
}

#[test]
fn set_netrc_twice_records_two_arguments() {
    let mut d = downloader();
    d.set_netrc().set_netrc();
    assert_eq!(args_of(&d), vec!["--netrc", "--netrc"]);
    assert!(d.youtube_extractor().auth().netrc());
}

#[test]
fn display_string_of_default_downloader() {
    let d = downloader();
    assert_eq!(
        d.display_string(),
        "Downloader(output_dir=output, timeout=30s, proxy=false)"
    );
}

#[test]
fn display_string_with_proxy_and_long_timeout() {
    let mut d = DownloaderBuilder::new(libs(), "/data/videos".to_string())
        .with_proxy(ProxyConfig::new("socks5://h:1080"))
        .build();
    d.set_timeout(Timeout::new(18_446_744_073_709_551_615, 999_999_999));
    assert_eq!(
        d.display_string(),
        "Downloader(output_dir=/data/videos, timeout=18446744073709551615s, proxy=true)"
    );
    d.set_timeout(Timeout::from_secs(0));
    assert_eq!(
        d.display_string(),
        "Downloader(output_dir=/data/videos, timeout=0s, proxy=true)"
    );
}

#[test]
fn update_executor_runs_yt_dlp_update() {
    let mut d = downloader();
    d.set_timeout(Timeout::from_secs(45));
    d.add_arg("--ignored");
    let e = d.update_executor();
    assert_eq!(e.executable, "libs/yt-dlp");
    assert_eq!(e.args, vec!["--update".to_string()]);
    assert_eq!(e.timeout.as_secs(), 45);
}

#[test]
fn clone_preserves_configuration() {
    let mut d = downloader();
    d.set_cookies("c.txt").set_netrc().set_user_agent("ua");
    let c = d.clone();
    assert_eq!(args_of(&c), args_of(&d));
    assert_eq!(c.user_agent(), Some("ua"));
    assert_eq!(c.youtube_extractor().auth().cookies(), Some("c.txt"));
    assert!(c.generic_extractor().auth().netrc());
    assert_eq!(c.display_string(), d.display_string());
}

#[test]
fn shutdown_is_seen_by_clones() {
    let d = downloader();
    let c = d.clone();
    assert!(!c.is_shutdown_requested());
    d.shutdown();
    assert!(d.is_shutdown_requested());
    assert!(c.is_shutdown_requested());
}

#[test]
fn binary_action_installs_only_missing() {
    assert_eq!(binary_action(true), BinaryAction::UseExisting);
    assert_eq!(binary_action(false), BinaryAction::Install);
}

#[test]
fn extractors_chain_settings() {
    let mut y = Youtube::new();
    y.with_cookies("a").with_netrc();
    assert_eq!(y.auth().cookies(), Some("a"));
    assert!(y.auth().netrc());
    let mut g = Generic::new();
    g.with_cookies_from_browser("chrome");
    assert_eq!(g.auth().cookies_from_browser(), Some("chrome"));
    assert_eq!(g.clone().auth().cookies_from_browser(), Some("chrome"));
}

#[test]
fn binary_setup_resolves_youtube_then_ffmpeg() {
    let s = BinarySetup::start("out".to_string());
    assert_eq!(s.executable(), "yt-dlp");
    let s = match s.step::<String>(Ok("bin/yt-dlp".to_string())) {
        SetupNext::Continue(s) => s,
        _ => panic!("expected to continue with ffmpeg"),
    };
    assert_eq!(s.executable(), "ffmpeg");
    match s.step::<String>(Ok("bin/ffmpeg".to_string())) {
        SetupNext::Built(b) => {
            let d = b.build();
            assert_eq!(d.libraries().youtube, "bin/yt-dlp");
            assert_eq!(d.libraries().ffmpeg, "bin/ffmpeg");
            assert_eq!(d.output_dir(), "out");
            assert_eq!(d.timeout().as_secs(), 30);
        }
        _ => panic!("expected a builder"),
    }
}

#[test]
fn binary_setup_stops_at_first_error() {
    let s = BinarySetup::start("out".to_string());
    match s.step(Err("no network")) {
        SetupNext::Failed(e) => assert_eq!(e, "no network"),
        _ => panic!("expected the yt-dlp error"),
    }
    let s = match BinarySetup::start("out".to_string()).step::<&str>(Ok("y".to_string())) {
        SetupNext::Continue(s) => s,
        _ => panic!("expected to continue"),
    };
    match s.step(Err("disk full")) {
        SetupNext::Failed(e) => assert_eq!(e, "disk full"),
        _ => panic!("expected the ffmpeg error"),
    }
}

#[test]
fn call_sequence_keeps_paths_and_builds_args_after_last_set() {
    let mut d = downloader();
    d.add_arg("--early")
        .set_user_agent("ua")
        .set_args(vec!["-x".to_string()])
        .set_cookies("c.txt")
        .set_timeout(Timeout::from_secs(5))
        .append_args(vec!["-f".to_string(), "best".to_string()])
        .set_cookies_from_browser("chrome")
        .set_netrc()
        .add_arg("--late");
    assert_eq!(
        args_of(&d),
        vec![
            "-x",
            "--cookies=c.txt",
            "-f",
            "best",
            "--cookies-from-browser=chrome",
            "--netrc",
            "--late"
        ]
    );
    assert_eq!(d.libraries().youtube, "libs/yt-dlp");
    assert_eq!(d.libraries().ffmpeg, "libs/ffmpeg");
    assert_eq!(d.output_dir(), "output");
}
