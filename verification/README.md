# yt_dlp

The configuration core of a yt-dlp based video downloader, verified with Verus.

- `src/downloader.rs`: `Downloader`, its builder, and the view `DownloaderView`
  over which every setter and getter states its contract.
- `src/extractor.rs`: authentication settings of the YouTube and generic extractors.
- `src/laws.rs`: properties that relate the operations (read after write,
  effects of whole call sequences,
  argument-list algebra, authentication reaching both extractors and yt-dlp).
- `src/text.rs`: decimal and boolean rendering used by `display_string`.
- `src/cancel.rs`: the shutdown signal, a `tokio_util` cancellation token.
- `src/timeout.rs`, `src/libraries.rs`, `src/proxy.rs`, `src/executor.rs`,
  `src/binaries.rs`: the values a downloader is made of.
- `app/`: conversions from `Path` and `Duration`, file-system checks, starting
  yt-dlp, and `Display`.
