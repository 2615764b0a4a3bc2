//! The choice made for each of the two executables when a downloader is set
//! up with freshly installed binaries.
use vstd::prelude::*;
use crate::downloader::{Downloader, DownloaderBuilder, DEFAULT_TIMEOUT_SECS};
use crate::libraries::{Libraries, LibrariesView};

verus! {

/// What to do about one executable.
#[derive(Clone, Copy, Debug, PartialEq, Eq, Structural)]
pub enum BinaryAction {
    /// The executable is already in place: use it.
    UseExisting,
    /// The executable is missing: install it.
    Install,
}

/// An executable already present is used as it is; a missing one is installed.
pub fn binary_action(exists: bool) -> (a: BinaryAction)
    ensures
        a == (if exists { BinaryAction::UseExisting } else { BinaryAction::Install }),
{
    if exists {
        BinaryAction::UseExisting
    } else {
        BinaryAction::Install
    }
}

/// How far the setup of the two executables has come. yt-dlp is resolved
/// first; ffmpeg is resolved only once yt-dlp is.
pub enum BinarySetup {
    /// yt-dlp is to be resolved; downloads will go to `output_dir`.
    Youtube { output_dir: String },
    /// yt-dlp is at `youtube`; ffmpeg is to be resolved.
    Ffmpeg { output_dir: String, youtube: String },
}

/// What follows one resolved (or failed) executable.
pub enum SetupNext<E> {
    /// Resolve the next executable, from this state.
    Continue(BinarySetup),
    /// Both executables are resolved: the builder for the downloader.
    Built(DownloaderBuilder),
    /// An executable could not be resolved: the setup stops with this error.
    Failed(E),
}

/// The name of the yt-dlp executable.
pub open spec fn youtube_name() -> Seq<char> {
    "yt-dlp"@
}

/// The name of the ffmpeg executable.
pub open spec fn ffmpeg_name() -> Seq<char> {
    "ffmpeg"@
}

impl BinarySetup {
    /// The setup of a downloader that writes to `output_dir`, before either
    /// executable is resolved.
    pub fn start(output_dir: String) -> (s: BinarySetup)
        ensures
            s matches BinarySetup::Youtube { output_dir: d } && d@ == output_dir@,
    {
        BinarySetup::Youtube { output_dir }
    }

    /// The name of the executable to resolve now.
    pub fn executable(&self) -> (name: &'static str)
        ensures
            name@ == (if self is Youtube { youtube_name() } else { ffmpeg_name() }),
    {
        match self {
            BinarySetup::Youtube { .. } => "yt-dlp",
            BinarySetup::Ffmpeg { .. } => "ffmpeg",
        }
    }

    /// Takes the outcome of resolving the current executable: its path, or
    /// the error of its installation. An error ends the setup with that error;
    /// yt-dlp's path leads on to ffmpeg; ffmpeg's path gives the builder with
    /// both paths, the default time limit and no proxy.
    pub fn step<E>(self, outcome: Result<String, E>) -> (next: SetupNext<E>)
        ensures
            match outcome {
                Err(e) => next == SetupNext::<E>::Failed(e),
                Ok(path) => match self {
                    BinarySetup::Youtube { output_dir } => next matches SetupNext::Continue(
                        BinarySetup::Ffmpeg { output_dir: d, youtube: y },
                    ) && d@ == output_dir@ && y@ == path@,
                    BinarySetup::Ffmpeg { output_dir, youtube } => next matches SetupNext::Built(b)
                        && b@.libraries == (LibrariesView { youtube: youtube@, ffmpeg: path@ })
                        && b@.output_dir == output_dir@
                        && b@.timeout.spec_secs() == DEFAULT_TIMEOUT_SECS
                        && b@.timeout.spec_nanos() == 0
                        && b@.proxy is None,
                },
            },
    {
        match outcome {
            Err(e) => SetupNext::Failed(e),
            Ok(path) => match self {
                BinarySetup::Youtube { output_dir } => SetupNext::Continue(
                    BinarySetup::Ffmpeg { output_dir, youtube: path },
                ),
                BinarySetup::Ffmpeg { output_dir, youtube } => SetupNext::Built(
                    Downloader::builder(Libraries::new(youtube, path), output_dir),
                ),
            },
        }
    }
}

} // verus!
