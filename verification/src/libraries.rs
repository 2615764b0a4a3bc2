//! Locations of the two programs a downloader drives.
use vstd::prelude::*;

verus! {

/// The paths of the yt-dlp and ffmpeg executables.
#[derive(Debug)]
pub struct Libraries {
    /// Path of the yt-dlp executable.
    pub youtube: String,
    /// Path of the ffmpeg executable.
    pub ffmpeg: String,
}

/// What a [`Libraries`] holds: the yt-dlp path and the ffmpeg path.
pub struct LibrariesView {
    pub youtube: Seq<char>,
    pub ffmpeg: Seq<char>,
}

impl View for Libraries {
    type V = LibrariesView;

    open spec fn view(&self) -> LibrariesView {
        LibrariesView { youtube: self.youtube@, ffmpeg: self.ffmpeg@ }
    }
}

impl Libraries {
    /// Pairs the yt-dlp path with the ffmpeg path.
    pub fn new(youtube: String, ffmpeg: String) -> (l: Libraries)
        ensures
            l@ == (LibrariesView { youtube: youtube@, ffmpeg: ffmpeg@ }),
    {
        Libraries { youtube, ffmpeg }
    }

}

impl Clone for Libraries {
    /// A copy holding the same two paths.
    fn clone(&self) -> (l: Libraries)
        ensures
            l@ == self@,
    {
        Libraries { youtube: self.youtube.clone(), ffmpeg: self.ffmpeg.clone() }
    }
}

} // verus!
