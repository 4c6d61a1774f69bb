//! The platforms that announce releases and hand out torrent files.

use vstd::prelude::*;

pub mod tl;

verus! {

/// What the bot asks of a platform: where the torrent file of a release is
/// to be had, and where fetched files are kept.
pub trait TorrentPlatform {
    /// The directory in which fetched torrent files are kept.
    fn get_torrent_files_dir(&self) -> &str;

    /// The address from which the torrent file of a release is fetched.
    fn download_address(&self, name: &str, id: &str) -> String;
}

/// The platform of a run.
pub enum TorrentPlatformsEnum {
    TorrentLeech(tl::TorrentLeech),
}

} // verus!
