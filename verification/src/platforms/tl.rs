//! TorrentLeech: torrent files come from its RSS download address.

use vstd::prelude::*;
use vstd::string::*;
use base64::Engine;
use crate::platforms::TorrentPlatform;
use crate::text::{dotted, lemma_replaced_one_char, replace};

verus! {

/// The base64 text, in the standard alphabet and without padding, that
/// `base64::engine::general_purpose::STANDARD_NO_PAD` encodes bytes to.
pub uninterp spec fn base64_no_pad(bytes: Seq<u8>) -> Seq<char>;

/// `Engine::encode` of `base64::engine::general_purpose::STANDARD_NO_PAD`:
/// the text depends on the bytes alone. The length is kept to what a slice
/// can hold, for which the encoder's buffer size cannot overflow.
#[verifier::external_body]
fn encode_no_pad(bytes: &[u8]) -> (r: String)
    requires
        bytes@.len() <= isize::MAX,
    ensures
        r@ == base64_no_pad(bytes@),
{
    base64::engine::general_purpose::STANDARD_NO_PAD.encode(bytes)
}

/// The name under which the torrent file of a release is kept and asked for.
pub open spec fn torrent_file_name(name: Seq<char>) -> Seq<char> {
    dotted(name) + ".torrent"@
}

/// The address of the torrent file of a release for an account.
pub open spec fn download_url(rss_key: Seq<char>, name: Seq<char>, id: Seq<char>) -> Seq<char> {
    "https://www.torrentleech.org/rss/download/"@ + id + "/"@ + rss_key + "/"@ + torrent_file_name(
        name,
    )
}

/// An account on TorrentLeech and the directory for fetched files.
pub struct TorrentLeech {
    rss_key: String,
    torrent_dir: String,
}

impl TorrentLeech {
    /// The key of the account.
    pub closed spec fn spec_rss_key(&self) -> Seq<char> {
        self.rss_key@
    }

    /// The directory for fetched files.
    pub closed spec fn spec_torrent_dir(&self) -> Seq<char> {
        self.torrent_dir@
    }

    /// The account with the given key, keeping files in `torrent_dir`.
    pub fn new(rss_key: String, torrent_dir: String) -> (r: TorrentLeech)
        ensures
            r.spec_rss_key() == rss_key@,
            r.spec_torrent_dir() == torrent_dir@,
    {
        TorrentLeech { rss_key, torrent_dir }
    }

    /// The name under which the torrent file of a release is kept: the
    /// release name with full stops for spaces, and `.torrent` behind it.
    pub fn torrent_file(name: &str) -> (r: String)
        ensures
            r@ == torrent_file_name(name@),
    {
        proof {
            reveal_strlit(" ");
            reveal_strlit(".");
            assert(" "@ =~= seq![' ']);
            assert("."@ =~= seq!['.']);
            lemma_replaced_one_char(name@, ' ', '.');
        }
        replace(name, " ", ".").concat(".torrent")
    }

    /// A fetched torrent file as the download clients take it: in base64
    /// without padding.
    pub fn encode_payload(bytes: &[u8]) -> (r: String)
        requires
            bytes@.len() <= isize::MAX,
        ensures
            r@ == base64_no_pad(bytes@),
    {
        encode_no_pad(bytes)
    }
}

impl TorrentPlatform for TorrentLeech {
    fn get_torrent_files_dir(&self) -> (r: &str)
        ensures
            r@ == self.spec_torrent_dir(),
    {
        self.torrent_dir.as_str()
    }

    fn download_address(&self, name: &str, id: &str) -> (r: String)
        ensures
            r@ == download_url(self.spec_rss_key(), name@, id@),
    {
        let file = TorrentLeech::torrent_file(name);
        String::from_str("https://www.torrentleech.org/rss/download/").concat(id).concat(
            "/",
        ).concat(self.rss_key.as_str()).concat("/").concat(file.as_str())
    }
}

} // verus!
