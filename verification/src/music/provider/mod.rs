//! Where tracks come from: local files, HTTP streams, podcasts, yt-dlp and radio.

pub mod podcast;
pub mod radio;
pub mod ytdlp;

use vstd::prelude::*;

use super::{SourceKind, TrackMeta};

verus! {

/// How the bytes of `track` are to be read: local tracks from the file system, every
/// other provider's tracks by an HTTP request for `path_or_url`.
pub fn reader_source(track: &TrackMeta) -> (r: SourceKind)
    ensures
        r == track.provider.spec_source_kind(),
        r == SourceKind::LocalFile <==> track.provider == super::ProviderKind::Local,
{
    track.provider.source_kind()
}

} // verus!
