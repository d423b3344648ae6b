//! One addressable audio file: a path plus its extension, validated when the
//! handle is created. The handle holds no open file; each playback or
//! metadata query opens a fresh format session from the path.

use crate::after_last_spec;
use crate::last_index_of_spec;
use crate::remove_ext_spec;
use crate::stem_of;
use crate::Metadata;
use crate::NError;
use crate::TrackTime;
use vstd::prelude::*;

verus! {

/// The extension of the file name of `path`: the part of the name after its
/// last `.`, provided that dot is neither missing nor the name's first
/// character (a name like `.conf` has no extension).
pub open spec fn extension_spec(path: Seq<char>) -> Option<Seq<char>> {
    let name = after_last_spec(path, '/');
    let dot = last_index_of_spec(name, '.');
    if dot >= 1 {
        Some(name.subrange(dot + 1, name.len() as int))
    } else {
        None
    }
}

/// The extensions with a registered container or codec: the formats bundled
/// with the decoding library plus the custom length-prefixed container and
/// the Opus elementary stream.
pub open spec fn extension_supported_spec(ext: Seq<char>) -> bool {
    ||| ext == "aac"@
    ||| ext == "adts"@
    ||| ext == "caf"@
    ||| ext == "dca"@
    ||| ext == "flac"@
    ||| ext == "m4a"@
    ||| ext == "mkv"@
    ||| ext == "mp1"@
    ||| ext == "mp2"@
    ||| ext == "mp3"@
    ||| ext == "oga"@
    ||| ext == "ogg"@
    ||| ext == "opus"@
    ||| ext == "wav"@
    ||| ext == "webm"@
}

/// Whether a registered container or codec claims this extension.
pub fn extension_supported(ext: &String) -> (r: bool)
    ensures
        r == extension_supported_spec(ext@),
{
    let r = *ext == String::from_str("aac") || *ext == String::from_str("adts") || *ext
        == String::from_str("caf") || *ext == String::from_str("dca") || *ext == String::from_str(
        "flac",
    ) || *ext == String::from_str("m4a") || *ext == String::from_str("mkv") || *ext
        == String::from_str("mp1") || *ext == String::from_str("mp2") || *ext == String::from_str(
        "mp3",
    ) || *ext == String::from_str("oga") || *ext == String::from_str("ogg") || *ext
        == String::from_str("opus") || *ext == String::from_str("wav") || *ext
        == String::from_str("webm");
    r
}

/// What a metadata tag is good for when a track is described.
#[derive(Copy, Clone, Debug, PartialEq, Eq, Structural)]
pub enum TagKind {
    /// The tag names the artist.
    Artist,
    /// The tag names the track title.
    Title,
    /// Any other tag; it plays no part here.
    Other,
}

/// The value of the last tag of this kind, empty when there is none: a later
/// tag of the same kind overwrites an earlier one.
pub open spec fn last_tag_spec(tags: Seq<(TagKind, String)>, kind: TagKind) -> Seq<char>
    decreases tags.len(),
{
    if tags.len() == 0 {
        Seq::empty()
    } else if tags.last().0 == kind {
        tags.last().1@
    } else {
        last_tag_spec(tags.drop_last(), kind)
    }
}

/// Picks the artist and the title out of a format session's tag list: for
/// each, the last tag of that kind wins, and a missing one stays empty.
pub fn select_tags(tags: &Vec<(TagKind, String)>) -> (r: (String, String))
    ensures
        r.0@ == last_tag_spec(tags@, TagKind::Artist),
        r.1@ == last_tag_spec(tags@, TagKind::Title),
{
    let mut artist = String::new();
    let mut title = String::new();
    let mut i: usize = 0;
    while i < tags.len()
        invariant
            i <= tags@.len(),
            artist@ == last_tag_spec(tags@.take(i as int), TagKind::Artist),
            title@ == last_tag_spec(tags@.take(i as int), TagKind::Title),
        decreases tags@.len() - i,
    {
        match tags[i].0 {
            TagKind::Artist => {
                artist = tags[i].1.clone();
            },
            TagKind::Title => {
                title = tags[i].1.clone();
            },
            TagKind::Other => {},
        }
        proof {
            assert(tags@.take(i + 1).drop_last() =~= tags@.take(i as int));
            assert(tags@.take(i + 1).last() == tags@[i as int]);
        }
        i = i + 1;
    }
    proof {
        assert(tags@.take(tags@.len() as int) =~= tags@);
    }
    (artist, title)
}

/// The track length that a format session's codec parameters amount to: the
/// start timestamp plus the frame count, taken through the time base, at
/// position zero. This is the computing half of a duration query; reading
/// the parameters from the file is the session's business.
pub fn length_from_params(start_ts: u64, n_frames: u64, tb_num: u32, tb_den: u32) -> (r: TrackTime)
    requires
        tb_den > 0,
    ensures
        r.position_ms == 0,
        r.length_ms == crate::worker::capped_u64_spec(
            crate::worker::ticks_to_ms_spec(
                crate::worker::capped_u64_spec(start_ts + n_frames),
                tb_num as int,
                tb_den as int,
            ),
        ),
{
    let duration = crate::worker::duration_ticks(start_ts, n_frames);
    TrackTime { position_ms: 0, length_ms: crate::worker::ticks_to_ms(duration, tb_num, tb_den) }
}

/// What the contracts say about a track handle.
pub struct TrackModel {
    /// The path the handle was created from.
    pub path: Seq<char>,
    /// The file name's extension, already checked against the registry.
    pub ext: Seq<char>,
}

/// One addressable audio file. Creating the handle validates that the file
/// name carries an extension some registered format claims; it performs no
/// input or output.
#[derive(Debug)]
pub struct MusicTrack {
    path: String,
    ext: String,
}

impl View for MusicTrack {
    type V = TrackModel;

    closed spec fn view(&self) -> TrackModel {
        TrackModel { path: self.path@, ext: self.ext@ }
    }
}

impl MusicTrack {
    /// Validates `path` and wraps it: the file name must have an extension
    /// and a registered format must claim it. Anything else is an
    /// unsupported format, reported without touching the file.
    pub fn new(path: String) -> (r: Result<MusicTrack, NError>)
        ensures
            r matches Ok(track) ==> extension_spec(path@) == Some(track@.ext) && track@.path
                == path@ && extension_supported_spec(track@.ext),
            r is Ok <==> (extension_spec(path@) matches Some(e) && extension_supported_spec(e)),
            r matches Err(e) ==> e == NError::UnsupportedFormat,
    {
        let name = crate::strip_absolute_path(path.clone());
        let s = name.as_str();
        match crate::last_index_of(s, '.') {
            Some(dot) => {
                if dot >= 1 {
                    let n: usize = s.unicode_len();
                    let ext = s.substring_char(dot + 1, n).to_owned();
                    proof {
                        crate::lemma_last_index_of_spec(s@, '.');
                        assert(ext@ =~= extension_spec(path@).unwrap());
                    }
                    if extension_supported(&ext) {
                        Ok(MusicTrack { path, ext })
                    } else {
                        Err(NError::UnsupportedFormat)
                    }
                } else {
                    Err(NError::UnsupportedFormat)
                }
            },
            None => Err(NError::UnsupportedFormat),
        }
    }

    /// The path the handle was created from.
    pub fn path(&self) -> (r: &String)
        ensures
            r@ == self@.path,
    {
        &self.path
    }

    /// The validated extension, used as the probe's format hint.
    pub fn ext(&self) -> (r: &String)
        ensures
            r@ == self@.ext,
    {
        &self.ext
    }

    /// Assembles the metadata of this track from what a format session
    /// yielded: the artist as read, the title as read with the file name
    /// (extension removed) as fallback for an empty title, and the track
    /// length at position zero.
    pub fn build_metadata(&self, artist: String, title: String, length: TrackTime) -> (r: Metadata)
        ensures
            r.artist@ == artist@,
            title@.len() > 0 ==> r.title@ == title@,
            title@.len() == 0 ==> r.title@ == remove_ext_spec(self@.path),
            r.time.position_ms == 0,
            r.time.length_ms == length.length_ms,
    {
        let resolved = if title.as_str().unicode_len() > 0 {
            title
        } else {
            stem_of(self.path.as_str())
        };
        Metadata {
            time: TrackTime { position_ms: 0, length_ms: length.length_ms },
            artist,
            title: resolved,
        }
    }
}

} // verus!
