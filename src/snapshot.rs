//! The now-playing record and the rules that build one from what the media
//! service reported.
use vstd::prelude::*;
use crate::codec::{base64_encode, encode};
use crate::mime::{detect_image_mime_type, sniffed_mime};

verus! {

/// An IEEE-754 double, carried by its bit pattern.
#[derive(Clone, Copy, PartialEq, Eq, Structural, Debug)]
pub struct F64Bits {
    pub bits: u64,
}

/// Largest bit pattern of a positive double: positive infinity. Patterns
/// above it with the sign bit clear are NaNs.
pub const POSITIVE_INFINITY_BITS: u64 = 0x7FF0_0000_0000_0000;

/// Whether the double with bit pattern `x` is greater than zero: sign bit
/// clear, not zero, not NaN.
pub open spec fn is_positive(x: F64Bits) -> bool {
    0 < x.bits <= POSITIVE_INFINITY_BITS
}

/// Whether a playback rate says the media is playing.
pub open spec fn rate_is_playing(rate: Option<F64Bits>) -> bool {
    match rate {
        Some(x) => is_positive(x),
        None => false,
    }
}

/// Whether a double, given by its bit pattern, is greater than zero.
pub fn positive(x: F64Bits) -> (r: bool)
    ensures
        r == is_positive(x),
{
    0 < x.bits && x.bits <= POSITIVE_INFINITY_BITS
}

/// Whether a playback rate, if reported, is greater than zero.
pub fn playing_from_rate(rate: Option<F64Bits>) -> (r: bool)
    ensures
        r == rate_is_playing(rate),
{
    match rate {
        Some(x) => positive(x),
        None => false,
    }
}

/// One now-playing snapshot.
#[derive(Debug)]
pub struct NowPlayingInfo {
    pub bundle_identifier: String,
    pub playing: bool,
    pub title: String,
    pub artist: Option<String>,
    pub album: Option<String>,
    pub duration: Option<F64Bits>,
    pub elapsed_time: Option<F64Bits>,
    pub artwork_mime_type: Option<String>,
    pub artwork_data: Option<String>,
    pub playback_rate: Option<F64Bits>,
}

/// The text of an optional string.
pub open spec fn opt_view(o: Option<String>) -> Option<Seq<char>> {
    match o {
        Some(s) => Some(s@),
        None => None,
    }
}

impl NowPlayingInfo {
    /// A snapshot that may be handed out: it has a title, `playing` agrees
    /// with the playback rate, and a MIME type comes only with artwork.
    pub open spec fn wf(&self) -> bool {
        &&& self.title@.len() > 0
        &&& self.playing == rate_is_playing(self.playback_rate)
        &&& (self.artwork_mime_type is Some ==> self.artwork_data is Some)
    }

    /// A copy equal to `self` in every field.
    pub fn duplicate(&self) -> (r: NowPlayingInfo)
        ensures
            r == *self,
    {
        NowPlayingInfo {
            bundle_identifier: self.bundle_identifier.clone(),
            playing: self.playing,
            title: self.title.clone(),
            artist: copy_text(&self.artist),
            album: copy_text(&self.album),
            duration: self.duration,
            elapsed_time: self.elapsed_time,
            artwork_mime_type: copy_text(&self.artwork_mime_type),
            artwork_data: copy_text(&self.artwork_data),
            playback_rate: self.playback_rate,
        }
    }
}

impl Default for NowPlayingInfo {
    /// The empty record: no title, nothing playing, every optional field absent.
    fn default() -> (r: NowPlayingInfo)
        ensures
            r.bundle_identifier@.len() == 0,
            r.title@.len() == 0,
            !r.playing,
            r.artist is None,
            r.album is None,
            r.duration is None,
            r.elapsed_time is None,
            r.artwork_mime_type is None,
            r.artwork_data is None,
            r.playback_rate is None,
    {
        NowPlayingInfo {
            bundle_identifier: String::new(),
            playing: false,
            title: String::new(),
            artist: None,
            album: None,
            duration: None,
            elapsed_time: None,
            artwork_mime_type: None,
            artwork_data: None,
            playback_rate: None,
        }
    }
}

fn copy_text(o: &Option<String>) -> (r: Option<String>)
    ensures
        r == *o,
{
    match o {
        Some(s) => Some(s.clone()),
        None => None,
    }
}

/// What the media service reported: the value of each known key of the
/// now-playing dictionary, if present.
pub struct NowPlayingFields {
    pub title: Option<String>,
    pub artist: Option<String>,
    pub album: Option<String>,
    pub duration: Option<F64Bits>,
    pub elapsed_time: Option<F64Bits>,
    pub playback_rate: Option<F64Bits>,
    pub artwork: Option<Vec<u8>>,
}

/// The keys of the now-playing dictionary that a snapshot is read from.
#[derive(Clone, Copy, PartialEq, Eq, Structural, Debug)]
pub enum InfoKey {
    Title,
    Artist,
    Album,
    Duration,
    ElapsedTime,
    PlaybackRate,
    ArtworkData,
}

/// How the value under a key is read.
#[derive(Clone, Copy, PartialEq, Eq, Structural, Debug)]
pub enum ValueKind {
    /// The value's description.
    Text,
    /// The value as a double.
    Number,
    /// The raw bytes of a data value.
    Bytes,
}

/// How the value under a key is read.
pub open spec fn key_kind(k: InfoKey) -> ValueKind {
    match k {
        InfoKey::Title | InfoKey::Artist | InfoKey::Album => ValueKind::Text,
        InfoKey::Duration | InfoKey::ElapsedTime | InfoKey::PlaybackRate => ValueKind::Number,
        InfoKey::ArtworkData => ValueKind::Bytes,
    }
}

impl InfoKey {
    /// Every key, in the order they are read.
    pub fn all() -> (r: Vec<InfoKey>)
        ensures
            r@ == seq![InfoKey::Title, InfoKey::Artist, InfoKey::Album, InfoKey::Duration,
                InfoKey::ElapsedTime, InfoKey::PlaybackRate, InfoKey::ArtworkData],
    {
        vec![InfoKey::Title, InfoKey::Artist, InfoKey::Album, InfoKey::Duration,
            InfoKey::ElapsedTime, InfoKey::PlaybackRate, InfoKey::ArtworkData]
    }

    /// The dictionary key's name.
    pub fn name(self) -> (r: &'static str)
        ensures
            r@ == key_name(self),
    {
        match self {
            InfoKey::Title => "kMRMediaRemoteNowPlayingInfoTitle",
            InfoKey::Artist => "kMRMediaRemoteNowPlayingInfoArtist",
            InfoKey::Album => "kMRMediaRemoteNowPlayingInfoAlbum",
            InfoKey::Duration => "kMRMediaRemoteNowPlayingInfoDuration",
            InfoKey::ElapsedTime => "kMRMediaRemoteNowPlayingInfoElapsedTime",
            InfoKey::PlaybackRate => "kMRMediaRemoteNowPlayingInfoPlaybackRate",
            InfoKey::ArtworkData => "kMRMediaRemoteNowPlayingInfoArtworkData",
        }
    }

    /// How the value under this key is read.
    pub fn kind(self) -> (r: ValueKind)
        ensures
            r == key_kind(self),
    {
        match self {
            InfoKey::Title | InfoKey::Artist | InfoKey::Album => ValueKind::Text,
            InfoKey::Duration | InfoKey::ElapsedTime | InfoKey::PlaybackRate => ValueKind::Number,
            InfoKey::ArtworkData => ValueKind::Bytes,
        }
    }
}

/// The name of a key in the now-playing dictionary.
pub open spec fn key_name(k: InfoKey) -> Seq<char> {
    match k {
        InfoKey::Title => "kMRMediaRemoteNowPlayingInfoTitle"@,
        InfoKey::Artist => "kMRMediaRemoteNowPlayingInfoArtist"@,
        InfoKey::Album => "kMRMediaRemoteNowPlayingInfoAlbum"@,
        InfoKey::Duration => "kMRMediaRemoteNowPlayingInfoDuration"@,
        InfoKey::ElapsedTime => "kMRMediaRemoteNowPlayingInfoElapsedTime"@,
        InfoKey::PlaybackRate => "kMRMediaRemoteNowPlayingInfoPlaybackRate"@,
        InfoKey::ArtworkData => "kMRMediaRemoteNowPlayingInfoArtworkData"@,
    }
}

/// Whether reported fields make a snapshot: only a non-empty title does.
pub open spec fn has_title(f: NowPlayingFields) -> bool {
    f.title matches Some(t) && t@.len() > 0
}

/// Whether reported artwork is carried: present and not empty.
pub open spec fn has_artwork(f: NowPlayingFields) -> bool {
    f.artwork matches Some(a) && a@.len() > 0
}

/// The snapshot built from reported fields and the owning application's
/// identity, which holds every reported value, derives `playing` from the
/// playback rate and carries non-empty artwork as base64 with its sniffed type.
pub open spec fn assembled(f: NowPlayingFields, bundle: Option<String>, r: NowPlayingInfo) -> bool {
    &&& Some(r.title) == f.title
    &&& r.artist == f.artist
    &&& r.album == f.album
    &&& r.duration == f.duration
    &&& r.elapsed_time == f.elapsed_time
    &&& r.playback_rate == f.playback_rate
    &&& r.playing == rate_is_playing(f.playback_rate)
    &&& r.bundle_identifier@ == (match bundle {
        Some(b) => b@,
        None => Seq::empty(),
    })
    &&& if has_artwork(f) {
        &&& opt_view(r.artwork_data) == Some(encode(f.artwork.unwrap()@))
        &&& opt_view(r.artwork_mime_type) == sniffed_mime(f.artwork.unwrap()@)
    } else {
        r.artwork_data is None && r.artwork_mime_type is None
    }
}

/// Builds the snapshot from what the media service reported: none without a
/// non-empty title, whatever else was reported; otherwise every field as
/// reported, `playing` exactly when the playback rate is above zero, the
/// owning application's identity (empty when unknown), and non-empty artwork
/// as base64 text with its MIME type.
pub fn assemble_snapshot(fields: NowPlayingFields, bundle: Option<String>) -> (r: Option<
    NowPlayingInfo,
>)
    ensures
        r is None <==> !has_title(fields),
        r matches Some(info) ==> info.wf() && assembled(fields, bundle, info),
{
    let ghost f = fields;
    let NowPlayingFields { title, artist, album, duration, elapsed_time, playback_rate, artwork } =
        fields;
    let title = match title {
        Some(t) => t,
        None => return None,
    };
    if title.as_str().is_empty() {
        return None;
    }
    let (artwork_data, artwork_mime_type) = match artwork {
        Some(a) => {
            if a.len() > 0 {
                (Some(base64_encode(a.as_slice())), detect_image_mime_type(a.as_slice()))
            } else {
                (None, None)
            }
        },
        None => (None, None),
    };
    let bundle_identifier = match bundle {
        Some(b) => b,
        None => String::new(),
    };
    let playing = playing_from_rate(playback_rate);
    Some(
        NowPlayingInfo {
            bundle_identifier,
            playing,
            title,
            artist,
            album,
            duration,
            elapsed_time,
            artwork_mime_type,
            artwork_data,
            playback_rate,
        },
    )
}

/// Whether a query's answer says that media is playing: false when there is
/// no snapshot.
pub fn is_playing(snapshot: &Option<NowPlayingInfo>) -> (r: bool)
    ensures
        r == (snapshot matches Some(info) && info.playing),
{
    match snapshot {
        Some(info) => info.playing,
        None => false,
    }
}

/// Whether the media service could be reached: a snapshot was obtained.
pub fn test_access(snapshot: &Option<NowPlayingInfo>) -> (r: bool)
    ensures
        r == snapshot is Some,
{
    snapshot.is_some()
}

} // verus!
