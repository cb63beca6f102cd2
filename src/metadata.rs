use vstd::prelude::*;

verus! {

/// Identifiers and figures that accompany a track's names.
pub struct AdditionalInfo {
    /// Release identifier; empty when unknown.
    pub release_mbid: String,
    /// Artist identifiers, in tag order.
    pub artist_mbids: Vec<String>,
    /// Recording identifier; empty when unknown.
    pub recording_mbid: String,
    pub duration_ms: u64,
}

/// What is known about the track being played.
pub struct TrackMetadata {
    pub additional_info: AdditionalInfo,
    pub artist_name: String,
    pub track_name: String,
    pub release_name: String,
}

/// One listen: a track, stamped with the Unix time at which it qualified, or
/// unstamped for a "now playing" notice.
pub struct Payload {
    pub listened_at: Option<u64>,
    pub track_metadata: TrackMetadata,
}

impl Payload {
    /// A stamp is a positive Unix time.
    pub open spec fn wf(&self) -> bool {
        self.listened_at != Some(0u64)
    }
}

/// The tags of a media file that feed a [`TrackMetadata`].
#[derive(PartialEq, Eq, Structural, Clone, Copy, Debug)]
pub enum TagKey {
    Artist,
    TrackTitle,
    Album,
    MusicBrainzAlbumId,
    MusicBrainzArtistId,
    MusicBrainzRecordingId,
}

/// Playback state reported by the player.
#[derive(PartialEq, Eq, Structural, Clone, Copy, Debug)]
pub enum PowerampState {
    NoState,
    Stopped,
    Playing,
    Paused,
}

impl PowerampState {
    pub open spec fn from_code_spec(code: i32) -> PowerampState {
        if code == 0 {
            PowerampState::Stopped
        } else if code == 1 {
            PowerampState::Playing
        } else if code == 2 {
            PowerampState::Paused
        } else {
            PowerampState::NoState
        }
    }

    /// The state for the player's numeric code; unknown codes (and -1) mean
    /// no state.
    pub fn from_code(code: i32) -> (r: PowerampState)
        ensures
            r == Self::from_code_spec(code),
    {
        if code == 0 {
            PowerampState::Stopped
        } else if code == 1 {
            PowerampState::Playing
        } else if code == 2 {
            PowerampState::Paused
        } else {
            PowerampState::NoState
        }
    }

    /// Whether this state ends the listening session.
    pub open spec fn ends_session_spec(self) -> bool {
        self == PowerampState::NoState || self == PowerampState::Stopped
    }

    pub fn ends_session(&self) -> (r: bool)
        ensures
            r == self.ends_session_spec(),
    {
        match self {
            PowerampState::NoState | PowerampState::Stopped => true,
            _ => false,
        }
    }
}

impl From<i32> for PowerampState {
    fn from(code: i32) -> (r: PowerampState) {
        PowerampState::from_code(code)
    }
}

impl vstd::std_specs::convert::FromSpecImpl<i32> for PowerampState {
    open spec fn obeys_from_spec() -> bool {
        true
    }

    open spec fn from_spec(code: i32) -> PowerampState {
        PowerampState::from_code_spec(code)
    }
}

impl Default for PowerampState {
    fn default() -> (r: PowerampState)
        ensures
            r == PowerampState::NoState,
    {
        PowerampState::NoState
    }
}

impl AdditionalInfo {
    pub fn new(duration_ms: u64) -> (r: AdditionalInfo)
        ensures
            r.release_mbid@ == Seq::<char>::empty(),
            r.artist_mbids@.len() == 0,
            r.recording_mbid@ == Seq::<char>::empty(),
            r.duration_ms == duration_ms,
    {
        AdditionalInfo {
            release_mbid: String::new(),
            artist_mbids: Vec::new(),
            recording_mbid: String::new(),
            duration_ms,
        }
    }
}

impl TrackMetadata {
    /// A track of the given duration with every name and identifier empty.
    pub fn new(duration_ms: u64) -> (r: TrackMetadata)
        ensures
            r.is_blank(),
            r.additional_info.duration_ms == duration_ms,
    {
        TrackMetadata {
            additional_info: AdditionalInfo::new(duration_ms),
            artist_name: String::new(),
            track_name: String::new(),
            release_name: String::new(),
        }
    }

    pub open spec fn is_blank(&self) -> bool {
        &&& self.artist_name@.len() == 0
        &&& self.track_name@.len() == 0
        &&& self.release_name@.len() == 0
        &&& self.additional_info.release_mbid@.len() == 0
        &&& self.additional_info.artist_mbids@.len() == 0
        &&& self.additional_info.recording_mbid@.len() == 0
    }

    /// Records one tag: names and single identifiers take the latest value,
    /// artist identifiers accumulate.
    pub fn apply_tag(&mut self, key: TagKey, value: String)
        ensures
            final(self).additional_info.duration_ms == old(self).additional_info.duration_ms,
            final(self).artist_name@ == if key == TagKey::Artist { value@ } else { old(self).artist_name@ },
            final(self).track_name@ == if key == TagKey::TrackTitle { value@ } else { old(self).track_name@ },
            final(self).release_name@ == if key == TagKey::Album { value@ } else { old(self).release_name@ },
            final(self).additional_info.release_mbid@ == if key == TagKey::MusicBrainzAlbumId {
                value@
            } else {
                old(self).additional_info.release_mbid@
            },
            final(self).additional_info.recording_mbid@ == if key == TagKey::MusicBrainzRecordingId {
                value@
            } else {
                old(self).additional_info.recording_mbid@
            },
            final(self).additional_info.artist_mbids@ == if key == TagKey::MusicBrainzArtistId {
                old(self).additional_info.artist_mbids@.push(value)
            } else {
                old(self).additional_info.artist_mbids@
            },
    {
        match key {
            TagKey::Artist => self.artist_name = value,
            TagKey::TrackTitle => self.track_name = value,
            TagKey::Album => self.release_name = value,
            TagKey::MusicBrainzAlbumId => self.additional_info.release_mbid = value,
            TagKey::MusicBrainzArtistId => self.additional_info.artist_mbids.push(value),
            TagKey::MusicBrainzRecordingId => self.additional_info.recording_mbid = value,
        }
    }
}

/// The value of the last tag with key `key`, if any.
pub open spec fn last_tag(tags: Seq<(TagKey, Seq<char>)>, key: TagKey) -> Option<Seq<char>>
    decreases tags.len(),
{
    if tags.len() == 0 {
        None
    } else if tags.last().0 == key {
        Some(tags.last().1)
    } else {
        last_tag(tags.drop_last(), key)
    }
}

/// The values of every tag with key `key`, in order.
pub open spec fn all_tags(tags: Seq<(TagKey, Seq<char>)>, key: TagKey) -> Seq<Seq<char>>
    decreases tags.len(),
{
    if tags.len() == 0 {
        Seq::empty()
    } else if tags.last().0 == key {
        all_tags(tags.drop_last(), key).push(tags.last().1)
    } else {
        all_tags(tags.drop_last(), key)
    }
}

/// The last value of `key`, or nothing.
pub open spec fn last_or_empty(tags: Seq<(TagKey, Seq<char>)>, key: TagKey) -> Seq<char> {
    match last_tag(tags, key) {
        Some(v) => v,
        None => Seq::empty(),
    }
}

pub open spec fn tags_view(tags: Seq<(TagKey, String)>) -> Seq<(TagKey, Seq<char>)> {
    tags.map_values(|t: (TagKey, String)| (t.0, t.1@))
}

impl TrackMetadata {
    /// The track record built from a file's tags: for names and single
    /// identifiers the last tag wins, artist identifiers keep tag order.
    pub fn from_tags(duration_ms: u64, tags: Vec<(TagKey, String)>) -> (r: TrackMetadata)
        ensures
            r.additional_info.duration_ms == duration_ms,
            r.artist_name@ == last_or_empty(tags_view(tags@), TagKey::Artist),
            r.track_name@ == last_or_empty(tags_view(tags@), TagKey::TrackTitle),
            r.release_name@ == last_or_empty(tags_view(tags@), TagKey::Album),
            r.additional_info.release_mbid@ == last_or_empty(tags_view(tags@), TagKey::MusicBrainzAlbumId),
            r.additional_info.recording_mbid@ == last_or_empty(
                tags_view(tags@),
                TagKey::MusicBrainzRecordingId,
            ),
            r.additional_info.artist_mbids@.map_values(|s: String| s@) == all_tags(
                tags_view(tags@),
                TagKey::MusicBrainzArtistId,
            ),
    {
        let ghost tv = tags_view(tags@);
        let mut md = TrackMetadata::new(duration_ms);
        let mut i: usize = 0;
        while i < tags.len()
            invariant
                i <= tags@.len(),
                tv == tags_view(tags@),
                md.additional_info.duration_ms == duration_ms,
                md.artist_name@ == last_or_empty(tv.take(i as int), TagKey::Artist),
                md.track_name@ == last_or_empty(tv.take(i as int), TagKey::TrackTitle),
                md.release_name@ == last_or_empty(tv.take(i as int), TagKey::Album),
                md.additional_info.release_mbid@ == last_or_empty(tv.take(i as int), TagKey::MusicBrainzAlbumId),
                md.additional_info.recording_mbid@ == last_or_empty(
                    tv.take(i as int),
                    TagKey::MusicBrainzRecordingId,
                ),
                md.additional_info.artist_mbids@.map_values(|s: String| s@) == all_tags(
                    tv.take(i as int),
                    TagKey::MusicBrainzArtistId,
                ),
            decreases tags@.len() - i,
        {
            let key = tags[i].0;
            let value = tags[i].1.clone();
            let ghost prev = md.additional_info.artist_mbids@;
            proof {
                assert(tv.take(i as int + 1).drop_last() =~= tv.take(i as int));
                assert(tv.take(i as int + 1).last() == (key, value@));
            }
            md.apply_tag(key, value);
            proof {
                if key == TagKey::MusicBrainzArtistId {
                    assert(md.additional_info.artist_mbids@.map_values(|s: String| s@) =~= prev.map_values(
                        |s: String| s@,
                    ).push(value@));
                }
            }
            i = i + 1;
        }
        assert(tv.take(i as int) =~= tv);
        md
    }
}

/// Which fields a track must have for its listens to be submitted, one bit
/// per field.
#[derive(PartialEq, Eq, Structural, Clone, Copy, Debug)]
pub struct MetadataReqFlags {
    bits: u8,
}

pub const REQ_ARTIST: u8 = 1;
pub const REQ_TITLE: u8 = 2;
pub const REQ_ALBUM: u8 = 4;
pub const REQ_RELEASE_MBID: u8 = 8;
pub const REQ_ARTIST_MBIDS: u8 = 16;
pub const REQ_RECORDING_MBID: u8 = 32;
/// The union of every known requirement bit.
pub const REQ_ALL: u8 = 63;

impl MetadataReqFlags {
    pub closed spec fn bits_spec(self) -> u8 {
        self.bits
    }

    pub open spec fn wf(self) -> bool {
        self.bits_spec() & !REQ_ALL == 0
    }

    pub open spec fn requires_spec(self, flag: u8) -> bool {
        self.bits_spec() & flag != 0
    }

    pub fn bits(&self) -> (r: u8)
        ensures
            r == self.bits_spec(),
    {
        self.bits
    }

    /// The requirements for a raw byte from the host; `None` when it sets a
    /// bit that names no field.
    pub fn from_bits(raw: i8) -> (r: Option<MetadataReqFlags>)
        ensures
            match r {
                Some(f) => f.wf() && f.bits_spec() == raw as u8,
                None => (raw as u8) & !REQ_ALL != 0,
            },
    {
        let b = raw as u8;
        if b & !REQ_ALL == 0 {
            Some(MetadataReqFlags { bits: b })
        } else {
            None
        }
    }

    /// Whether `md` has every field these requirements name.
    pub open spec fn satisfied_by(self, md: TrackMetadata) -> bool {
        &&& self.requires_spec(REQ_ARTIST) ==> md.artist_name@.len() > 0
        &&& self.requires_spec(REQ_TITLE) ==> md.track_name@.len() > 0
        &&& self.requires_spec(REQ_ALBUM) ==> md.release_name@.len() > 0
        &&& self.requires_spec(REQ_RELEASE_MBID) ==> md.additional_info.release_mbid@.len() > 0
        &&& self.requires_spec(REQ_ARTIST_MBIDS) ==> md.additional_info.artist_mbids@.len() > 0
        &&& self.requires_spec(REQ_RECORDING_MBID) ==> md.additional_info.recording_mbid@.len()
            > 0
    }

    /// Whether the track qualifies for submission under these requirements.
    pub fn is_satisfied_by(&self, md: &TrackMetadata) -> (r: bool)
        ensures
            r == self.satisfied_by(*md),
    {
        let b = self.bits;
        (b & REQ_ARTIST == 0 || !md.artist_name.as_str().is_empty())
        && (b & REQ_TITLE == 0 || !md.track_name.as_str().is_empty())
        && (b & REQ_ALBUM == 0 || !md.release_name.as_str().is_empty())
        && (b & REQ_RELEASE_MBID == 0 || !md.additional_info.release_mbid.as_str().is_empty())
        && (b & REQ_ARTIST_MBIDS == 0 || md.additional_info.artist_mbids.len() > 0)
        && (b & REQ_RECORDING_MBID == 0 || !md.additional_info.recording_mbid.as_str().is_empty())
    }
}

} // verus!
