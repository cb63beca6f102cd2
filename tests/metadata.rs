use lbp_native::metadata::{MetadataReqFlags, PowerampState, TagKey, TrackMetadata, REQ_ALBUM, REQ_ARTIST, REQ_ARTIST_MBIDS};

#[test]
fn state_codes() {
    assert_eq!(PowerampState::from_code(-1), PowerampState::NoState);
    assert_eq!(PowerampState::from_code(0), PowerampState::Stopped);
    assert_eq!(PowerampState::from_code(1), PowerampState::Playing);
    assert_eq!(PowerampState::from_code(2), PowerampState::Paused);
    assert_eq!(PowerampState::from_code(7), PowerampState::NoState);
    assert_eq!(PowerampState::default(), PowerampState::NoState);
    assert!(PowerampState::Stopped.ends_session());
    assert!(PowerampState::NoState.ends_session());
    assert!(!PowerampState::Paused.ends_session());
}

#[test]
fn tags_fill_metadata() {
    let mut md = TrackMetadata::new(1234);
    md.apply_tag(TagKey::Artist, "A".to_string());
    md.apply_tag(TagKey::TrackTitle, "T".to_string());
    md.apply_tag(TagKey::Album, "R".to_string());
    md.apply_tag(TagKey::MusicBrainzArtistId, "x".to_string());
    md.apply_tag(TagKey::MusicBrainzArtistId, "y".to_string());
    md.apply_tag(TagKey::MusicBrainzAlbumId, "rel".to_string());
    md.apply_tag(TagKey::MusicBrainzRecordingId, "rec".to_string());
    md.apply_tag(TagKey::Artist, "B".to_string());
    assert_eq!(md.artist_name, "B");
    assert_eq!(md.track_name, "T");
    assert_eq!(md.release_name, "R");
    assert_eq!(md.additional_info.artist_mbids, vec!["x".to_string(), "y".to_string()]);
    assert_eq!(md.additional_info.release_mbid, "rel");
    assert_eq!(md.additional_info.recording_mbid, "rec");
    assert_eq!(md.additional_info.duration_ms, 1234);
}

#[test]
fn unknown_requirement_bits_are_refused() {
    assert!(MetadataReqFlags::from_bits(64).is_none());
    assert!(MetadataReqFlags::from_bits(-1).is_none());
    assert_eq!(MetadataReqFlags::from_bits(63).unwrap().bits(), 63);
    assert_eq!(MetadataReqFlags::from_bits(0).unwrap().bits(), 0);
}

#[test]
fn requirements_check_named_fields() {
    let mut md = TrackMetadata::new(1000);
    let none = MetadataReqFlags::from_bits(0).unwrap();
    assert!(none.is_satisfied_by(&md));
    let artist_album = MetadataReqFlags::from_bits((REQ_ARTIST | REQ_ALBUM) as i8).unwrap();
    assert!(!artist_album.is_satisfied_by(&md));
    md.apply_tag(TagKey::Artist, "A".to_string());
    assert!(!artist_album.is_satisfied_by(&md));
    md.apply_tag(TagKey::Album, "R".to_string());
    assert!(artist_album.is_satisfied_by(&md));
    let all = MetadataReqFlags::from_bits(63).unwrap();
    assert!(!all.is_satisfied_by(&md));
    let mbids = MetadataReqFlags::from_bits(REQ_ARTIST_MBIDS as i8).unwrap();
    assert!(!mbids.is_satisfied_by(&md));
    md.apply_tag(TagKey::MusicBrainzArtistId, "id".to_string());
    assert!(mbids.is_satisfied_by(&md));
}

#[test]
fn state_from_integer() {
    assert_eq!(PowerampState::from(2), PowerampState::Paused);
    assert_eq!(PowerampState::from(-5), PowerampState::NoState);
}

#[test]
fn tags_build_a_track() {
    let tags = vec![
        (TagKey::Artist, "A1".to_string()),
        (TagKey::MusicBrainzArtistId, "id1".to_string()),
        (TagKey::TrackTitle, "T".to_string()),
        (TagKey::Artist, "A2".to_string()),
        (TagKey::MusicBrainzArtistId, "id2".to_string()),
        (TagKey::MusicBrainzRecordingId, "rec".to_string()),
    ];
    let md = TrackMetadata::from_tags(5_000, tags);
    assert_eq!(md.artist_name, "A2");
    assert_eq!(md.track_name, "T");
    assert_eq!(md.release_name, "");
    assert_eq!(md.additional_info.artist_mbids, vec!["id1".to_string(), "id2".to_string()]);
    assert_eq!(md.additional_info.recording_mbid, "rec");
    assert_eq!(md.additional_info.release_mbid, "");
    assert_eq!(md.additional_info.duration_ms, 5_000);
    assert!(TrackMetadata::from_tags(1, Vec::new()).artist_name.is_empty());
}
