use lbp_native::mbid::{keep_matches, wire_artist_mbids};

#[test]
fn identifiers_are_cut_to_their_uuid() {
    let ids = vec![
        "b10bbbfc-cf9e-42e0-be17-e2c3e1d2600d".to_string(),
        "junk a74b1b7f-71a5-4011-9441-d0b5e4122711 tail".to_string(),
        "not an id".to_string(),
        "B10BBBFC-CF9E-42E0-BE17-E2C3E1D2600D".to_string(),
    ];
    let out = wire_artist_mbids(&ids);
    assert_eq!(
        out,
        vec![
            "b10bbbfc-cf9e-42e0-be17-e2c3e1d2600d".to_string(),
            "a74b1b7f-71a5-4011-9441-d0b5e4122711".to_string(),
        ]
    );
}

#[test]
fn no_identifiers_stay_none() {
    assert!(wire_artist_mbids(&Vec::new()).is_empty());
    assert!(wire_artist_mbids(&vec![String::new()]).is_empty());
}

#[test]
fn matches_kept_in_order() {
    let found = vec![Some("a".to_string()), None, Some("b".to_string()), None];
    assert_eq!(keep_matches(&found), vec!["a".to_string(), "b".to_string()]);
    assert!(keep_matches(&vec![None, None]).is_empty());
}
