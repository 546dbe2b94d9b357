use naia_supervisor::resolve::{
    best_supported_major, first_available, parse_major_version, version_is_supported,
    MIN_NODE_MAJOR,
};

#[test]
fn major_versions_parse_from_names() {
    assert_eq!(parse_major_version("v22.1.0"), Some(22));
    assert_eq!(parse_major_version("v9.11.2"), Some(9));
    assert_eq!(parse_major_version("22"), Some(22));
    assert_eq!(parse_major_version("v22"), Some(22));
    assert_eq!(parse_major_version(" v23.0.0\n"), Some(23));
}

#[test]
fn major_version_strips_every_leading_v() {
    assert_eq!(parse_major_version("vv22.1"), Some(22));
}

#[test]
fn major_version_rejects_non_numbers() {
    assert_eq!(parse_major_version(""), None);
    assert_eq!(parse_major_version("v"), None);
    assert_eq!(parse_major_version("vx.2"), None);
    assert_eq!(parse_major_version(".22"), None);
    assert_eq!(parse_major_version("22a.0"), None);
    assert_eq!(parse_major_version("99999999999.0"), None);
}

#[test]
fn version_support_threshold() {
    assert!(version_is_supported("v22.0.0"));
    assert!(version_is_supported("v30.1.1"));
    assert!(!version_is_supported("v21.9.9"));
    assert!(!version_is_supported("junk"));
    assert_eq!(MIN_NODE_MAJOR, 22);
}

#[test]
fn best_major_picks_first_of_the_highest() {
    assert_eq!(best_supported_major(&vec![18, 22, 25, 25]), Some(2));
    assert_eq!(best_supported_major(&vec![25, 22]), Some(0));
    assert_eq!(best_supported_major(&vec![22]), Some(0));
}

#[test]
fn best_major_rejects_unsupported_lists() {
    assert_eq!(best_supported_major(&vec![18, 20, 21]), None);
    assert_eq!(best_supported_major(&vec![]), None);
}

#[test]
fn first_available_candidate_wins() {
    assert_eq!(first_available(&vec![false, true, true]), Some(1));
    assert_eq!(first_available(&vec![true]), Some(0));
    assert_eq!(first_available(&vec![false, false]), None);
    assert_eq!(first_available(&vec![]), None);
}
