use kernel_supervisor::scanner::{find_latest_kernel, select_latest, KernelBinaryCandidate, ScanDirs};
use kernel_supervisor::version::{
    get_binary_version, has_version_shape, parse_version_text, KernelVersion,
};

fn candidate(path: &str, version: Option<(u64, u64, u64)>) -> KernelBinaryCandidate {
    KernelBinaryCandidate {
        path: path.to_string(),
        parsed_version: version.map(|(a, b, c)| KernelVersion::new(a, b, c)),
    }
}

#[test]
fn version_is_read_from_binary_output() {
    assert_eq!(
        get_binary_version(Some("yuHai kernel\nVersion: 2.3.0\nbuild 77")),
        Some(KernelVersion { major: 2, minor: 3, patch: 0 })
    );
}

#[test]
fn version_capture_is_not_the_whole_output() {
    // The capture is the version alone: the output itself is no version text.
    let output = "Version: 1.2.3";
    assert_eq!(parse_version_text(output), None);
    assert_eq!(get_binary_version(Some(output)), Some(KernelVersion::new(1, 2, 3)));
}

#[test]
fn version_pattern_allows_any_white_space_after_the_colon() {
    assert_eq!(get_binary_version(Some("Version:10.20.30")), Some(KernelVersion::new(10, 20, 30)));
    assert_eq!(get_binary_version(Some("Version: \t 0.4.1 ")), Some(KernelVersion::new(0, 4, 1)));
}

#[test]
fn version_is_taken_from_the_first_match() {
    assert_eq!(
        get_binary_version(Some("Version: 1.0.0\nVersion: 9.9.9")),
        Some(KernelVersion::new(1, 0, 0))
    );
}

#[test]
fn output_without_version_gives_none() {
    assert_eq!(get_binary_version(Some("")), None);
    assert_eq!(get_binary_version(Some("version 1.2.3")), None);
    assert_eq!(get_binary_version(Some("Version: 1.2")), None);
    assert_eq!(get_binary_version(Some("Version: a.b.c")), None);
}

#[test]
fn binary_that_could_not_be_run_gives_none() {
    assert_eq!(get_binary_version(None), None);
}

#[test]
fn version_with_leading_zero_is_refused() {
    assert_eq!(get_binary_version(Some("Version: 1.02.3")), None);
    assert_eq!(parse_version_text("01.2.3"), None);
    assert_eq!(parse_version_text("0.0.0"), Some(KernelVersion::new(0, 0, 0)));
}

#[test]
fn version_number_beyond_u64_is_refused() {
    assert_eq!(
        parse_version_text("18446744073709551615.0.1"),
        Some(KernelVersion::new(u64::MAX, 0, 1))
    );
    assert_eq!(parse_version_text("18446744073709551616.0.1"), None);
}

#[test]
fn version_text_must_be_three_numbers_and_nothing_else() {
    assert_eq!(parse_version_text("1.2.3"), Some(KernelVersion::new(1, 2, 3)));
    assert_eq!(parse_version_text("1.2.3-alpha"), None);
    assert_eq!(parse_version_text("1.2.3+build"), None);
    assert_eq!(parse_version_text("1.2"), None);
    assert_eq!(parse_version_text("1.2.3.4"), None);
    assert_eq!(parse_version_text(" 1.2.3"), None);
    assert_eq!(parse_version_text(""), None);
    assert_eq!(parse_version_text("1..3"), None);
}

#[test]
fn version_shape_is_recognised() {
    assert!(has_version_shape("1.2.3"));
    assert!(has_version_shape("001.002.003"));
    assert!(!has_version_shape("1.2."));
    assert!(!has_version_shape(".1.2"));
    assert!(!has_version_shape("1.2.x"));
    assert!(!has_version_shape("١.٢.٣"));
}

#[test]
fn versions_are_ordered_from_left_to_right() {
    let v = KernelVersion::new(1, 19, 0);
    assert!(v.is_newer_than(&KernelVersion::new(1, 5, 0)));
    assert!(!KernelVersion::new(1, 5, 0).is_newer_than(&v));
    assert!(KernelVersion::new(2, 0, 0).is_newer_than(&KernelVersion::new(1, 99, 99)));
    assert!(KernelVersion::new(1, 0, 1).is_newer_than(&KernelVersion::new(1, 0, 0)));
    assert!(!v.is_newer_than(&v));
}

#[test]
fn newest_of_distinct_versions_is_selected() {
    let found = vec![
        candidate("/core/a/yuHai.exe", Some((1, 5, 0))),
        candidate("/core/b/yuHai.exe", Some((1, 19, 0))),
        candidate("/core/c/yuHai.exe", Some((1, 6, 2))),
    ];
    assert_eq!(select_latest(&found), Some(1));
    assert_eq!(find_latest_kernel(&found), Some("/core/b/yuHai.exe".to_string()));
}

#[test]
fn tie_keeps_the_earlier_candidate() {
    let found = vec![
        candidate("/first/yuHai.exe", Some((2, 0, 0))),
        candidate("/second/yuHai.exe", Some((2, 0, 0))),
    ];
    assert_eq!(find_latest_kernel(&found), Some("/first/yuHai.exe".to_string()));
}

#[test]
fn lone_unparsable_candidate_is_returned() {
    let found = vec![candidate("/core/yuHai.exe", None)];
    assert_eq!(find_latest_kernel(&found), Some("/core/yuHai.exe".to_string()));
}

#[test]
fn later_parsable_candidate_replaces_the_fallback() {
    let found = vec![
        candidate("/old/yuHai.exe", None),
        candidate("/new/yuHai.exe", Some((0, 0, 1))),
    ];
    assert_eq!(find_latest_kernel(&found), Some("/new/yuHai.exe".to_string()));
}

#[test]
fn later_unparsable_candidate_never_displaces() {
    let found = vec![
        candidate("/a/yuHai.exe", Some((1, 0, 0))),
        candidate("/b/yuHai.exe", None),
    ];
    assert_eq!(find_latest_kernel(&found), Some("/a/yuHai.exe".to_string()));
    let found = vec![candidate("/a/yuHai.exe", None), candidate("/b/yuHai.exe", None)];
    assert_eq!(find_latest_kernel(&found), Some("/a/yuHai.exe".to_string()));
}

#[test]
fn no_candidate_gives_none() {
    let found: Vec<KernelBinaryCandidate> = Vec::new();
    assert_eq!(find_latest_kernel(&found), None);
    assert_eq!(select_latest(&found), None);
}

#[test]
fn version_zero_is_never_above_the_starting_maximum() {
    let found = vec![candidate("/core/yuHai.exe", Some((0, 0, 0)))];
    assert_eq!(find_latest_kernel(&found), None);
    let found = vec![
        candidate("/zero/yuHai.exe", Some((0, 0, 0))),
        candidate("/unknown/yuHai.exe", None),
    ];
    assert_eq!(find_latest_kernel(&found), Some("/unknown/yuHai.exe".to_string()));
    let found = vec![
        candidate("/unknown/yuHai.exe", None),
        candidate("/zero/yuHai.exe", Some((0, 0, 0))),
    ];
    assert_eq!(find_latest_kernel(&found), Some("/unknown/yuHai.exe".to_string()));
}

#[test]
fn scan_walks_the_core_directory_depth_first() {
    let mut walk = ScanDirs::new(Some("/install".to_string()), Some("/data/core".to_string()));
    assert_eq!(walk.next_dir(), Some("/data/core".to_string()));
    walk.add_subdirs(vec!["/data/core/a".to_string(), "/data/core/b".to_string()]);
    assert_eq!(walk.next_dir(), Some("/data/core/b".to_string()));
    walk.add_subdirs(vec!["/data/core/b/x".to_string()]);
    assert_eq!(walk.next_dir(), Some("/data/core/b/x".to_string()));
    walk.add_subdirs(Vec::new());
    assert_eq!(walk.next_dir(), Some("/data/core/a".to_string()));
    walk.add_subdirs(Vec::new());
    assert_eq!(walk.next_dir(), None);
    assert_eq!(
        walk.into_dirs(),
        vec![
            "/install".to_string(),
            "/data/core".to_string(),
            "/data/core/a".to_string(),
            "/data/core/b".to_string(),
            "/data/core/b/x".to_string(),
        ]
    );
}

#[test]
fn scan_without_core_directory_lists_the_install_directory_only() {
    let mut walk = ScanDirs::new(Some("/install".to_string()), None);
    assert_eq!(walk.next_dir(), None);
    assert_eq!(walk.into_dirs(), vec!["/install".to_string()]);
    let mut walk = ScanDirs::new(None, None);
    assert_eq!(walk.next_dir(), None);
    assert!(walk.into_dirs().is_empty());
}
