use version_info::version::{version, CommitInfo, VersionInfo};

#[test]
fn nothing_but_the_version() {
    let info = version("1.2.3", None, None, None);
    assert_eq!(info, VersionInfo { version: "1.2.3", commit_info: None, rustc_version: None });
    assert_eq!(info.to_string(), "1.2.3");
}

#[test]
fn hash_and_date_make_a_commit() {
    let info = version("1.2.3", Some("abc1234"), Some("2024-01-15"), None);
    assert_eq!(info.version, "1.2.3");
    assert_eq!(
        info.commit_info,
        Some(CommitInfo { short_commit_hash: "abc1234", commit_date: "2024-01-15" })
    );
    assert_eq!(info.rustc_version, None);
    assert_eq!(info.to_string(), "1.2.3 (abc1234 2024-01-15)");
}

#[test]
fn toolchain_is_passed_on() {
    let info = version("1.2.3", None, None, Some("1.75.0"));
    assert_eq!(info.commit_info, None);
    assert_eq!(info.rustc_version, Some("1.75.0"));
    assert_eq!(info.to_string(), "1.2.3 (built with toolchain 1.75.0)");
}

#[test]
fn everything_known() {
    let info = version("1.2.3", Some("abc1234"), Some("2024-01-15"), Some("1.75.0"));
    assert_eq!(
        info,
        VersionInfo {
            version: "1.2.3",
            commit_info: Some(CommitInfo { short_commit_hash: "abc1234", commit_date: "2024-01-15" }),
            rustc_version: Some("1.75.0"),
        }
    );
    assert_eq!(info.to_string(), "1.2.3 (abc1234 2024-01-15, built with toolchain 1.75.0)");
}

#[test]
fn hash_without_date_is_no_commit() {
    let info = version("1.2.3", Some("abc1234"), None, None);
    assert_eq!(info.commit_info, None);
    assert_eq!(info.to_string(), "1.2.3");

    let info = version("1.2.3", Some("abc1234"), None, Some("1.75.0"));
    assert_eq!(info.commit_info, None);
    assert_eq!(info.to_string(), "1.2.3 (built with toolchain 1.75.0)");
}

#[test]
fn date_without_hash_is_no_commit() {
    let info = version("1.2.3", None, Some("2024-01-15"), None);
    assert_eq!(info.commit_info, None);
    assert_eq!(info.to_string(), "1.2.3");

    let info = version("1.2.3", None, Some("2024-01-15"), Some("1.75.0"));
    assert_eq!(info.commit_info, None);
    assert_eq!(info.to_string(), "1.2.3 (built with toolchain 1.75.0)");
}

#[test]
fn constants_are_not_touched() {
    let info = version(" v1 ", Some(" h "), Some(" d "), Some(" t "));
    assert_eq!(info.version, " v1 ");
    assert_eq!(info.commit_info, Some(CommitInfo { short_commit_hash: " h ", commit_date: " d " }));
    assert_eq!(info.rustc_version, Some(" t "));

    let info = version("", Some(""), Some(""), Some(""));
    assert_eq!(info.version, "");
    assert_eq!(info.commit_info, Some(CommitInfo { short_commit_hash: "", commit_date: "" }));
    assert_eq!(info.rustc_version, Some(""));
}

#[test]
fn assembling_again_gives_an_equal_value() {
    let first = version("1.2.3", Some("abc1234"), Some("2024-01-15"), Some("1.75.0"));
    let second = version("1.2.3", Some("abc1234"), Some("2024-01-15"), Some("1.75.0"));
    assert_eq!(first, second);
    assert_eq!(first.to_string(), second.to_string());
}
