use bgt::config::{Config, WorkDirs};
use bgt::plan::{Command, Output, Word};
use bgt::sdk::{
    extract_sdk_version, sdk_download, sdk_name, sdk_url, sdk_version_from, SdkError,
};

fn some(s: &str) -> Option<String> {
    Some(s.to_string())
}

#[test]
fn sdk_version_is_read_from_the_make_file() {
    let text = "OSX_MIN_VERSION=11.0\nXCODE_VERSION=15.0\nXCODE_BUILD_ID=15A240d\nLD64_VERSION=711\n";
    assert_eq!(extract_sdk_version(text).unwrap(), "15.0-15A240d");
    let text = "XCODE_BUILD_ID=12B45b\r\n# comment\r\n  XCODE_VERSION=12.2 \r\n";
    assert_eq!(extract_sdk_version(text).unwrap(), "12.2-12B45b");
}

#[test]
fn sdk_version_takes_the_last_naming_before_both_are_known() {
    let text = "XCODE_VERSION=1.0\nXCODE_VERSION=2.0\nXCODE_BUILD_ID=A\nXCODE_VERSION=3.0\nXCODE_BUILD_ID=B\n";
    assert_eq!(extract_sdk_version(text).unwrap(), "2.0-A");
    let text = "XCODE_VERSION=1.0 XCODE_BUILD_ID=Z9\nXCODE_VERSION=2.0\n";
    assert_eq!(extract_sdk_version(text).unwrap(), "1.0-Z9");
}

#[test]
fn sdk_version_needs_both_namings() {
    assert!(matches!(extract_sdk_version(""), Err(SdkError::NotFound)));
    assert!(matches!(extract_sdk_version("XCODE_VERSION=15.0\n"), Err(SdkError::NotFound)));
    assert!(matches!(extract_sdk_version("XCODE_BUILD_ID=15A240d"), Err(SdkError::NotFound)));
    assert!(matches!(
        extract_sdk_version("XCODE_VERSION=\nXCODE_BUILD_ID=\n"),
        Err(SdkError::NotFound)
    ));
}

#[test]
fn sdk_version_from_what_each_line_names() {
    assert_eq!(
        sdk_version_from(&vec![None, some("1"), None], &vec![some("a"), None, some("b")]),
        some("1-a")
    );
    assert_eq!(
        sdk_version_from(&vec![some("1"), some("2")], &vec![None, some("b")]),
        some("2-b")
    );
    assert_eq!(sdk_version_from(&vec![some("1")], &vec![None]), None);
    assert_eq!(sdk_version_from(&vec![some("1"), some("2")], &vec![some("")]), None);
    assert_eq!(sdk_version_from(&Vec::new(), &Vec::new()), None);
    assert_eq!(
        sdk_version_from(&vec![some(""), some("2")], &vec![some("a"), None]),
        some("2-a")
    );
}

#[test]
fn sdk_name_and_address() {
    let name = sdk_name("15.0-15A240d");
    assert_eq!(name, "Xcode-15.0-15A240d-extracted-SDK-with-libcxx-headers");
    assert_eq!(
        sdk_url(&name).unwrap(),
        "https://bitcoincore.org/depends-sources/sdks/Xcode-15.0-15A240d-extracted-SDK-with-libcxx-headers.tar.gz"
    );
}

#[test]
fn sdk_download_fetches_the_archive_into_the_sdk_directory() {
    let config = Config::with_dirs(WorkDirs {
        guix_build_dir: "/w".to_string(),
        guix_sigs_dir: "/w/g".to_string(),
        bitcoin_detached_sigs_dir: "/w/d".to_string(),
        macos_sdks_dir: "/w/sdks".to_string(),
        bitcoin_dir: "/w/b".to_string(),
    });
    assert_eq!(
        sdk_download(&config, "X").unwrap(),
        Command {
            program: Word::Text("curl".to_string()),
            args: vec![
                Word::Text("-L".to_string()),
                Word::Text("-o".to_string()),
                Word::Under { dir: "/w/sdks".to_string(), rel: "X.tar.gz".to_string() },
                Word::Text("https://bitcoincore.org/depends-sources/sdks/X.tar.gz".to_string()),
            ],
            dir: None,
            env: Vec::new(),
            output: Output::Inherited,
        }
    );
}
