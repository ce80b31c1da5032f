use bgt::fetcher::tag_name_of;
use bgt::store::{lines_of, sort_by_version};
use bgt::version::{compare_versions, parse_version};
use bgt::wizard::starts_with;
use bgt::xor::{xor_decode, xor_encrypt};
use std::io::{BufRead, BufReader};

const SAMPLES: [&str; 20] = [
    "",
    "v",
    "v1",
    "v1.2",
    "v1.2.3",
    "1.2.3",
    "v0.21.0",
    "v27.0rc1",
    "v27.0rc2",
    "v27.0",
    "v27.0.1rc",
    "v27.0rc1rc2",
    "v1..3",
    "v1.x.3",
    "v+1.+2",
    "v-1.2",
    "v4294967296.1",
    "rc",
    "v1.0 ",
    "v๑.2",
];

#[test]
fn lines_agree_with_the_buffered_reader() {
    for text in [
        "",
        "\n",
        "a",
        "a\n",
        "a\nb",
        "a\r\nb\r\n",
        "a\r",
        "\r\n",
        "\r",
        "a\r\r\n",
        "a\n\n\nb\n\n",
        "\n\r\n\n",
        "x\ry\nz",
    ] {
        let expected: Vec<String> = BufReader::new(text.as_bytes())
            .lines()
            .map(|line| line.unwrap())
            .collect();
        assert_eq!(lines_of(text), expected, "{:?}", text);
    }
}

#[test]
fn sort_agrees_with_the_stable_sort_of_vectors() {
    let tags: Vec<String> = SAMPLES.iter().rev().map(|s| s.to_string()).collect();
    let mut expected = tags.clone();
    expected.sort_by(|a, b| compare_versions(a, b));
    assert_eq!(sort_by_version(&tags), expected);
    let tags: Vec<String> = SAMPLES.iter().map(|s| s.to_string()).collect();
    let mut expected = tags.clone();
    expected.sort_by(|a, b| compare_versions(a, b));
    assert_eq!(sort_by_version(&tags), expected);
}

#[test]
fn tag_names_agree_with_trimming_the_prefix() {
    for reference in [
        "refs/tags/v1",
        "refs/tags/",
        "refs/tags",
        "refs/tags/refs/tags/v1",
        "refs/tags/refs/tags/",
        "v1/refs/tags/",
        "",
        "refs/heads/main",
        "refs/tags/é",
    ] {
        assert_eq!(tag_name_of(reference), reference.trim_start_matches("refs/tags/"));
    }
}

#[test]
fn prefixes_agree_with_strings() {
    for s in ["", "0", "0x", "0x12", "x0", "https://github.com/a", "https://github.co"] {
        for prefix in ["", "0x", "https://github.com"] {
            assert_eq!(starts_with(s, prefix), s.starts_with(prefix));
        }
    }
}

#[test]
fn versions_are_read_as_by_splitting_and_parsing() {
    for tag in SAMPLES {
        let body = tag.strip_prefix('v').unwrap_or(tag);
        let parts: Vec<&str> = body.split("rc").collect();
        let numbers: Vec<u32> = parts[0].split('.').map(|s| s.parse().unwrap_or(0)).collect();
        let rc: Option<u32> = parts.get(1).and_then(|s| s.parse().ok());
        assert_eq!(parse_version(tag), (numbers, rc), "{:?}", tag);
    }
}

#[test]
fn versions_compare_as_their_numbers_do() {
    for a in SAMPLES {
        for b in SAMPLES {
            let (va, rc_a) = parse_version(a);
            let (vb, rc_b) = parse_version(b);
            let expected = va
                .iter()
                .take(2)
                .cmp(vb.iter().take(2))
                .then(va.get(2).cmp(&vb.get(2)))
                .then(match (rc_a, rc_b) {
                    (None, None) => std::cmp::Ordering::Equal,
                    (Some(_), None) => std::cmp::Ordering::Less,
                    (None, Some(_)) => std::cmp::Ordering::Greater,
                    (Some(x), Some(y)) => x.cmp(&y),
                });
            assert_eq!(compare_versions(a, b), expected, "{:?} {:?}", a, b);
        }
    }
}

#[test]
fn disguise_agrees_with_bytewise_exclusive_or() {
    let key = b"BGTBuilder2024";
    for text in ["", "a", "hello, world", "https://example.org/\u{e9}", "0123456789abcdefghij"] {
        let expected = text
            .bytes()
            .zip(key.iter().cycle())
            .map(|(b, &k)| (b ^ k).to_string())
            .collect::<Vec<String>>()
            .join(",");
        assert_eq!(xor_encrypt(text), expected);
        if !text.is_empty() {
            let hidden: String = expected
                .split(',')
                .map(|s| s.parse::<u8>().unwrap())
                .zip(key.iter().cycle())
                .map(|(b, &k)| (b ^ k) as char)
                .collect();
            assert_eq!(xor_decode(&expected), Some(hidden));
        }
    }
}
