use bgt::version::{compare_versions, parse_version, version_at_most};
use std::cmp::Ordering;

#[test]
fn test_compare_versions() {
    assert_eq!(compare_versions("v0.21.0", "v0.28.0rc1"), Ordering::Less);
    assert_eq!(compare_versions("v0.28.0rc1", "v0.28.0"), Ordering::Less);
    assert_eq!(
        compare_versions("v0.28.0rc2", "v0.28.0rc1"),
        Ordering::Greater
    );
    assert_eq!(compare_versions("v0.28.0", "v0.28.0"), Ordering::Equal);
    assert_eq!(compare_versions("v1.0.0", "v0.28.0"), Ordering::Greater);
    assert_eq!(compare_versions("v0.28.1", "v0.28.0rc1"), Ordering::Greater);
}

#[test]
fn parse_version_reads_numbers_and_candidate() {
    assert_eq!(parse_version("v0.28.0rc1"), (vec![0, 28, 0], Some(1)));
    assert_eq!(parse_version("22.0"), (vec![22, 0], None));
    assert_eq!(parse_version("v27.1"), (vec![27, 1], None));
    assert_eq!(parse_version("v1.2.3.4rc10"), (vec![1, 2, 3, 4], Some(10)));
}

#[test]
fn parse_version_defaults_unreadable_fields_to_zero() {
    assert_eq!(parse_version(""), (vec![0], None));
    assert_eq!(parse_version("v"), (vec![0], None));
    assert_eq!(parse_version("vx.7.y"), (vec![0, 7, 0], None));
    assert_eq!(parse_version("v1..2"), (vec![1, 0, 2], None));
    assert_eq!(parse_version("v1.-2"), (vec![1, 0], None));
    assert_eq!(parse_version("v+1.+2"), (vec![1, 2], None));
    assert_eq!(parse_version("v007.08"), (vec![7, 8], None));
    assert_eq!(parse_version("v4294967295.4294967296"), (vec![4294967295, 0], None));
    assert_eq!(parse_version("v1.0 "), (vec![1, 0], None));
}

#[test]
fn parse_version_strips_one_leading_v() {
    assert_eq!(parse_version("vv1.2"), (vec![0, 2], None));
    assert_eq!(parse_version("V1.2"), (vec![0, 2], None));
}

#[test]
fn parse_version_candidate_is_what_follows_the_first_marker() {
    assert_eq!(parse_version("v1.0rc"), (vec![1, 0], None));
    assert_eq!(parse_version("v1.0rcx"), (vec![1, 0], None));
    assert_eq!(parse_version("v1.0rc2rc3"), (vec![1, 0], Some(2)));
    assert_eq!(parse_version("rc5"), (vec![0], Some(5)));
    assert_eq!(parse_version("v1.0rc0"), (vec![1, 0], Some(0)));
}

#[test]
fn missing_number_comes_before_a_present_one() {
    assert_eq!(compare_versions("v1.0", "v1.0.0"), Ordering::Less);
    assert_eq!(compare_versions("v1.0.1", "v1.0"), Ordering::Greater);
    assert_eq!(compare_versions("v1", "v1.0"), Ordering::Less);
    assert_eq!(compare_versions("v2", "v1.9"), Ordering::Greater);
}

#[test]
fn numbers_after_the_third_do_not_count() {
    assert_eq!(compare_versions("v1.2.3.4", "v1.2.3.5"), Ordering::Equal);
}

#[test]
fn equal_rank_does_not_need_equal_text() {
    assert_eq!(compare_versions("v1.2.3", "1.2.3"), Ordering::Equal);
    assert_eq!(compare_versions("v1.02.3", "v1.2.3"), Ordering::Equal);
}

#[test]
fn release_supersedes_its_candidates() {
    assert_eq!(compare_versions("v27.0", "v27.0rc3"), Ordering::Greater);
    assert_eq!(compare_versions("v27.0rc3", "v27.0rc10"), Ordering::Less);
    assert_eq!(compare_versions("v27.0rc", "v27.0"), Ordering::Equal);
}

#[test]
fn order_is_total_and_transitive_on_samples() {
    let tags = [
        "v0.21.0", "v0.28.0rc1", "v0.28.0rc2", "v0.28.0", "v0.28.1", "v1.0.0", "v1.0", "1.0",
        "v27.1", "v27.2", "", "junk", "v1.0rc", "v1.0rc1rc2",
    ];
    for a in tags {
        assert_eq!(compare_versions(a, a), Ordering::Equal);
        for b in tags {
            assert_eq!(compare_versions(a, b), compare_versions(b, a).reverse());
            assert_eq!(
                version_at_most(a, b),
                compare_versions(a, b) != Ordering::Greater
            );
            for c in tags {
                if compare_versions(a, b) != Ordering::Greater
                    && compare_versions(b, c) != Ordering::Greater
                {
                    assert_ne!(compare_versions(a, c), Ordering::Greater);
                }
            }
        }
    }
}
