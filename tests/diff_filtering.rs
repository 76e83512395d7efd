use commayte::diff_filter::{
    extract_filename_from_diff_header, filter_diff, ignored_patterns, truncate_file_entry,
    FilterBudget, DIFF_TRUNCATION_MARKER, FILE_TRUNCATION_MARKER,
};

fn section(path: &str, body: &str) -> String {
    format!("diff --git a/{p} b/{p}\n{b}", p = path, b = body)
}

#[test]
fn header_path_is_extracted() {
    assert_eq!(extract_filename_from_diff_header("diff --git a/src/main.rs b/src/main.rs"), Some("src/main.rs"));
    assert_eq!(extract_filename_from_diff_header("diff --git x y"), None);
    assert_eq!(extract_filename_from_diff_header("diff --git a/only"), None);
}

#[test]
fn ignored_sections_are_dropped() {
    let raw = format!(
        "{}\n{}\n{}",
        section("node_modules/foo.js", "+x"),
        section("src/lib.rs", "+fn a() {}"),
        section("Cargo.lock", "+lock")
    );
    let out = filter_diff(&raw, &ignored_patterns(), FilterBudget { per_file: 1000, total: 8000 });
    assert_eq!(out, "diff --git a/src/lib.rs b/src/lib.rs\n+fn a() {}");
}

#[test]
fn directory_pattern_excludes_prefix() {
    let raw = section("node_modules/foo.js", "+x");
    let out = filter_diff(&raw, &["node_modules/"], FilterBudget { per_file: 100, total: 100 });
    assert_eq!(out, "");
}

#[test]
fn suffix_and_substring_patterns() {
    let raw = format!("{}\n{}\n{}", section("a.png", "+x"), section("my.env.local", "+y"), section("keep.rs", "+z"));
    let out = filter_diff(&raw, &["*.png", ".env"], FilterBudget { per_file: 100, total: 1000 });
    assert_eq!(out, "diff --git a/keep.rs b/keep.rs\n+z");
}

#[test]
fn sections_are_joined_with_blank_line() {
    let raw = format!("{}\n{}", section("a.rs", "+1"), section("b.rs", "+2"));
    let out = filter_diff(&raw, &[], FilterBudget { per_file: 100, total: 1000 });
    assert_eq!(out, "diff --git a/a.rs b/a.rs\n+1\n\ndiff --git a/b.rs b/b.rs\n+2");
}

#[test]
fn long_section_is_truncated() {
    let body = "+".repeat(50);
    let raw = section("a.rs", &body);
    let out = filter_diff(&raw, &[], FilterBudget { per_file: 10, total: 1000 });
    assert_eq!(out, format!("diff --git{}", FILE_TRUNCATION_MARKER));
    assert!(out.ends_with(FILE_TRUNCATION_MARKER));
    assert_eq!(out.chars().count() - FILE_TRUNCATION_MARKER.chars().count(), 10);
}

#[test]
fn truncation_keeps_prefix() {
    let e: Vec<char> = "abcdef".chars().collect();
    let t: String = truncate_file_entry(&e, 3).into_iter().collect();
    assert_eq!(t, format!("abc{}", FILE_TRUNCATION_MARKER));
    let same: String = truncate_file_entry(&e, 6).into_iter().collect();
    assert_eq!(same, "abcdef");
}

#[test]
fn total_ceiling_stops_the_filter() {
    let first = section("a.rs", "+1");
    let second = section("b.rs", "+2");
    let third = section("c.rs", "+3");
    let raw = format!("{}\n{}\n{}", first, second, third);
    let total = first.chars().count() + 5;
    let out = filter_diff(&raw, &[], FilterBudget { per_file: 100, total });
    assert_eq!(out, format!("{}\n\n{}", first, DIFF_TRUNCATION_MARKER));
    assert!(out.chars().count() <= total + DIFF_TRUNCATION_MARKER.chars().count());
}

#[test]
fn last_section_over_budget_is_dropped_silently() {
    let first = section("a.rs", "+1");
    let second = section("b.rs", "+22222222");
    let raw = format!("{}\n{}", first, second);
    let total = first.chars().count() + 5;
    let out = filter_diff(&raw, &[], FilterBudget { per_file: 100, total });
    assert_eq!(out, first);
}

#[test]
fn empty_diff_gives_empty_output() {
    assert_eq!(filter_diff("", &ignored_patterns(), FilterBudget { per_file: 10, total: 10 }), "");
}

#[test]
fn unparsable_header_is_kept() {
    let raw = "diff --git broken\n+x";
    let out = filter_diff(raw, &["broken"], FilterBudget { per_file: 100, total: 100 });
    assert_eq!(out, raw);
}

#[test]
fn carriage_returns_before_feeds_are_dropped() {
    let raw = "diff --git a/x.rs b/x.rs\r\n+1\r\n";
    let out = filter_diff(raw, &[], FilterBudget { per_file: 100, total: 100 });
    assert_eq!(out, "diff --git a/x.rs b/x.rs\n+1");
}

#[test]
fn output_never_exceeds_bound_on_many_sections() {
    let mut raw = String::new();
    for i in 0..50 {
        raw.push_str(&section(&format!("f{}.rs", i), "+x"));
        raw.push('\n');
    }
    for total in [0usize, 10, 30, 100, 333] {
        let out = filter_diff(&raw, &[], FilterBudget { per_file: 20, total });
        assert!(out.chars().count() <= total + DIFF_TRUNCATION_MARKER.chars().count());
    }
}

#[test]
fn default_list_drops_locks_and_images() {
    let raw = "diff --git a/Cargo.lock b/Cargo.lock\n+v\ndiff --git a/src/a.rs b/src/a.rs\n+x\ndiff --git a/img/l.png b/img/l.png\n+p\ndiff --git a/README.md b/README.md\n+d";
    let out = filter_diff(raw, &ignored_patterns(), FilterBudget { per_file: 1000, total: 8000 });
    assert_eq!(out, "diff --git a/src/a.rs b/src/a.rs\n+x\n\ndiff --git a/README.md b/README.md\n+d");
    let patterns = ignored_patterns();
    assert_eq!(patterns.len(), 182);
    assert!(patterns.contains(&"node_modules/"));
}

#[test]
fn marker_separator_is_reserved() {
    let first = section("a.rs", "+1");
    let second = section("b.rs", "+2");
    let third = section("c.rs", "+3");
    let raw = format!("{}\n{}\n{}", first, second, third);
    let n = first.chars().count();
    // The first section fits only with room for the separator before a marker.
    let out = filter_diff(&raw, &[], FilterBudget { per_file: 100, total: n + 1 });
    assert_eq!(out, DIFF_TRUNCATION_MARKER);
    let out = filter_diff(&raw, &[], FilterBudget { per_file: 100, total: n + 2 });
    assert_eq!(out, format!("{}\n\n{}", first, DIFF_TRUNCATION_MARKER));
    assert!(out.chars().count() <= n + 2 + DIFF_TRUNCATION_MARKER.chars().count());
    // At the end of input no marker can follow, so the last section may fill the ceiling.
    let out = filter_diff(&first, &[], FilterBudget { per_file: 100, total: n });
    assert_eq!(out, first);
}
