use commayte::message::{
    add_gitmoji_to_commit, clean_commit_message, clean_commit_message_from_ai, has_emoji,
};

#[test]
fn first_line_is_kept() {
    assert_eq!(
        clean_commit_message_from_ai("fix(core): handle nil pointer\nextra text", false),
        "fix(core): handle nil pointer"
    );
}

#[test]
fn text_without_colon_falls_back() {
    assert_eq!(clean_commit_message("not a commit message"), "chore: update code");
    assert_eq!(clean_commit_message_from_ai("feat add thing", false), "chore: update code");
}

#[test]
fn invalid_type_gives_empty_sentinel() {
    assert_eq!(clean_commit_message("bogus: something"), "");
    assert_eq!(clean_commit_message_from_ai("bogus: something", true), "");
}

#[test]
fn empty_text_falls_back() {
    assert_eq!(clean_commit_message(""), "chore: update code");
    assert_eq!(clean_commit_message_from_ai("   \n", true), "\u{1F527} chore: update code");
}

#[test]
fn noise_tokens_are_removed() {
    assert_eq!(clean_commit_message("Commit: \"feat: add login\""), "feat: add login");
    assert_eq!(clean_commit_message("```docs: update readme```"), "docs: update readme");
    assert_eq!(clean_commit_message("  'refactor(api): split commit handler'  "), "refactor(api): split  handler");
}

#[test]
fn normalizing_twice_changes_nothing() {
    let once = clean_commit_message("feat(ui): add dark mode\nmore");
    assert_eq!(clean_commit_message(&once), once);
    let fallback = clean_commit_message("nothing here");
    assert_eq!(clean_commit_message(&fallback), fallback);
}

#[test]
fn decoration_is_deterministic() {
    let a = clean_commit_message_from_ai("perf: faster startup", true);
    let b = clean_commit_message_from_ai("perf: faster startup", true);
    assert_eq!(a, b);
    assert!(a.ends_with(" perf: faster startup"));
    assert!(has_emoji(&a));
}

#[test]
fn decoration_uses_the_type_list() {
    let feat_glyphs = ["\u{1F680}", "\u{1F389}", "\u{1F4AB}", "\u{1F31F}"];
    let d = add_gitmoji_to_commit("feat(core): add parser");
    let glyph = d.strip_suffix(" feat(core): add parser").unwrap();
    assert!(feat_glyphs.contains(&glyph));
    assert_eq!(add_gitmoji_to_commit("unknown: thing"), "\u{1F527} unknown: thing");
    assert_eq!(add_gitmoji_to_commit("feat"), "\u{1F527} feat");
}

#[test]
fn hash_picks_varying_glyphs() {
    // Over many messages more than one glyph of the list is chosen.
    let mut seen = std::collections::HashSet::new();
    for i in 0..40 {
        let msg = format!("docs: update section {}", i);
        let d = add_gitmoji_to_commit(&msg);
        let glyph = d.strip_suffix(&format!(" {}", msg)).unwrap().to_string();
        seen.insert(glyph);
    }
    assert!(seen.len() > 1);
}

#[test]
fn emoji_detection() {
    assert!(has_emoji("  \u{1F680} feat: x"));
    assert!(has_emoji("\u{2728} style: x"));
    assert!(!has_emoji("feat: x"));
    assert!(!has_emoji(""));
    assert!(!has_emoji("\u{1F9EA} test: x"));
}

#[test]
fn valid_type_prefix_accepts_longer_words() {
    assert_eq!(clean_commit_message("feature: add thing"), "feature: add thing");
    assert_eq!(
        clean_commit_message_from_ai("feature: add thing", true),
        "\u{1F527} feature: add thing"
    );
}

#[test]
fn stripping_repeats_until_no_token_is_left() {
    assert_eq!(clean_commit_message("fix: com`mit"), "fix:");
    assert_eq!(clean_commit_message("feat: com'mit x"), "feat:  x");
    let once = clean_commit_message("feat: comcommitmit x");
    assert_eq!(once, "feat:  x");
    assert_eq!(clean_commit_message(&once), once);
}
