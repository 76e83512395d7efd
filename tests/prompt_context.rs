use commayte::project::{build_context, ProjectInfo};
use commayte::prompts::generate_commit_prompt;
use commayte::update::{
    archive_asset_name, archive_binary_path, get_platform_identifier, release_is_newer,
    GitHubAsset, GitHubRelease, VersionError,
};

fn blank() -> ProjectInfo {
    ProjectInfo {
        name: None,
        version: None,
        description: None,
        project_type: None,
        keywords: None,
        group: None,
        go_version: None,
        has_docker: false,
        has_docker_compose: false,
        has_github_actions: false,
    }
}

#[test]
fn prompt_embeds_context_and_diff() {
    let p = generate_commit_prompt("+added", "- Name: x\n", false);
    assert!(p.starts_with("Analyze the git diff below and generate a conventional commit message.\n\nProject context:\n- Name: x\n\n\nInstructions:\n"));
    assert!(p.contains("5. Format: type(scope): description\n"));
    assert!(p.ends_with("Git diff:\n+added\n\nCommit message:"));
    let e = generate_commit_prompt("+added", "", true);
    assert!(e.contains("3. Format: type description\n"));
    assert!(!e.contains("scope"));
}

#[test]
fn context_lists_known_items() {
    assert_eq!(build_context(&blank()), "");
    let mut info = blank();
    info.name = Some("demo".to_string());
    info.project_type = Some("rust".to_string());
    info.has_docker = true;
    assert_eq!(build_context(&info), "- Name: demo\n- Type: rust\n- Has Docker: true\n\n");
}

#[test]
fn release_helpers() {
    let release = GitHubRelease {
        tag_name: "vv1.2.3".to_string(),
        name: "r".to_string(),
        body: String::new(),
        assets: vec![
            GitHubAsset { name: "commayte-linux-x86_64".to_string(), browser_download_url: "u1".to_string() },
            GitHubAsset { name: "commayte-vv1.2.3.tar.gz".to_string(), browser_download_url: "u2".to_string() },
        ],
    };
    assert_eq!(release.version(), "1.2.3");
    assert!(release.has_archive_asset());
    assert_eq!(release.find_asset("commayte-linux-x86_64"), Some(0));
    assert_eq!(release.find_asset("missing"), None);
    assert_eq!(archive_asset_name("v2.0.0"), "commayte-v2.0.0.tar.gz");
    assert_eq!(archive_binary_path("p"), "p/p");
    assert_eq!(get_platform_identifier("macos", "aarch64").as_deref(), Some("commayte-macos-arm64"));
    assert_eq!(get_platform_identifier("freebsd", "x86_64"), None);
}

#[test]
fn release_version_comparison() {
    let release = |tag: &str| GitHubRelease {
        tag_name: tag.to_string(),
        name: String::new(),
        body: String::new(),
        assets: Vec::new(),
    };
    assert_eq!(release_is_newer(&release("v1.2.0"), "1.1.9"), Ok(true));
    assert_eq!(release_is_newer(&release("v1.2.0"), "1.2.0"), Ok(false));
    assert_eq!(release_is_newer(&release("1.10.0"), "1.9.0"), Ok(true));
    assert_eq!(release_is_newer(&release("v1.0.0-rc.1"), "1.0.0"), Ok(false));
    assert_eq!(release_is_newer(&release("latest"), "1.0.0"), Err(VersionError::InvalidLatest));
    assert_eq!(release_is_newer(&release("v1.0.0"), ""), Err(VersionError::InvalidCurrent));
}
