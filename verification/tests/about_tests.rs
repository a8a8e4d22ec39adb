use ghostwriter_lib::about::{dialog_body, DIALOG_TITLE, REPO_URL, VERSION};

#[test]
fn body_contains_version() {
    assert!(dialog_body().contains(VERSION));
}

#[test]
fn body_contains_repo_url() {
    assert!(dialog_body().contains(REPO_URL));
}

#[test]
fn body_has_product_name() {
    assert!(dialog_body().contains("GhostWriter"));
}

#[test]
fn repo_url_is_https_github() {
    assert!(REPO_URL.starts_with("https://github.com/"));
}

#[test]
fn dialog_title_mentions_product() {
    assert!(DIALOG_TITLE.contains("GhostWriter"));
}

#[test]
fn body_has_two_lines_separated_by_blank() {
    let body = dialog_body();
    assert!(body.contains("\n\n"));
}

#[test]
fn body_is_exact() {
    assert_eq!(
        dialog_body(),
        "GhostWriter v0.1.0\n\nhttps://github.com/arvinmoj/GhostWriter"
    );
}

#[test]
fn version_matches_package() {
    assert_eq!(VERSION, "0.1.0");
}

#[test]
fn test_module_compiles() {
    // The tray lives in the application; the library builds without it.
    assert!(true);
}
