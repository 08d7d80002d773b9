use n8n_launcher::compose::{resolve_compose_dir, ComposeCandidate};

fn candidate(description: &str, path: &str, has_manifest: bool) -> ComposeCandidate {
    ComposeCandidate {
        description: String::from(description),
        path: String::from(path),
        has_manifest,
    }
}

#[test]
fn resolver_picks_first_directory_with_manifest() {
    let candidates = vec![
        candidate("Resource directory: \"/res\"", "/res", false),
        candidate("Current directory: \"/work\"", "/work", true),
        candidate("Project root: \"/\"", "/", true),
    ];
    assert_eq!(resolve_compose_dir(&candidates), Ok(String::from("/work")));
}

#[test]
fn resolver_ignores_later_candidates() {
    let candidates = vec![
        candidate("Current directory: \"/a\"", "/a", true),
        candidate("Project root: \"/b\"", "/b", true),
    ];
    assert_eq!(resolve_compose_dir(&candidates), Ok(String::from("/a")));
}

#[test]
fn resolver_reports_every_searched_location() {
    let candidates = vec![
        candidate("Resource directory: \"/res\"", "/res", false),
        candidate("Current directory: \"/work\"", "/work", false),
        candidate("Project root: \"/\"", "/", false),
    ];
    assert_eq!(
        resolve_compose_dir(&candidates),
        Err(String::from(
            "docker-compose.yaml not found. Searched in:\nResource directory: \"/res\"\n- Current directory: \"/work\"\n- Project root: \"/\""
        ))
    );
}

#[test]
fn resolver_with_no_candidates_reports_empty_search() {
    let candidates: Vec<ComposeCandidate> = Vec::new();
    assert_eq!(
        resolve_compose_dir(&candidates),
        Err(String::from("docker-compose.yaml not found. Searched in:\n"))
    );
}
