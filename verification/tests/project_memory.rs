use codex_hooks_core::project_memory::{
    build_project_id, hex_encode_prefix, memory_text_candidate, project_memory_from_text,
    project_memory_path, projects_memory_root, sanitize_slug, ProjectMemory,
};

#[test]
fn project_id_uses_repo_slug_and_identity_hash() {
    let git_root = "/tmp/My Repo";
    let without_origin = build_project_id(git_root, None);
    let with_origin = build_project_id(git_root, Some("git@example.com:openai/repo.git"));

    assert!(without_origin.starts_with("my-repo-"));
    assert!(with_origin.starts_with("my-repo-"));
    assert_ne!(without_origin, with_origin);
}

#[test]
fn project_id_hash_is_first_six_sha1_bytes_of_identity() {
    let id = build_project_id("/tmp/My Repo", None);
    assert_eq!(id, "my-repo-e0d5de5e828e");
    assert_eq!(
        build_project_id("/tmp/My Repo", Some("git@example.com:openai/repo.git")),
        "my-repo-4582c45b2716"
    );
    let blank_origin = build_project_id("/tmp/My Repo", Some("   "));
    assert_eq!(id, blank_origin);
    let trimmed = build_project_id("/tmp/My Repo", Some("  git@x:y.git  "));
    let untrimmed = build_project_id("/tmp/My Repo", Some("git@x:y.git"));
    assert_eq!(trimmed, untrimmed);
    let backslashed = build_project_id("C:\\work\\repo", None);
    let forward = build_project_id("C:/work/repo", None);
    assert_eq!(backslashed, "c-work-repo-5ea0d328f00c");
    assert_eq!(forward, "repo-5ea0d328f00c");
}

#[test]
fn project_id_ends_in_twelve_lowercase_hex_digits() {
    for (root, origin, slug) in [
        ("/tmp/My Repo", None, "my-repo"),
        ("/tmp/My Repo", Some("git@example.com:openai/repo.git"), "my-repo"),
        ("/", None, "project"),
        ("/srv/ÄÖ", Some("https://h/x"), "project"),
    ] {
        let id = build_project_id(root, origin);
        assert_eq!(id.len(), slug.len() + 13, "{id}");
        assert!(id.starts_with(&format!("{slug}-")), "{id}");
        let hex = &id[slug.len() + 1..];
        assert!(hex.chars().all(|c| c.is_ascii_digit() || ('a'..='f').contains(&c)), "{id}");
    }
}

#[test]
fn project_id_falls_back_to_project_slug() {
    assert!(build_project_id("/tmp/---", None).starts_with("project-"));
    assert!(build_project_id("/", None).starts_with("project-"));
}

#[test]
fn sanitize_slug_lowers_and_collapses_separators() {
    assert_eq!(sanitize_slug("My Repo"), "my-repo");
    assert_eq!(sanitize_slug("--Hello,,  World__42--"), "hello-world-42");
    assert_eq!(sanitize_slug("ÄÖÜ"), "");
    assert_eq!(sanitize_slug("a.b.c"), "a-b-c");
}

#[test]
fn hex_encode_prefix_is_lowercase_two_digits_per_byte() {
    assert_eq!(hex_encode_prefix(&[0x00, 0x0f, 0xab, 0xff], 4), "000fabff");
    assert_eq!(hex_encode_prefix(&[0x12, 0x34, 0x56], 2), "1234");
}

#[test]
fn project_memory_paths_nest_under_codex_home() {
    assert_eq!(projects_memory_root("/home/a/.codex"), "/home/a/.codex/memories/projects");
    assert_eq!(
        project_memory_path("/home/a/.codex/", "repo-abc"),
        "/home/a/.codex/memories/projects/repo-abc/memory.md"
    );
}

#[test]
fn project_memory_needs_non_empty_text() {
    assert_eq!(memory_text_candidate("  \n note \n"), "note");
    assert_eq!(
        project_memory_from_text("id".to_string(), "/r".to_string(), String::new()),
        None
    );
    let memory =
        project_memory_from_text("id".to_string(), "/r".to_string(), "note".to_string()).unwrap();
    assert_eq!(
        memory,
        ProjectMemory {
            project_id: "id".to_string(),
            git_root: "/r".to_string(),
            text: "note".to_string()
        }
    );
    assert_eq!(
        memory.serialize_body(),
        "<project_id>id</project_id>\n<git_root>/r</git_root>\nnote"
    );
}
