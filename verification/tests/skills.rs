use std::path::PathBuf;

use moltis::skills::{
    RepoEntry, SkillContent, SkillMetadata, SkillSource, SkillState, SkillsManifest,
};

fn skill(name: &str) -> SkillState {
    SkillState { name: name.to_string(), relative_path: format!("skills/{name}"), enabled: false }
}

fn repo(source: &str, repo_name: &str, skills: &[&str]) -> RepoEntry {
    RepoEntry {
        source: source.to_string(),
        repo_name: repo_name.to_string(),
        installed_at_ms: 5,
        skills: skills.iter().map(|name| skill(name)).collect(),
    }
}

fn manifest() -> SkillsManifest {
    let mut manifest = SkillsManifest::default();
    manifest.add_repo(repo("acme/a", "a", &["one", "two", "one"]));
    manifest.add_repo(repo("acme/b", "b", &["three"]));
    manifest.add_repo(repo("acme/a", "a-again", &["four"]));
    manifest
}

fn names(manifest: &SkillsManifest) -> Vec<&str> {
    manifest.repos.iter().map(|entry| entry.repo_name.as_str()).collect()
}

fn flags(manifest: &SkillsManifest) -> Vec<bool> {
    manifest
        .repos
        .iter()
        .flat_map(|entry| entry.skills.iter().map(|skill| skill.enabled))
        .collect()
}

#[test]
fn a_new_manifest_is_empty() {
    let manifest = SkillsManifest::default();
    assert_eq!(manifest.version, 1);
    assert!(manifest.repos.is_empty());
    assert!(manifest.find_repo("acme/a").is_none());
}

#[test]
fn repos_are_found_by_source_first_come_first() {
    let manifest = manifest();
    assert_eq!(names(&manifest), ["a", "b", "a-again"]);
    assert_eq!(manifest.find_repo("acme/a").map(|entry| entry.repo_name.as_str()), Some("a"));
    assert_eq!(manifest.find_repo("acme/b").map(|entry| entry.repo_name.as_str()), Some("b"));
    assert!(manifest.find_repo("acme/c").is_none());
}

#[test]
fn removing_a_source_removes_all_of_it_and_nothing_else() {
    let mut manifest = manifest();
    manifest.remove_repo("acme/a");
    assert_eq!(names(&manifest), ["b"]);
    assert!(manifest.find_repo("acme/a").is_none());
    manifest.remove_repo("acme/a");
    assert_eq!(names(&manifest), ["b"]);
    manifest.add_repo(repo("acme/c", "c", &[]));
    manifest.remove_repo("acme/c");
    assert_eq!(names(&manifest), ["b"]);
    assert_eq!(manifest.version, 1);
}

#[test]
fn found_repos_can_be_changed_in_place() {
    let mut manifest = manifest();
    match manifest.find_repo_mut("acme/a") {
        Some(entry) => entry.installed_at_ms = 9,
        None => panic!("not found"),
    }
    assert_eq!(
        manifest.repos.iter().map(|entry| entry.installed_at_ms).collect::<Vec<_>>(),
        [9, 5, 5]
    );
    assert!(manifest.find_repo_mut("acme/c").is_none());
}

#[test]
fn the_first_skill_of_the_first_repo_is_switched() {
    let mut manifest = manifest();
    assert!(manifest.set_skill_enabled("acme/a", "one", true));
    assert_eq!(flags(&manifest), [true, false, false, false, false]);
    assert!(manifest.set_skill_enabled("acme/b", "three", true));
    assert_eq!(flags(&manifest), [true, false, false, true, false]);
    assert!(manifest.set_skill_enabled("acme/a", "one", false));
    assert_eq!(flags(&manifest), [false, false, false, true, false]);
    assert_eq!(manifest.repos[0].skills[0].name, "one");
    assert_eq!(manifest.repos[0].skills[0].relative_path, "skills/one");
}

#[test]
fn unknown_skills_are_not_switched() {
    let mut manifest = manifest();
    // The second repository of the source is not looked at.
    assert!(!manifest.set_skill_enabled("acme/a", "four", true));
    assert!(!manifest.set_skill_enabled("acme/c", "one", true));
    assert!(!manifest.set_skill_enabled("acme/b", "one", true));
    assert_eq!(flags(&manifest), [false; 5]);
}

#[test]
fn metadata_is_copied_field_by_field() {
    let content = SkillContent {
        metadata: SkillMetadata {
            name: "commit".to_string(),
            description: "Writes commits".to_string(),
            license: Some("MIT".to_string()),
            allowed_tools: vec!["git".to_string(), "sh".to_string()],
            path: PathBuf::from("/skills/commit"),
            source: Some(SkillSource::Registry),
        },
        body: "# Commit".to_string(),
    };
    let copy = content.clone();
    assert_eq!(copy.body, "# Commit");
    assert_eq!(copy.metadata.name, "commit");
    assert_eq!(copy.metadata.description, "Writes commits");
    assert_eq!(copy.metadata.license.as_deref(), Some("MIT"));
    assert_eq!(copy.metadata.allowed_tools, ["git", "sh"]);
    assert_eq!(copy.metadata.path, PathBuf::from("/skills/commit"));
    assert_eq!(copy.metadata.source, Some(SkillSource::Registry));
    for source in [SkillSource::Project, SkillSource::Personal, SkillSource::Plugin] {
        let metadata =
            SkillMetadata { source: Some(source.clone()), license: None, ..copy.metadata.clone() };
        assert_eq!(metadata.clone().source, Some(source));
        assert_eq!(metadata.clone().license, None);
    }
}
