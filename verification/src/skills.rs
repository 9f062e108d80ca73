//! The skills manifest: installed repositories and the enabled state of each of their skills.

use std::path::PathBuf;

use vstd::prelude::*;

verus! {

/// `std::path::PathBuf`, carried along without looking inside.
#[verifier::external_type_specification]
#[verifier::external_body]
pub struct ExPathBuf(std::path::PathBuf);

/// `PathBuf::clone`: the copy is the same path.
pub assume_specification[ <PathBuf as Clone>::clone ](path: &PathBuf) -> (res: PathBuf)
    ensures
        res == *path,
;

/// Per-skill enabled state within a repo.
#[derive(Debug, Clone)]
pub struct SkillState {
    pub name: String,
    pub relative_path: String,
    pub enabled: bool,
}

/// A single cloned repository with its discovered skills.
#[derive(Debug, Clone)]
pub struct RepoEntry {
    pub source: String,
    pub repo_name: String,
    pub installed_at_ms: u64,
    pub skills: Vec<SkillState>,
}

/// Top-level manifest tracking installed repos and per-skill enabled state.
#[derive(Debug, Clone)]
pub struct SkillsManifest {
    pub version: u32,
    pub repos: Vec<RepoEntry>,
}

/// Where a skill was discovered from.
#[derive(Debug, Clone, PartialEq, Eq, Structural)]
pub enum SkillSource {
    /// Project-local: `<cwd>/.moltis/skills/`
    Project,
    /// Personal: `~/.moltis/skills/`
    Personal,
    /// Bundled inside a plugin directory.
    Plugin,
    /// Installed from a registry (e.g. skills.sh).
    Registry,
}

/// Lightweight metadata parsed from SKILL.md frontmatter.
/// Loaded at startup for all discovered skills (cheap).
#[derive(Debug)]
pub struct SkillMetadata {
    /// Skill name: lowercase, hyphens allowed, 1-64 chars.
    pub name: String,
    /// Short human-readable description.
    pub description: String,
    /// SPDX license identifier.
    pub license: Option<String>,
    /// Tools this skill is allowed to use.
    pub allowed_tools: Vec<String>,
    /// Filesystem path to the skill directory.
    pub path: PathBuf,
    /// Where this skill was discovered.
    pub source: Option<SkillSource>,
}

/// Full skill content: metadata + markdown body.
/// Loaded on demand when a skill is activated.
#[derive(Debug, Clone)]
pub struct SkillContent {
    pub metadata: SkillMetadata,
    pub body: String,
}

/// Position `i` holds the first repository that came from `source`.
pub open spec fn is_first_repo(repos: Seq<RepoEntry>, source: Seq<char>, i: int) -> bool {
    &&& 0 <= i < repos.len()
    &&& repos[i].source@ == source
    &&& forall|j: int| 0 <= j < i ==> (#[trigger] repos[j]).source@ != source
}

/// No repository came from `source`.
pub open spec fn no_repo(repos: Seq<RepoEntry>, source: Seq<char>) -> bool {
    forall|j: int| 0 <= j < repos.len() ==> (#[trigger] repos[j]).source@ != source
}

/// Position `i` holds the first skill called `name`.
pub open spec fn is_first_skill(skills: Seq<SkillState>, name: Seq<char>, i: int) -> bool {
    &&& 0 <= i < skills.len()
    &&& skills[i].name@ == name
    &&& forall|j: int| 0 <= j < i ==> (#[trigger] skills[j]).name@ != name
}

/// The entry came from somewhere other than `source`.
pub open spec fn from_elsewhere(source: Seq<char>) -> spec_fn(RepoEntry) -> bool {
    |entry: RepoEntry| entry.source@ != source
}

/// `after` is `before` with nothing but the enabled flag set to `enabled`.
pub open spec fn skill_with_enabled(before: SkillState, after: SkillState, enabled: bool) -> bool {
    &&& after.name == before.name
    &&& after.relative_path == before.relative_path
    &&& after.enabled == enabled
}

/// `after` is `before` with its `k`-th skill switched and everything else kept.
pub open spec fn repo_with_skill(
    before: RepoEntry,
    after: RepoEntry,
    k: int,
    enabled: bool,
) -> bool {
    &&& after.source == before.source
    &&& after.repo_name == before.repo_name
    &&& after.installed_at_ms == before.installed_at_ms
    &&& 0 <= k < before.skills@.len()
    &&& after.skills@ == before.skills@.update(k, after.skills@[k])
    &&& skill_with_enabled(before.skills@[k], after.skills@[k], enabled)
}

/// The first repository from `source` holds a skill called `name`.
pub open spec fn has_skill(repos: Seq<RepoEntry>, source: Seq<char>, name: Seq<char>) -> bool {
    exists|i: int, k: int|
        is_first_repo(repos, source, i) && #[trigger] is_first_skill(
            #[trigger] repos[i].skills@,
            name,
            k,
        )
}

/// `after` is `before` with the first skill called `name` of the first repository from `source`
/// switched to `enabled`, and everything else kept.
pub open spec fn skill_switched(
    before: Seq<RepoEntry>,
    after: Seq<RepoEntry>,
    source: Seq<char>,
    name: Seq<char>,
    enabled: bool,
) -> bool {
    exists|i: int, k: int|
        {
            &&& is_first_repo(before, source, i)
            &&& #[trigger] is_first_skill(#[trigger] before[i].skills@, name, k)
            &&& after == before.update(i, after[i])
            &&& repo_with_skill(before[i], after[i], k, enabled)
        }
}

impl Default for SkillsManifest {
    fn default() -> (manifest: Self)
        ensures
            manifest.version == 1,
            manifest.repos@ == Seq::<RepoEntry>::empty(),
    {
        Self { version: 1, repos: Vec::new() }
    }
}

impl SkillsManifest {
    /// Appends `entry` after the repositories already listed.
    pub fn add_repo(&mut self, entry: RepoEntry)
        ensures
            final(self).version == old(self).version,
            final(self).repos@ == old(self).repos@.push(entry),
    {
        self.repos.push(entry);
    }

    /// Drops every repository that came from `source` and keeps the others in order.
    pub fn remove_repo(&mut self, source: &str)
        ensures
            final(self).version == old(self).version,
            final(self).repos@ == old(self).repos@.filter(from_elsewhere(source@)),
    {
        let mut i: usize = 0;
        let ghost all = self.repos@;
        let ghost mut done: int = 0;
        let ghost keep = from_elsewhere(source@);
        assert(all.take(0).filter(keep) =~= Seq::<RepoEntry>::empty()) by {
            reveal(Seq::filter);
        }
        assert(all.skip(0) =~= all);
        while i < self.repos.len()
            invariant
                0 <= done <= all.len(),
                keep == from_elsewhere(source@),
                i == all.take(done).filter(keep).len(),
                self.version == old(self).version,
                self.repos@ == all.take(done).filter(keep) + all.skip(done),
            decreases self.repos.len() - i,
        {
            proof {
                assert(self.repos@[i as int] == all[done]);
                assert(all.take(done + 1).drop_last() =~= all.take(done));
                assert(all.take(done + 1).last() == all[done]);
                reveal(Seq::filter);
            }
            if *self.repos[i].source.as_str() == *source {
                let _removed = self.repos.remove(i);
                assert(self.repos@ =~= all.take(done + 1).filter(keep) + all.skip(done + 1));
            } else {
                i += 1;
                assert(self.repos@ =~= all.take(done + 1).filter(keep) + all.skip(done + 1));
            }
            proof {
                done = done + 1;
            }
        }
        assert(all.take(done) =~= all);
        assert(self.repos@ =~= all.filter(keep));
    }

    /// The first repository that came from `source`.
    pub fn find_repo(&self, source: &str) -> (found: Option<&RepoEntry>)
        ensures
            match found {
                Some(entry) => exists|i: int|
                    is_first_repo(self.repos@, source@, i) && *entry == #[trigger] self.repos@[i],
                None => no_repo(self.repos@, source@),
            },
    {
        for i in 0..self.repos.len()
            invariant
                forall|j: int| 0 <= j < i ==> (#[trigger] self.repos@[j]).source@ != source@,
        {
            if *self.repos[i].source.as_str() == *source {
                assert(is_first_repo(self.repos@, source@, i as int));
                return Some(&self.repos[i]);
            }
        }
        None
    }

    /// The first repository that came from `source`, open to changes; whatever the caller
    /// leaves there takes the entry's place and nothing else moves.
    pub fn find_repo_mut(&mut self, source: &str) -> (found: Option<&mut RepoEntry>)
        ensures
            final(self).version == old(self).version,
            match found {
                Some(entry) => exists|i: int|
                    is_first_repo(old(self).repos@, source@, i) && *entry
                        == #[trigger] old(self).repos@[i] && final(self).repos@
                        == old(self).repos@.update(i, *final(entry)),
                None => no_repo(old(self).repos@, source@) && final(self).repos@
                    == old(self).repos@,
            },
    {
        let mut i: usize = 0;
        while i < self.repos.len()
            invariant
                *self == *old(self),
                0 <= i <= self.repos@.len(),
                forall|j: int| 0 <= j < i ==> (#[trigger] self.repos@[j]).source@ != source@,
            decreases self.repos.len() - i,
        {
            if *self.repos[i].source.as_str() == *source {
                assert(is_first_repo(self.repos@, source@, i as int));
                return Some(&mut self.repos[i]);
            }
            i += 1;
        }
        None
    }

    /// Switches the first skill called `skill_name` of the first repository that came from
    /// `source`, and tells whether there was such a skill. Later repositories of the same
    /// source are not looked at.
    pub fn set_skill_enabled(&mut self, source: &str, skill_name: &str, enabled: bool) -> (found:
        bool)
        ensures
            final(self).version == old(self).version,
            found <==> has_skill(old(self).repos@, source@, skill_name@),
            !found ==> final(self).repos@ == old(self).repos@,
            found ==> skill_switched(
                old(self).repos@,
                final(self).repos@,
                source@,
                skill_name@,
                enabled,
            ),
    {
        let ghost before = self.repos@;
        match self.find_repo_mut(source) {
            None => false,
            Some(repo) => {
                let ghost i = choose|i: int|
                    is_first_repo(before, source@, i) && *repo == #[trigger] before[i]
                        && after_borrow(self).repos@ == before.update(i, *final(repo));
                let ghost entry = *repo;
                let mut k: usize = 0;
                while k < repo.skills.len()
                    invariant
                        *repo == entry,
                        before == old(self).repos@,
                        is_first_repo(before, source@, i),
                        entry == before[i],
                        0 <= k <= repo.skills@.len(),
                        forall|j: int|
                            0 <= j < k ==> (#[trigger] repo.skills@[j]).name@ != skill_name@,
                        after_borrow(self).version == old(self).version,
                        after_borrow(self).repos@ == before.update(i, *final(repo)),
                    decreases repo.skills.len() - k,
                {
                    if *repo.skills[k].name.as_str() == *skill_name {
                        assert(is_first_skill(before[i].skills@, skill_name@, k as int));
                        repo.skills[k].enabled = enabled;
                        assert(repo_with_skill(before[i], *repo, k as int, enabled));
                        return true;
                    }
                    k += 1;
                }
                false
            },
        }
    }
}

impl Clone for SkillMetadata {
    fn clone(&self) -> (res: Self)
        ensures
            res.name == self.name,
            res.description == self.description,
            res.license == self.license,
            res.allowed_tools@ == self.allowed_tools@,
            res.path == self.path,
            res.source == self.source,
    {
        let license = match &self.license {
            Some(text) => Some(text.clone()),
            None => None,
        };
        let mut allowed_tools: Vec<String> = Vec::new();
        for i in 0..self.allowed_tools.len()
            invariant
                allowed_tools@ == self.allowed_tools@.take(i as int),
        {
            allowed_tools.push(self.allowed_tools[i].clone());
        }
        let source = match &self.source {
            Some(SkillSource::Project) => Some(SkillSource::Project),
            Some(SkillSource::Personal) => Some(SkillSource::Personal),
            Some(SkillSource::Plugin) => Some(SkillSource::Plugin),
            Some(SkillSource::Registry) => Some(SkillSource::Registry),
            None => None,
        };
        SkillMetadata {
            name: self.name.clone(),
            description: self.description.clone(),
            license,
            allowed_tools,
            path: self.path.clone(),
            source,
        }
    }
}

// ---- laws ------------------------------------------------------------------

/// A source has at most one first repository.
pub proof fn first_repo_is_unique(repos: Seq<RepoEntry>, source: Seq<char>, i: int, j: int)
    requires
        is_first_repo(repos, source, i),
        is_first_repo(repos, source, j),
    ensures
        i == j,
{
    if i < j {
        assert(repos[i].source@ != source);
    } else if j < i {
        assert(repos[j].source@ != source);
    }
}

/// A repository is found after it was added, if nothing from its source was there before.
pub proof fn added_repo_is_found(repos: Seq<RepoEntry>, entry: RepoEntry)
    requires
        no_repo(repos, entry.source@),
    ensures
        is_first_repo(repos.push(entry), entry.source@, repos.len() as int),
{
}

/// Adding a repository does not change what is found for a source that was there before.
pub proof fn adding_hides_nothing(
    repos: Seq<RepoEntry>,
    entry: RepoEntry,
    source: Seq<char>,
    i: int,
)
    requires
        is_first_repo(repos, source, i),
    ensures
        is_first_repo(repos.push(entry), source, i),
        repos.push(entry)[i] == repos[i],
{
}

/// Nothing from a source is left after it was removed.
pub proof fn removed_source_is_gone(repos: Seq<RepoEntry>, source: Seq<char>)
    ensures
        no_repo(repos.filter(from_elsewhere(source)), source),
{
    broadcast use Seq::lemma_filter_pred;
}

/// Removing a source that is not there changes nothing.
pub proof fn removing_an_absent_source_changes_nothing(repos: Seq<RepoEntry>, source: Seq<char>)
    requires
        no_repo(repos, source),
    ensures
        repos.filter(from_elsewhere(source)) == repos,
    decreases repos.len(),
{
    reveal(Seq::filter);
    if repos.len() > 0 {
        removing_an_absent_source_changes_nothing(repos.drop_last(), source);
        assert(repos.drop_last().push(repos.last()) =~= repos);
    }
}

/// Removing a source twice is removing it once.
pub proof fn removing_is_idempotent(repos: Seq<RepoEntry>, source: Seq<char>)
    ensures
        repos.filter(from_elsewhere(source)).filter(from_elsewhere(source)) == repos.filter(
            from_elsewhere(source),
        ),
{
    removed_source_is_gone(repos, source);
    removing_an_absent_source_changes_nothing(repos.filter(from_elsewhere(source)), source);
}

/// Removing a repository undoes adding it, if nothing from its source was there before.
pub proof fn removing_undoes_adding(repos: Seq<RepoEntry>, entry: RepoEntry)
    requires
        no_repo(repos, entry.source@),
    ensures
        repos.push(entry).filter(from_elsewhere(entry.source@)) == repos,
{
    reveal(Seq::filter);
    assert(repos.push(entry).drop_last() =~= repos);
    removing_an_absent_source_changes_nothing(repos, entry.source@);
}

/// Removing a source keeps the repositories of every other source, in their order.
pub proof fn removing_keeps_other_sources(
    repos: Seq<RepoEntry>,
    source: Seq<char>,
    other: Seq<char>,
)
    requires
        other != source,
    ensures
        repos.filter(from_elsewhere(source)).filter(|entry: RepoEntry| entry.source@ == other)
            == repos.filter(|entry: RepoEntry| entry.source@ == other),
    decreases repos.len(),
{
    reveal(Seq::filter);
    if repos.len() > 0 {
        removing_keeps_other_sources(repos.drop_last(), source, other);
        let kept = repos.drop_last().filter(from_elsewhere(source));
        assert(kept.push(repos.last()).drop_last() =~= kept);
    }
}

/// Switching a skill moves no repository and no skill: the same positions are found after it.
pub proof fn switching_moves_nothing(
    before: Seq<RepoEntry>,
    after: Seq<RepoEntry>,
    source: Seq<char>,
    name: Seq<char>,
    enabled: bool,
)
    requires
        skill_switched(before, after, source, name, enabled),
    ensures
        after.len() == before.len(),
        forall|i: int|
            0 <= i < before.len() ==> (#[trigger] after[i]).source@ == before[i].source@
                && after[i].skills@.len() == before[i].skills@.len(),
        forall|i: int, k: int|
            0 <= i < before.len() && 0 <= k < before[i].skills@.len() ==> (
            #[trigger] after[i].skills@[k]).name@ == before[i].skills@[k].name@,
{
}

/// A skill that was switched can be found again, and holds the flag it was given.
pub proof fn switched_skill_holds_the_flag(
    before: Seq<RepoEntry>,
    after: Seq<RepoEntry>,
    source: Seq<char>,
    name: Seq<char>,
    enabled: bool,
)
    requires
        skill_switched(before, after, source, name, enabled),
    ensures
        has_skill(after, source, name),
        exists|i: int, k: int|
            is_first_repo(after, source, i) && #[trigger] is_first_skill(
                #[trigger] after[i].skills@,
                name,
                k,
            ) && after[i].skills@[k].enabled == enabled,
{
    switching_moves_nothing(before, after, source, name, enabled);
    let (i, k) = choose|i: int, k: int|
        {
            &&& is_first_repo(before, source, i)
            &&& #[trigger] is_first_skill(#[trigger] before[i].skills@, name, k)
            &&& after == before.update(i, after[i])
            &&& repo_with_skill(before[i], after[i], k, enabled)
        };
    assert(is_first_repo(after, source, i));
    assert forall|j: int| 0 <= j < k implies (#[trigger] after[i].skills@[j]).name@ != name by {
        assert(before[i].skills@[j].name@ != name);
    }
    assert(is_first_skill(after[i].skills@, name, k));
}

/// Switching a skill back to the flag it had undoes the switch.
pub proof fn switching_back_restores(
    before: Seq<RepoEntry>,
    middle: Seq<RepoEntry>,
    after: Seq<RepoEntry>,
    source: Seq<char>,
    name: Seq<char>,
    i: int,
    k: int,
    enabled: bool,
)
    requires
        is_first_repo(before, source, i),
        is_first_skill(before[i].skills@, name, k),
        skill_switched(before, middle, source, name, enabled),
        skill_switched(middle, after, source, name, before[i].skills@[k].enabled),
    ensures
        after.len() == before.len(),
        forall|j: int| 0 <= j < before.len() && j != i ==> #[trigger] after[j] == before[j],
        after[i].source == before[i].source,
        after[i].repo_name == before[i].repo_name,
        after[i].installed_at_ms == before[i].installed_at_ms,
        after[i].skills@ == before[i].skills@,
{
    switching_moves_nothing(before, middle, source, name, enabled);
    let (i1, k1) = choose|i: int, k: int|
        {
            &&& is_first_repo(before, source, i)
            &&& #[trigger] is_first_skill(#[trigger] before[i].skills@, name, k)
            &&& middle == before.update(i, middle[i])
            &&& repo_with_skill(before[i], middle[i], k, enabled)
        };
    first_repo_is_unique(before, source, i, i1);
    assert(k1 == k) by {
        if k1 < k {
            assert(before[i].skills@[k1].name@ != name);
        } else if k < k1 {
            assert(before[i].skills@[k].name@ != name);
        }
    }
    let flag = before[i].skills@[k].enabled;
    let (i2, k2) = choose|i: int, k: int|
        {
            &&& is_first_repo(middle, source, i)
            &&& #[trigger] is_first_skill(#[trigger] middle[i].skills@, name, k)
            &&& after == middle.update(i, after[i])
            &&& repo_with_skill(middle[i], after[i], k, flag)
        };
    assert(is_first_repo(middle, source, i));
    first_repo_is_unique(middle, source, i, i2);
    assert(k2 == k) by {
        if k2 < k {
            assert(before[i].skills@[k2].name@ != name);
            assert(middle[i].skills@[k2].name@ == before[i].skills@[k2].name@);
        } else if k < k2 {
            assert(middle[i].skills@[k].name@ != name);
            assert(middle[i].skills@[k].name@ == before[i].skills@[k].name@);
        }
    }
    assert(after[i].skills@ =~= before[i].skills@);
}

/// A repository is found by its source, and it is the first from there; none is found exactly where
/// there is none from that source.
pub proof fn the_first_repo_of_a_source_is_found(
    manifest: &SkillsManifest,
    source: &str,
    i: int,
    found: Option<&RepoEntry>,
)
    requires
        call_ensures(SkillsManifest::find_repo, (manifest, source), found),
    ensures
        0 <= i < manifest.repos@.len() && manifest.repos@[i].source@ == source@ && (forall|j: int|
            0 <= j < i ==> (#[trigger] manifest.repos@[j]).source@ != source@) ==> (
        found matches Some(entry) && *entry == manifest.repos@[i]),
        (forall|j: int|
            0 <= j < manifest.repos@.len() ==> (#[trigger] manifest.repos@[j]).source@ != source@)
            ==> found is None,
{
    if let Some(entry) = found {
        let k = choose|k: int|
            is_first_repo(manifest.repos@, source@, k) && *entry == #[trigger] manifest.repos@[k];
        if 0 <= i < manifest.repos@.len() && manifest.repos@[i].source@ == source@ && (forall|
            j: int,
        |
            0 <= j < i ==> (#[trigger] manifest.repos@[j]).source@ != source@) {
            first_repo_is_unique(manifest.repos@, source@, i, k);
        }
    }
}

/// What is changed through the found repository is changed in its place, in the first of its
/// source, and nowhere else.
pub proof fn changes_are_made_in_place(
    manifest: &mut SkillsManifest,
    source: &str,
    i: int,
    found: Option<&mut RepoEntry>,
)
    requires
        call_ensures(SkillsManifest::find_repo_mut, (manifest, source), found),
    ensures
        final(manifest).version == old(manifest).version,
        (forall|j: int|
            0 <= j < old(manifest).repos@.len() ==> (#[trigger] old(manifest).repos@[j]).source@
                != source@) ==> found is None,
        found is None ==> final(manifest).repos@ == old(manifest).repos@,
        0 <= i < old(manifest).repos@.len() && old(manifest).repos@[i].source@ == source@ && (
        forall|j: int|
            0 <= j < i ==> (#[trigger] old(manifest).repos@[j]).source@ != source@) ==> (
        found matches Some(entry) && {
            &&& *entry == old(manifest).repos@[i]
            &&& final(manifest).repos@.len() == old(manifest).repos@.len()
            &&& final(manifest).repos@[i] == *final(entry)
            &&& forall|j: int|
                0 <= j < old(manifest).repos@.len() && j != i
                    ==> #[trigger] final(manifest).repos@[j] == old(manifest).repos@[j]
        }),
{
    if 0 <= i < old(manifest).repos@.len() && old(manifest).repos@[i].source@ == source@ && (forall|
        j: int,
    |
        0 <= j < i ==> (#[trigger] old(manifest).repos@[j]).source@ != source@) {
        if let Some(entry) = found {
            let k = choose|k: int|
                is_first_repo(old(manifest).repos@, source@, k) && *entry
                    == #[trigger] old(manifest).repos@[k] && final(manifest).repos@
                    == old(manifest).repos@.update(k, *final(entry));
            first_repo_is_unique(old(manifest).repos@, source@, i, k);
        }
    }
}

/// An added repository stands behind all the others, which stay as they are.
pub proof fn added_repos_come_last(manifest: &mut SkillsManifest, entry: RepoEntry)
    requires
        call_ensures(SkillsManifest::add_repo, (manifest, entry), ()),
    ensures
        final(manifest).version == old(manifest).version,
        final(manifest).repos@.len() == old(manifest).repos@.len() + 1,
        final(manifest).repos@.last() == entry,
        forall|j: int|
            0 <= j < old(manifest).repos@.len() ==> #[trigger] final(manifest).repos@[j]
                == old(manifest).repos@[j],
{
}

/// Removing a source leaves exactly the repositories from elsewhere, each as often as before and in
/// the order they stood in.
pub proof fn removing_leaves_what_is_from_elsewhere(
    manifest: &mut SkillsManifest,
    source: &str,
    other: Seq<char>,
)
    requires
        call_ensures(SkillsManifest::remove_repo, (manifest, source), ()),
    ensures
        final(manifest).version == old(manifest).version,
        forall|j: int|
            0 <= j < final(manifest).repos@.len() ==> (
            #[trigger] final(manifest).repos@[j]).source@ != source@,
        final(manifest).repos@ == old(manifest).repos@.filter(
            |entry: RepoEntry| entry.source@ != source@,
        ),
        other != source@ ==> final(manifest).repos@.filter(
            |entry: RepoEntry| entry.source@ == other,
        ) == old(manifest).repos@.filter(|entry: RepoEntry| entry.source@ == other),
        (forall|j: int|
            0 <= j < old(manifest).repos@.len() ==> (#[trigger] old(manifest).repos@[j]).source@
                != source@) ==> final(manifest).repos@ == old(manifest).repos@,
{
    removed_source_is_gone(old(manifest).repos@, source@);
    assert(from_elsewhere(source@) =~= (|entry: RepoEntry| entry.source@ != source@));
    if other != source@ {
        removing_keeps_other_sources(old(manifest).repos@, source@, other);
    }
    if no_repo(old(manifest).repos@, source@) {
        removing_an_absent_source_changes_nothing(old(manifest).repos@, source@);
    }
}

/// Switching a skill changes the flag of the first skill of that name in the first repository from
/// that source, to what was asked for, and nothing else in the manifest.
pub proof fn switching_changes_one_flag(
    manifest: &mut SkillsManifest,
    source: &str,
    skill_name: &str,
    enabled: bool,
    i: int,
    k: int,
    found: bool,
)
    requires
        call_ensures(
            SkillsManifest::set_skill_enabled,
            (manifest, source, skill_name, enabled),
            found,
        ),
        0 <= i < old(manifest).repos@.len(),
        old(manifest).repos@[i].source@ == source@,
        forall|j: int| 0 <= j < i ==> (#[trigger] old(manifest).repos@[j]).source@ != source@,
        0 <= k < old(manifest).repos@[i].skills@.len(),
        old(manifest).repos@[i].skills@[k].name@ == skill_name@,
        forall|j: int|
            0 <= j < k ==> (#[trigger] old(manifest).repos@[i].skills@[j]).name@ != skill_name@,
    ensures
        found,
        final(manifest).version == old(manifest).version,
        final(manifest).repos@.len() == old(manifest).repos@.len(),
        forall|j: int|
            0 <= j < old(manifest).repos@.len() && j != i ==> #[trigger] final(manifest).repos@[j]
                == old(manifest).repos@[j],
        ({
            let before = old(manifest).repos@[i];
            let after = final(manifest).repos@[i];
            &&& after.source@ == before.source@
            &&& after.repo_name@ == before.repo_name@
            &&& after.installed_at_ms == before.installed_at_ms
            &&& after.skills@.len() == before.skills@.len()
            &&& forall|j: int|
                0 <= j < before.skills@.len() && j != k ==> #[trigger] after.skills@[j]
                    == before.skills@[j]
            &&& after.skills@[k].name@ == before.skills@[k].name@
            &&& after.skills@[k].relative_path@ == before.skills@[k].relative_path@
            &&& after.skills@[k].enabled == enabled
        }),
{
    let before = old(manifest).repos@;
    let after = final(manifest).repos@;
    assert(is_first_repo(before, source@, i));
    assert(is_first_skill(before[i].skills@, skill_name@, k));
    assert(has_skill(before, source@, skill_name@));
    let (i1, k1) = choose|i1: int, k1: int|
        {
            &&& is_first_repo(before, source@, i1)
            &&& #[trigger] is_first_skill(#[trigger] before[i1].skills@, skill_name@, k1)
            &&& after == before.update(i1, after[i1])
            &&& repo_with_skill(before[i1], after[i1], k1, enabled)
        };
    first_repo_is_unique(before, source@, i, i1);
    if k1 < k {
        assert(before[i].skills@[k1].name@ != skill_name@);
    } else if k < k1 {
        assert(before[i].skills@[k].name@ != skill_name@);
    }
}

/// Where no repository is from the source, or the first one from there has no skill of the name,
/// nothing is switched.
pub proof fn absent_skills_are_not_switched(
    manifest: &mut SkillsManifest,
    source: &str,
    skill_name: &str,
    enabled: bool,
    i: int,
    found: bool,
)
    requires
        call_ensures(
            SkillsManifest::set_skill_enabled,
            (manifest, source, skill_name, enabled),
            found,
        ),
        0 <= i <= old(manifest).repos@.len(),
        forall|j: int| 0 <= j < i ==> (#[trigger] old(manifest).repos@[j]).source@ != source@,
        i < old(manifest).repos@.len() ==> {
            &&& old(manifest).repos@[i].source@ == source@
            &&& forall|j: int|
                0 <= j < old(manifest).repos@[i].skills@.len() ==> (
                #[trigger] old(manifest).repos@[i].skills@[j]).name@ != skill_name@
        },
    ensures
        !found,
        final(manifest).version == old(manifest).version,
        final(manifest).repos@ == old(manifest).repos@,
{
    let before = old(manifest).repos@;
    if found {
        let (i1, k1) = choose|i1: int, k1: int|
            is_first_repo(before, source@, i1) && #[trigger] is_first_skill(
                #[trigger] before[i1].skills@,
                skill_name@,
                k1,
            );
        if i < before.len() {
            assert(is_first_repo(before, source@, i));
            first_repo_is_unique(before, source@, i, i1);
            assert(before[i].skills@[k1].name@ != skill_name@);
        } else {
            assert(before[i1].source@ != source@);
        }
    }
}

} // verus!
