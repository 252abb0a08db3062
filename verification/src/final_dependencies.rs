//! Resolved predefined dependencies.

use crate::raw_dependencies::{
    build_file_name, GitRepoConfig, RawPredefinedTarget, RawSubdirectoryDependency,
    UserGivenPredefinedDependencyConfig,
};
use crate::sequences::{
    collect, lemma_collect_error_stays, lemma_collect_push, renders, value_under,
};
use crate::text::{copy_text, maybe_text, str_equal, strings_of};
use crate::validators::{is_valid_target_name, name_accepted};
use vstd::prelude::*;
use vstd::string::*;

verus! {

/// The names of one target of a dependency.
#[derive(Clone, Debug, PartialEq, Eq)]
pub struct FinalTargetConfig {
    /// The name of the target in the dependency's own build files.
    pub cmakelists_name: String,
    /// The name that configuration authors write.
    pub cmake_yaml_name: String,
}

/// The mathematical form of a `FinalTargetConfig`.
pub ghost struct TargetConfigModel {
    pub cmakelists_name: Seq<char>,
    pub cmake_yaml_name: Seq<char>,
}

impl View for FinalTargetConfig {
    type V = TargetConfigModel;

    open spec fn view(&self) -> TargetConfigModel {
        TargetConfigModel {
            cmakelists_name: self.cmakelists_name@,
            cmake_yaml_name: self.cmake_yaml_name@,
        }
    }
}

/// The targets of a dependency, each under the name that configuration
/// authors write, in the order in which they were defined.
pub type FinalTargetConfigMap = Vec<(String, FinalTargetConfig)>;

/// The mathematical form of a `FinalTargetConfigMap`.
pub type TargetConfigs = Seq<(Seq<char>, TargetConfigModel)>;

/// The entries of a target map, each seen through its view.
pub open spec fn target_configs_of(map: Seq<(String, FinalTargetConfig)>) -> TargetConfigs {
    map.map_values(|entry: (String, FinalTargetConfig)| (entry.0@, entry.1@))
}

/// The message for a target whose name is not a valid target name.
pub open spec fn invalid_target_name_message(dep_name: Seq<char>, name: Seq<char>) -> Seq<char> {
    "\""@ + name + "\" is not a valid target name for dependency \""@ + dep_name + "\"."@
}

/// The message for a target that is defined twice.
pub open spec fn duplicate_target_message(dep_name: Seq<char>, name: Seq<char>) -> Seq<char> {
    "Target \""@ + name + "\" is defined more than once for dependency \""@ + dep_name + "\"."@
}

/// Whether one of the first `count` targets is called `name`.
pub open spec fn defined_before(
    targets: Seq<RawPredefinedTarget>,
    count: int,
    name: Seq<char>,
) -> bool {
    exists|j: int| 0 <= j < count && j < targets.len() && (#[trigger] targets[j]).name@ == name
}

/// What the target at index `i` comes to: its names, unless its name is no
/// valid target name or an earlier target has the same name.
pub open spec fn target_entry(
    dep_name: Seq<char>,
    targets: Seq<RawPredefinedTarget>,
    i: int,
) -> Result<(Seq<char>, TargetConfigModel), Seq<char>> {
    let target = targets[i];
    if !name_accepted(target.name@) {
        Err(invalid_target_name_message(dep_name, target.name@))
    } else if defined_before(targets, i, target.name@) {
        Err(duplicate_target_message(dep_name, target.name@))
    } else {
        Ok(
            (
                target.name@,
                TargetConfigModel {
                    cmakelists_name: build_file_name(target),
                    cmake_yaml_name: target.name@,
                },
            ),
        )
    }
}

/// What the target definitions of a dependency come to: an entry for each,
/// in order, or the message for the first that is refused.
pub open spec fn target_config_map(dep_name: Seq<char>, targets: Seq<RawPredefinedTarget>) -> Result<
    TargetConfigs,
    Seq<char>,
> {
    collect(Seq::new(targets.len(), |i: int| target_entry(dep_name, targets, i)))
}

/// Whether one of the first `count` targets is called `name`.
fn is_defined_before(targets: &Vec<RawPredefinedTarget>, count: usize, name: &str) -> (r: bool)
    requires
        count <= targets@.len(),
    ensures
        r == defined_before(targets@, count as int, name@),
{
    let mut j: usize = 0;
    while j < count
        invariant
            j <= count <= targets@.len(),
            forall|k: int| 0 <= k < j ==> (#[trigger] targets@[k]).name@ != name@,
        decreases count - j,
    {
        if str_equal(targets[j].name.as_str(), name) {
            return true;
        }
        j += 1;
    }
    false
}

/// Renders a message of three fixed parts around two names.
fn message_around(first: &str, name: &str, second: &str, dep_name: &str, third: &str) -> (r: String)
    ensures
        r@ == first@ + name@ + second@ + dep_name@ + third@,
{
    let mut message = String::from_str(first);
    message.append(name);
    message.append(second);
    message.append(dep_name);
    message.append(third);
    message
}

/// Builds the target map of the dependency `dep_name` from its target definitions.
pub fn make_final_target_config_map(dep_name: &str, subdir_dep: &RawSubdirectoryDependency) -> (r:
    Result<FinalTargetConfigMap, String>)
    ensures
        match target_config_map(dep_name@, subdir_dep.targets@) {
            Ok(map) => r matches Ok(given) && target_configs_of(given@) == map,
            Err(message) => r matches Err(given) && given@ == message,
        },
{
    let targets = &subdir_dep.targets;
    let ghost results = Seq::new(
        targets@.len(),
        |i: int| target_entry(dep_name@, targets@, i),
    );
    let mut map: FinalTargetConfigMap = Vec::new();
    let mut i: usize = 0;
    assert(results.take(0) =~= Seq::empty());
    assert(target_configs_of(map@) =~= Seq::empty());
    while i < targets.len()
        invariant
            i <= targets@.len(),
            targets@ == subdir_dep.targets@,
            results == Seq::new(targets@.len(), |i: int| target_entry(dep_name@, targets@, i)),
            collect(results.take(i as int)) == Ok::<TargetConfigs, Seq<char>>(
                target_configs_of(map@),
            ),
        decreases targets@.len() - i,
    {
        proof {
            lemma_collect_push(results, i as int);
            assert(results[i as int] == target_entry(dep_name@, targets@, i as int));
        }
        let target = &targets[i];
        if !is_valid_target_name(target.name.as_str()) {
            proof {
                lemma_collect_error_stays(results, i + 1);
            }
            return Err(
                message_around(
                    "\"",
                    target.name.as_str(),
                    "\" is not a valid target name for dependency \"",
                    dep_name,
                    "\".",
                ),
            );
        }
        if is_defined_before(targets, i, target.name.as_str()) {
            proof {
                lemma_collect_error_stays(results, i + 1);
            }
            return Err(
                message_around(
                    "Target \"",
                    target.name.as_str(),
                    "\" is defined more than once for dependency \"",
                    dep_name,
                    "\".",
                ),
            );
        }
        let cmakelists_name = match &target.actual_target_name {
            Some(actual) => actual.clone(),
            None => target.name.clone(),
        };
        let ghost before = target_configs_of(map@);
        let entry = (
            target.name.clone(),
            FinalTargetConfig { cmakelists_name, cmake_yaml_name: target.name.clone() },
        );
        let ghost model = (entry.0@, entry.1@);
        map.push(entry);
        assert(target_configs_of(map@) =~= before.push(model));
        i += 1;
    }
    assert(results.take(i as int) =~= results);
    Ok(map)
}

/// Pages that describe a dependency.
#[derive(Clone, Debug, PartialEq, Eq)]
pub struct FinalSubdirDepLinks {
    github: Option<String>,
}

impl FinalSubdirDepLinks {
    /// The page of the dependency on GitHub, seen as a text.
    pub closed spec fn github(&self) -> Option<Seq<char>> {
        match self.github {
            Some(page) => Some(page@),
            None => None,
        }
    }

    /// No pages.
    pub fn new_empty() -> (r: Self)
        ensures
            r.github() is None,
    {
        Self { github: None }
    }

    /// The page of the dependency on GitHub.
    pub fn get_github(&self) -> (r: &Option<String>)
        ensures
            match *r {
                Some(page) => self.github() == Some(page@),
                None => self.github() is None,
            },
    {
        &self.github
    }
}

/// The revision of a repository that is checked out.
#[derive(Clone, Debug, PartialEq, Eq)]
pub enum GitRevisionSpecifier {
    Tag(String),
    CommitHash(String),
}

/// The mathematical form of a `GitRevisionSpecifier`.
pub ghost enum RevisionModel {
    Tag(Seq<char>),
    CommitHash(Seq<char>),
}

impl View for GitRevisionSpecifier {
    type V = RevisionModel;

    open spec fn view(&self) -> RevisionModel {
        match self {
            Self::Tag(tag) => RevisionModel::Tag(tag@),
            Self::CommitHash(hash) => RevisionModel::CommitHash(hash@),
        }
    }
}

/// The version of a dependency that is found on the system.
#[derive(Clone, Debug)]
pub enum DependencyVersion {
    MinRequired(String),
    Exact(String),
}

/// Where the source of a dependency comes from.
#[derive(Clone, Debug, PartialEq, Eq)]
pub struct FinalGitRepoDescriptor {
    pub repo_url: String,
    pub revision_specifier: GitRevisionSpecifier,
}

/// The variable that switches the installation of a dependency, whether
/// setting it switches the installation off rather than on, and whether the
/// dependency is installed where nothing is said.
#[derive(Clone, Debug, PartialEq, Eq)]
pub struct SubdirDepInstallationConfig {
    pub var_name: String,
    pub is_inverse: bool,
    pub should_install_by_default: bool,
}

/// The mathematical form of a `SubdirDepInstallationConfig`.
pub ghost struct InstallationModel {
    pub var_name: Seq<char>,
    pub is_inverse: bool,
    pub should_install_by_default: bool,
}

impl View for SubdirDepInstallationConfig {
    type V = InstallationModel;

    open spec fn view(&self) -> InstallationModel {
        InstallationModel {
            var_name: self.var_name@,
            is_inverse: self.is_inverse,
            should_install_by_default: self.should_install_by_default,
        }
    }
}

/// The view of an installation toggle that may be absent.
pub open spec fn maybe_installation(
    details: Option<SubdirDepInstallationConfig>,
) -> Option<InstallationModel> {
    match details {
        Some(given) => Some(given@),
        None => None,
    }
}

/// The mathematical form of a `PredefinedSubdirDep`.
pub ghost struct SubdirDepModel {
    pub repo_url: Seq<char>,
    pub revision: RevisionModel,
    pub installed_include_dir_name: Option<Seq<char>>,
    pub config_file_project_name: Option<Seq<char>>,
    pub target_map: TargetConfigs,
    pub cmake_names: Seq<(Seq<char>, Seq<char>)>,
    pub yaml_names: Seq<(Seq<char>, Seq<char>)>,
    pub requires_custom_populate: bool,
    pub installation: Option<InstallationModel>,
    pub github: Option<Seq<char>>,
    pub can_cross_compile: bool,
}

/// The revision that is checked out: what the user asks for, a tag before a
/// commit hash, or else the default of the definition, a tag before a commit hash.
pub open spec fn resolved_revision(
    user: UserGivenPredefinedDependencyConfig,
    defaults: GitRepoConfig,
) -> Option<RevisionModel> {
    if user.git_tag is Some {
        Some(RevisionModel::Tag(user.git_tag->0@))
    } else if user.commit_hash is Some {
        Some(RevisionModel::CommitHash(user.commit_hash->0@))
    } else if defaults.git_tag is Some {
        Some(RevisionModel::Tag(defaults.git_tag->0@))
    } else if defaults.commit_hash is Some {
        Some(RevisionModel::CommitHash(defaults.commit_hash->0@))
    } else {
        None
    }
}

/// The address that is cloned: the one that the user asks for, or else the
/// one of the definition.
pub open spec fn resolved_repo_url(
    user: UserGivenPredefinedDependencyConfig,
    defaults: GitRepoConfig,
) -> Seq<char> {
    match user.repo_url {
        Some(url) => url@,
        None => defaults.repo_url@,
    }
}

/// The installation toggle of a dependency. A variable that switches the
/// installation on comes before one that switches it off; a dependency with
/// neither has no toggle. It is installed by default unless the definition
/// says otherwise.
pub open spec fn installation_of(raw: RawSubdirectoryDependency) -> Option<InstallationModel> {
    let should_install_by_default = match raw.install_by_default {
        Some(install) => install,
        None => true,
    };
    match (raw.install_var, raw.inverse_install_var) {
        (Some(var), _) => Some(
            InstallationModel { var_name: var@, is_inverse: false, should_install_by_default },
        ),
        (None, Some(var)) => Some(
            InstallationModel { var_name: var@, is_inverse: true, should_install_by_default },
        ),
        (None, None) => None,
    }
}

/// For each target, the name under which a build file links it: the
/// linking prefix of the namespace and the target's name in the
/// dependency's build files.
pub open spec fn cmake_names_of(prefix: Seq<char>, map: TargetConfigs) -> Seq<
    (Seq<char>, Seq<char>),
> {
    map.map_values(
        |entry: (Seq<char>, TargetConfigModel)| (entry.0, prefix + entry.1.cmakelists_name),
    )
}

/// For each target, the name under which configuration authors link it:
/// the dependency's name, `::` and the target's name.
pub open spec fn yaml_names_of(dep_name: Seq<char>, map: TargetConfigs) -> Seq<
    (Seq<char>, Seq<char>),
> {
    map.map_values(
        |entry: (Seq<char>, TargetConfigModel)|
            (entry.0, dep_name + "::"@ + entry.1.cmake_yaml_name),
    )
}

/// The message for a dependency for which no revision is given.
pub open spec fn missing_revision_message(dep_name: Seq<char>) -> Seq<char> {
    "Must specify either a commit_hash or git_tag for dependency '"@ + dep_name + "'"@
}

/// The message for a dependency whose targets are refused with `message`.
pub open spec fn loading_failed_message(dep_name: Seq<char>, message: Seq<char>) -> Seq<char> {
    "When loading predefined subdirectory dependency \""@ + dep_name + "\":\n\n"@ + message
}

/// What the definition `raw` of the dependency `dep_name` comes to for a
/// user who asks for `user`.
pub open spec fn resolved_subdir_dep(
    raw: RawSubdirectoryDependency,
    user: UserGivenPredefinedDependencyConfig,
    dep_name: Seq<char>,
) -> Result<SubdirDepModel, Seq<char>> {
    match resolved_revision(user, raw.git_repo) {
        None => Err(missing_revision_message(dep_name)),
        Some(revision) => match target_config_map(dep_name, raw.targets@) {
            Err(message) => Err(loading_failed_message(dep_name, message)),
            Ok(target_map) => Ok(
                SubdirDepModel {
                    repo_url: resolved_repo_url(user, raw.git_repo),
                    revision,
                    installed_include_dir_name: maybe_text(raw.installed_include_dir_name),
                    config_file_project_name: maybe_text(raw.config_file_project_name),
                    target_map,
                    cmake_names: cmake_names_of(
                        raw.namespace_config.cmakelists_linking@,
                        target_map,
                    ),
                    yaml_names: yaml_names_of(dep_name, target_map),
                    requires_custom_populate: raw.requires_custom_fetchcontent_populate,
                    installation: installation_of(raw),
                    github: match raw.links {
                        Some(links) => maybe_text(links.github),
                        None => None,
                    },
                    can_cross_compile: raw.can_cross_compile,
                },
            ),
        },
    }
}

/// A dependency for which no revision is given anywhere is refused.
pub proof fn dependency_without_revision_is_refused(
    raw: RawSubdirectoryDependency,
    user: UserGivenPredefinedDependencyConfig,
    dep_name: Seq<char>,
)
    requires
        user.git_tag is None,
        user.commit_hash is None,
        raw.git_repo.git_tag is None,
        raw.git_repo.commit_hash is None,
    ensures
        resolved_subdir_dep(raw, user, dep_name) == Err::<SubdirDepModel, Seq<char>>(
            missing_revision_message(dep_name),
        ),
{
}

/// A dependency for which a tag or a commit hash is given, by the user or
/// by the definition, is accepted where its targets are.
pub proof fn dependency_with_revision_is_accepted(
    raw: RawSubdirectoryDependency,
    user: UserGivenPredefinedDependencyConfig,
    dep_name: Seq<char>,
)
    requires
        user.git_tag is Some || user.commit_hash is Some || raw.git_repo.git_tag is Some
            || raw.git_repo.commit_hash is Some,
        target_config_map(dep_name, raw.targets@) is Ok,
    ensures
        resolved_subdir_dep(raw, user, dep_name) is Ok,
{
}

/// What the user asks for comes before the defaults of the definition: the
/// user's tag before everything, the user's commit hash before the
/// definition's tag and commit hash, and the user's address before the
/// definition's.
pub proof fn user_override_takes_precedence(
    raw: RawSubdirectoryDependency,
    user: UserGivenPredefinedDependencyConfig,
    dep_name: Seq<char>,
)
    requires
        resolved_subdir_dep(raw, user, dep_name) is Ok,
    ensures
        user.git_tag matches Some(tag) ==> resolved_subdir_dep(raw, user, dep_name)->Ok_0.revision
            == RevisionModel::Tag(tag@),
        user.git_tag is None ==> (user.commit_hash matches Some(hash) ==> resolved_subdir_dep(
            raw,
            user,
            dep_name,
        )->Ok_0.revision == RevisionModel::CommitHash(hash@)),
        user.repo_url matches Some(url) ==> resolved_subdir_dep(raw, user, dep_name)->Ok_0.repo_url
            == url@,
{
}

/// A predefined dependency that is cloned into the tree and built with it.
#[derive(Clone, Debug)]
pub struct PredefinedSubdirDep {
    git_repo: FinalGitRepoDescriptor,
    installed_include_dir_name: Option<String>,
    config_file_project_name: Option<String>,
    target_map: FinalTargetConfigMap,
    cmake_namespaced_target_map: Vec<(String, String)>,
    yaml_namespaced_target_map: Vec<(String, String)>,
    requires_custom_populate: bool,
    installation_details: Option<SubdirDepInstallationConfig>,
    url_links: FinalSubdirDepLinks,
    can_cross_compile: bool,
}

/// The entries of a list of names, each seen through its view.
pub open spec fn names_under(map: Seq<(String, String)>) -> Seq<(Seq<char>, Seq<char>)> {
    map.map_values(|entry: (String, String)| (entry.0@, entry.1@))
}

impl View for PredefinedSubdirDep {
    type V = SubdirDepModel;

    closed spec fn view(&self) -> SubdirDepModel {
        SubdirDepModel {
            repo_url: self.git_repo.repo_url@,
            revision: self.git_repo.revision_specifier@,
            installed_include_dir_name: maybe_text(self.installed_include_dir_name),
            config_file_project_name: maybe_text(self.config_file_project_name),
            target_map: target_configs_of(self.target_map@),
            cmake_names: names_under(self.cmake_namespaced_target_map@),
            yaml_names: names_under(self.yaml_namespaced_target_map@),
            requires_custom_populate: self.requires_custom_populate,
            installation: maybe_installation(self.installation_details),
            github: self.url_links.github(),
            can_cross_compile: self.can_cross_compile,
        }
    }
}

/// The first entry of `entries` that stands under `key`.
fn find_name<'a>(entries: &'a Vec<(String, String)>, key: &str) -> (r: Option<&'a str>)
    ensures
        match value_under(names_under(entries@), key@) {
            Some(name) => r matches Some(found) && found@ == name,
            None => r is None,
        },
{
    let ghost all = names_under(entries@);
    let mut i: usize = 0;
    assert(all.skip(0) =~= all);
    while i < entries.len()
        invariant
            i <= entries@.len(),
            all == names_under(entries@),
            value_under(all, key@) == value_under(all.skip(i as int), key@),
        decreases entries@.len() - i,
    {
        assert(all.skip(i as int)[0] == all[i as int]);
        if str_equal(entries[i].0.as_str(), key) {
            return Some(entries[i].1.as_str());
        }
        assert(all.skip(i as int).drop_first() =~= all.skip(i + 1));
        i += 1;
    }
    None
}

impl PredefinedSubdirDep {
    /// The targets of the dependency.
    pub fn get_target_config_map(&self) -> (r: &FinalTargetConfigMap)
        ensures
            target_configs_of(r@) == self@.target_map,
    {
        &self.target_map
    }

    /// The installation toggle of the dependency, if it has one.
    pub fn get_installation_details(&self) -> (r: &Option<SubdirDepInstallationConfig>)
        ensures
            maybe_installation(*r) == self@.installation,
    {
        &self.installation_details
    }

    /// The directory into which the dependency installs its headers, where
    /// that is not the usual one.
    pub fn custom_relative_include_dir_name(&self) -> (r: &Option<String>)
        ensures
            maybe_text(*r) == self@.installed_include_dir_name,
    {
        &self.installed_include_dir_name
    }

    /// The project name under which the dependency installs its
    /// configuration file, where that is not its own name.
    pub fn different_config_file_project_name(&self) -> (r: &Option<String>)
        ensures
            maybe_text(*r) == self@.config_file_project_name,
    {
        &self.config_file_project_name
    }

    /// Whether the source of the dependency is fetched by steps of its own.
    pub fn requires_custom_fetchcontent_populate(&self) -> (r: bool)
        ensures
            r == self@.requires_custom_populate,
    {
        self.requires_custom_populate
    }

    /// The name under which a build file links the target `target_name`.
    pub fn get_cmake_linkable_target_name(&self, target_name: &str) -> (r: Option<&str>)
        ensures
            match value_under(self@.cmake_names, target_name@) {
                Some(name) => r matches Some(found) && found@ == name,
                None => r is None,
            },
    {
        find_name(&self.cmake_namespaced_target_map, target_name)
    }

    /// The name under which configuration authors link the target `target_name`.
    pub fn get_yaml_linkable_target_name(&self, target_name: &str) -> (r: Option<&str>)
        ensures
            match value_under(self@.yaml_names, target_name@) {
                Some(name) => r matches Some(found) && found@ == name,
                None => r is None,
            },
    {
        find_name(&self.yaml_namespaced_target_map, target_name)
    }

    /// Whether the dependency has a target that configuration authors call `target_name`.
    pub fn has_target_named(&self, target_name: &str) -> (r: bool)
        ensures
            r == value_under(self@.target_map, target_name@) is Some,
    {
        let ghost all = target_configs_of(self.target_map@);
        let mut i: usize = 0;
        assert(all.skip(0) =~= all);
        while i < self.target_map.len()
            invariant
                i <= self.target_map@.len(),
                all == target_configs_of(self.target_map@),
                value_under(all, target_name@) == value_under(all.skip(i as int), target_name@),
            decreases self.target_map@.len() - i,
        {
            assert(all.skip(i as int)[0] == all[i as int]);
            if str_equal(self.target_map[i].0.as_str(), target_name) {
                return true;
            }
            assert(all.skip(i as int).drop_first() =~= all.skip(i + 1));
            i += 1;
        }
        false
    }

    /// The address from which the dependency is cloned.
    pub fn repo_url(&self) -> (r: &str)
        ensures
            r@ == self@.repo_url,
    {
        self.git_repo.repo_url.as_str()
    }

    /// Pages that describe the dependency.
    pub fn get_url_links(&self) -> (r: &FinalSubdirDepLinks)
        ensures
            r.github() == self@.github,
    {
        &self.url_links
    }

    /// The revision that is checked out.
    pub fn revision(&self) -> (r: &GitRevisionSpecifier)
        ensures
            r@ == self@.revision,
    {
        &self.git_repo.revision_specifier
    }

    /// Whether the dependency can be built for another system than the one that builds it.
    pub fn can_cross_compile(&self) -> (r: bool)
        ensures
            r == self@.can_cross_compile,
    {
        self.can_cross_compile
    }

    /// The names that configuration authors give to the targets, in the
    /// order in which the targets were defined.
    pub fn target_name_set(&self) -> (r: Vec<String>)
        ensures
            strings_of(r@) == self@.target_map.map_values(
                |entry: (Seq<char>, TargetConfigModel)| entry.0,
            ),
    {
        let ghost all = target_configs_of(self.target_map@);
        let ghost wanted = all.map_values(|entry: (Seq<char>, TargetConfigModel)| entry.0);
        let mut names: Vec<String> = Vec::new();
        let mut i: usize = 0;
        assert(strings_of(names@) =~= wanted.take(0));
        while i < self.target_map.len()
            invariant
                i <= self.target_map@.len(),
                all == target_configs_of(self.target_map@),
                wanted == all.map_values(|entry: (Seq<char>, TargetConfigModel)| entry.0),
                strings_of(names@) == wanted.take(i as int),
            decreases self.target_map@.len() - i,
        {
            let ghost before = strings_of(names@);
            names.push(self.target_map[i].0.clone());
            assert(strings_of(names@) =~= before.push(all[i as int].0));
            assert(wanted.take(i + 1) =~= wanted.take(i as int).push(wanted[i as int]));
            i += 1;
        }
        assert(wanted.take(i as int) =~= wanted);
        names
    }

    /// Resolves the definition `subdir_dep` of the dependency `dep_name` for
    /// a user who asks for `user_given_config`.
    pub fn from_subdir_dep(
        subdir_dep: &RawSubdirectoryDependency,
        user_given_config: &UserGivenPredefinedDependencyConfig,
        dep_name: &str,
    ) -> (r: Result<Self, String>)
        ensures
            renders(r, resolved_subdir_dep(*subdir_dep, *user_given_config, dep_name@)),
    {
        let revision_specifier: GitRevisionSpecifier = if let Some(tag) =
            &user_given_config.git_tag {
            GitRevisionSpecifier::Tag(tag.clone())
        } else if let Some(hash) = &user_given_config.commit_hash {
            GitRevisionSpecifier::CommitHash(hash.clone())
        } else if let Some(tag) = &subdir_dep.git_repo.git_tag {
            GitRevisionSpecifier::Tag(tag.clone())
        } else if let Some(hash) = &subdir_dep.git_repo.commit_hash {
            GitRevisionSpecifier::CommitHash(hash.clone())
        } else {
            let mut message = String::from_str(
                "Must specify either a commit_hash or git_tag for dependency '",
            );
            message.append(dep_name);
            message.append("'");
            return Err(message);
        };
        let target_map = match make_final_target_config_map(dep_name, subdir_dep) {
            Ok(map) => map,
            Err(reason) => {
                let mut message = String::from_str(
                    "When loading predefined subdirectory dependency \"",
                );
                message.append(dep_name);
                message.append("\":\n\n");
                message.append(reason.as_str());
                return Err(message);
            },
        };
        let ghost targets = target_configs_of(target_map@);
        let ghost prefix = subdir_dep.namespace_config.cmakelists_linking@;
        let mut cmake_namespaced_target_map: Vec<(String, String)> = Vec::new();
        let mut yaml_namespaced_target_map: Vec<(String, String)> = Vec::new();
        let mut i: usize = 0;
        assert(names_under(cmake_namespaced_target_map@) =~= cmake_names_of(prefix, targets).take(
            0,
        ));
        assert(names_under(yaml_namespaced_target_map@) =~= yaml_names_of(dep_name@, targets).take(
            0,
        ));
        while i < target_map.len()
            invariant
                i <= target_map@.len(),
                targets == target_configs_of(target_map@),
                prefix == subdir_dep.namespace_config.cmakelists_linking@,
                names_under(cmake_namespaced_target_map@) == cmake_names_of(prefix, targets).take(
                    i as int,
                ),
                names_under(yaml_namespaced_target_map@) == yaml_names_of(dep_name@, targets).take(
                    i as int,
                ),
            decreases target_map@.len() - i,
        {
            let ghost cmake_before = names_under(cmake_namespaced_target_map@);
            let ghost yaml_before = names_under(yaml_namespaced_target_map@);
            let mut cmake_name = subdir_dep.namespace_config.cmakelists_linking.clone();
            cmake_name.append(target_map[i].1.cmakelists_name.as_str());
            let mut yaml_name = String::from_str(dep_name);
            yaml_name.append("::");
            yaml_name.append(target_map[i].1.cmake_yaml_name.as_str());
            cmake_namespaced_target_map.push((target_map[i].0.clone(), cmake_name));
            yaml_namespaced_target_map.push((target_map[i].0.clone(), yaml_name));
            proof {
                let cmake_all = cmake_names_of(prefix, targets);
                let yaml_all = yaml_names_of(dep_name@, targets);
                assert(names_under(cmake_namespaced_target_map@) =~= cmake_before.push(
                    cmake_all[i as int],
                ));
                assert(names_under(yaml_namespaced_target_map@) =~= yaml_before.push(
                    yaml_all[i as int],
                ));
                assert(cmake_all.take(i + 1) =~= cmake_all.take(i as int).push(
                    cmake_all[i as int],
                ));
                assert(yaml_all.take(i + 1) =~= yaml_all.take(i as int).push(yaml_all[i as int]));
            }
            i += 1;
        }
        proof {
            assert(cmake_names_of(prefix, targets).take(i as int) =~= cmake_names_of(
                prefix,
                targets,
            ));
            assert(yaml_names_of(dep_name@, targets).take(i as int) =~= yaml_names_of(
                dep_name@,
                targets,
            ));
        }
        let should_install_by_default: bool = match subdir_dep.install_by_default {
            Some(install) => install,
            None => true,
        };
        let installation_details: Option<SubdirDepInstallationConfig> = match (
            &subdir_dep.install_var,
            &subdir_dep.inverse_install_var,
        ) {
            (Some(install_var), _) => Some(
                SubdirDepInstallationConfig {
                    var_name: install_var.clone(),
                    is_inverse: false,
                    should_install_by_default,
                },
            ),
            (None, Some(inverse_install_var)) => Some(
                SubdirDepInstallationConfig {
                    var_name: inverse_install_var.clone(),
                    is_inverse: true,
                    should_install_by_default,
                },
            ),
            (None, None) => None,
        };
        let url_links: FinalSubdirDepLinks = match &subdir_dep.links {
            None => FinalSubdirDepLinks::new_empty(),
            Some(raw_links) => FinalSubdirDepLinks { github: copy_text(&raw_links.github) },
        };
        let repo_url = match &user_given_config.repo_url {
            Some(url) => url.clone(),
            None => subdir_dep.git_repo.repo_url.clone(),
        };
        Ok(
            Self {
                url_links,
                git_repo: FinalGitRepoDescriptor { revision_specifier, repo_url },
                installed_include_dir_name: copy_text(&subdir_dep.installed_include_dir_name),
                config_file_project_name: copy_text(&subdir_dep.config_file_project_name),
                target_map,
                cmake_namespaced_target_map,
                yaml_namespaced_target_map,
                requires_custom_populate: subdir_dep.requires_custom_fetchcontent_populate,
                installation_details,
                can_cross_compile: subdir_dep.can_trivially_cross_compile(),
            },
        )
    }
}

/// A predefined dependency that the system provides: it is found where it
/// is installed, and nothing is cloned for it.
#[derive(Clone, Debug)]
pub struct SystemProvidedDep {
    pub package_name: String,
    pub target_names: Vec<String>,
}

/// How a predefined dependency is obtained.
#[derive(Clone, Debug)]
pub enum FinalPredepInfo {
    Subdirectory(PredefinedSubdirDep),
    SystemProvided(SystemProvidedDep),
}

/// A resolved predefined dependency, under its name.
#[derive(Clone, Debug)]
pub struct FinalPredefinedDependencyConfig {
    name: String,
    predep_info: FinalPredepInfo,
}

impl FinalPredefinedDependencyConfig {
    /// The name, seen as a text.
    pub closed spec fn name(&self) -> Seq<char> {
        self.name@
    }

    /// How the dependency is obtained, for contracts.
    pub closed spec fn info(&self) -> FinalPredepInfo {
        self.predep_info
    }

    /// A dependency under the name `name`.
    pub fn new(name: String, predep_info: FinalPredepInfo) -> (r: Self)
        ensures
            r.name() == name@,
            r.info() == predep_info,
    {
        Self { name, predep_info }
    }

    /// The name of the dependency.
    pub fn get_name(&self) -> (r: &str)
        ensures
            r@ == self.name(),
    {
        self.name.as_str()
    }

    /// How the dependency is obtained.
    pub fn predefined_dep_info(&self) -> (r: &FinalPredepInfo)
        ensures
            *r == self.info(),
    {
        &self.predep_info
    }
}

} // verus!
