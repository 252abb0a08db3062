//! The definitions of predefined dependencies, as they were written.

use crate::text::str_equal;
use vstd::prelude::*;
use vstd::string::*;

verus! {

/// The prefixes that make a target name of a dependency into the name that
/// configuration authors write, and into the name that a build file links.
#[derive(Clone, Debug)]
pub struct NamespaceConfig {
    pub used_in_cmake_yaml: String,
    pub cmakelists_linking: String,
}

/// Where the source of a dependency is cloned from, and the revision that
/// is taken where the user asks for none.
#[derive(Clone, Debug)]
pub struct GitRepoConfig {
    pub repo_url: String,
    pub git_tag: Option<String>,
    pub commit_hash: Option<String>,
}

/// One target of a dependency: the name that configuration authors write,
/// and the name of the target in the dependency's own build files where
/// that is another one.
#[derive(Clone, Debug)]
pub struct RawPredefinedTarget {
    pub name: String,
    pub actual_target_name: Option<String>,
}

/// Pages that describe a dependency.
#[derive(Clone, Debug)]
pub struct RawSubdirDepLinks {
    pub github: Option<String>,
}

/// A predefined dependency that is cloned into the tree and built with it.
#[derive(Clone, Debug)]
pub struct RawSubdirectoryDependency {
    pub namespace_config: NamespaceConfig,
    pub git_repo: GitRepoConfig,
    pub targets: Vec<RawPredefinedTarget>,
    pub links: Option<RawSubdirDepLinks>,
    pub installed_include_dir_name: Option<String>,
    pub config_file_project_name: Option<String>,
    pub requires_custom_fetchcontent_populate: bool,
    pub install_by_default: Option<bool>,
    pub install_var: Option<String>,
    pub inverse_install_var: Option<String>,
    pub can_cross_compile: bool,
}

/// The name of a target in the dependency's own build files.
pub open spec fn build_file_name(target: RawPredefinedTarget) -> Seq<char> {
    match target.actual_target_name {
        Some(actual) => actual@,
        None => target.name@,
    }
}

/// The first of `targets` that configuration authors call `name`.
pub open spec fn target_called(targets: Seq<RawPredefinedTarget>, name: Seq<char>) -> Option<
    RawPredefinedTarget,
>
    decreases targets.len(),
{
    if targets.len() == 0 {
        None
    } else if targets[0].name@ == name {
        Some(targets[0])
    } else {
        target_called(targets.drop_first(), name)
    }
}

impl RawSubdirectoryDependency {
    /// The name under which a build file links the target that
    /// configuration authors call `target_name`, if the dependency has it.
    pub fn namespaced_target(&self, target_name: &str) -> (r: Option<String>)
        ensures
            match target_called(self.targets@, target_name@) {
                Some(target) => r matches Some(name) && name@
                    == self.namespace_config.cmakelists_linking@ + build_file_name(target),
                None => r is None,
            },
    {
        let mut i: usize = 0;
        assert(self.targets@.skip(0) =~= self.targets@);
        while i < self.targets.len()
            invariant
                i <= self.targets@.len(),
                target_called(self.targets@, target_name@) == target_called(
                    self.targets@.skip(i as int),
                    target_name@,
                ),
            decreases self.targets@.len() - i,
        {
            assert(self.targets@.skip(i as int)[0] == self.targets@[i as int]);
            if str_equal(self.targets[i].name.as_str(), target_name) {
                let mut name = self.namespace_config.cmakelists_linking.clone();
                match &self.targets[i].actual_target_name {
                    Some(actual) => name.append(actual.as_str()),
                    None => name.append(self.targets[i].name.as_str()),
                }
                return Some(name);
            }
            assert(self.targets@.skip(i as int).drop_first() =~= self.targets@.skip(i + 1));
            i += 1;
        }
        None
    }

    /// Whether the dependency can be built for another system than the one
    /// that builds it, with no further configuration.
    pub fn can_trivially_cross_compile(&self) -> (r: bool)
        ensures
            r == self.can_cross_compile,
    {
        self.can_cross_compile
    }
}

/// What the user of a dependency asks for in place of its defaults.
#[derive(Clone, Debug)]
pub struct UserGivenPredefinedDependencyConfig {
    pub git_tag: Option<String>,
    pub commit_hash: Option<String>,
    pub repo_url: Option<String>,
}

/// The definition of one predefined dependency.
#[derive(Clone, Debug)]
pub struct SinglePredefinedDependencyInfo {
    pub as_subdirectory: RawSubdirectoryDependency,
}

/// A definition found under a name.
#[derive(Debug)]
pub enum RawDep<'a> {
    AsSubdirectory(&'a RawSubdirectoryDependency),
}

/// The definitions of all predefined dependencies, each under its name.
#[derive(Debug)]
pub struct AllPredefinedDependencies {
    as_subdirectory: Vec<(String, RawSubdirectoryDependency)>,
}

impl View for AllPredefinedDependencies {
    type V = Map<Seq<char>, RawSubdirectoryDependency>;

    closed spec fn view(&self) -> Map<Seq<char>, RawSubdirectoryDependency> {
        Map::new(
            |name: Seq<char>| self.holds(name),
            |name: Seq<char>| self.as_subdirectory@[self.index_of(name)].1,
        )
    }
}

impl AllPredefinedDependencies {
    /// Whether `at` is the place of the first definition that stands under `name`.
    closed spec fn is_place_of(&self, name: Seq<char>, at: int) -> bool {
        &&& 0 <= at < self.as_subdirectory@.len()
        &&& self.as_subdirectory@[at].0@ == name
        &&& forall|j: int| 0 <= j < at ==> self.as_subdirectory@[j].0@ != name
    }

    /// Whether a definition stands under `name`.
    closed spec fn holds(&self, name: Seq<char>) -> bool {
        exists|at: int| self.is_place_of(name, at)
    }

    /// The place of the first definition that stands under `name`.
    closed spec fn index_of(&self, name: Seq<char>) -> int {
        choose|at: int| self.is_place_of(name, at)
    }

    /// No definitions.
    pub fn new() -> (r: AllPredefinedDependencies)
        ensures
            r@ == Map::<Seq<char>, RawSubdirectoryDependency>::empty(),
    {
        let r = AllPredefinedDependencies { as_subdirectory: Vec::new() };
        assert(r@ =~= Map::<Seq<char>, RawSubdirectoryDependency>::empty());
        r
    }

    /// The place of the first definition that stands under `dep_name`.
    fn position_of(&self, dep_name: &str) -> (r: Option<usize>)
        ensures
            match r {
                Some(at) => self.is_place_of(dep_name@, at as int) && self.index_of(dep_name@)
                    == at,
                None => !self.holds(dep_name@) && forall|j: int|
                    0 <= j < self.as_subdirectory@.len() ==> self.as_subdirectory@[j].0@
                        != dep_name@,
            },
    {
        let mut i: usize = 0;
        while i < self.as_subdirectory.len()
            invariant
                i <= self.as_subdirectory@.len(),
                forall|j: int| 0 <= j < i ==> self.as_subdirectory@[j].0@ != dep_name@,
            decreases self.as_subdirectory@.len() - i,
        {
            if str_equal(self.as_subdirectory[i].0.as_str(), dep_name) {
                proof {
                    self.lemma_place_is_unique(dep_name@, i as int);
                }
                return Some(i);
            }
            i += 1;
        }
        None
    }

    /// A name has one first place at most.
    proof fn lemma_place_is_unique(&self, name: Seq<char>, at: int)
        requires
            self.is_place_of(name, at),
        ensures
            self.holds(name),
            self.index_of(name) == at,
    {
        let chosen = self.index_of(name);
        assert(self.is_place_of(name, chosen));
        if chosen < at {
            assert(self.as_subdirectory@[chosen].0@ != name);
        } else if at < chosen {
            assert(self.as_subdirectory@[at].0@ != name);
        }
    }

    /// Puts a definition under `dep_name`, in place of the one that stood there.
    pub fn add(&mut self, dep_name: String, dep_info: SinglePredefinedDependencyInfo)
        ensures
            final(self)@ == old(self)@.insert(dep_name@, dep_info.as_subdirectory),
    {
        let ghost before = *self;
        let ghost name = dep_name@;
        let ghost wanted = before@.insert(name, dep_info.as_subdirectory);
        match self.position_of(dep_name.as_str()) {
            Some(i) => {
                self.as_subdirectory.set(i, (dep_name, dep_info.as_subdirectory));
                proof {
                    assert forall|key: Seq<char>, at: int|
                        self.is_place_of(key, at) <==> before.is_place_of(key, at) by {
                        if self.is_place_of(key, at) {
                            assert(before.as_subdirectory@[at].0@ == key);
                            assert forall|j: int| 0 <= j < at implies before.as_subdirectory@[j].0@
                                != key by {
                                assert(self.as_subdirectory@[j].0@ != key);
                            }
                        }
                        if before.is_place_of(key, at) {
                            assert(self.as_subdirectory@[at].0@ == key);
                            assert forall|j: int| 0 <= j < at implies self.as_subdirectory@[j].0@
                                != key by {
                                assert(before.as_subdirectory@[j].0@ != key);
                            }
                        }
                    }
                    assert forall|key: Seq<char>|
                        self.holds(key) == before.holds(key) && (before.holds(key)
                            ==> self.index_of(key) == before.index_of(key)) by {
                        if before.holds(key) {
                            let at = before.index_of(key);
                            assert(before.is_place_of(key, at));
                            assert(self.is_place_of(key, at));
                            self.lemma_place_is_unique(key, at);
                        }
                        if self.holds(key) {
                            let at = self.index_of(key);
                            assert(self.is_place_of(key, at));
                            assert(before.is_place_of(key, at));
                        }
                    }
                    assert forall|key: Seq<char>| #[trigger] wanted.contains_key(key) implies self@[key]
                        == wanted[key] by {
                        if key != name {
                            let at = before.index_of(key);
                            assert(before.is_place_of(key, at));
                            assert(at != i);
                        }
                    }
                    assert(self@ =~= wanted);
                }
            },
            None => {
                self.as_subdirectory.push((dep_name, dep_info.as_subdirectory));
                proof {
                    let last = before.as_subdirectory@.len() as int;
                    assert(self.is_place_of(name, last));
                    self.lemma_place_is_unique(name, last);
                    assert forall|key: Seq<char>| key != name implies (self.holds(key)
                        == before.holds(key) && (before.holds(key) ==> self.index_of(key)
                        == before.index_of(key))) by {
                        if before.holds(key) {
                            let at = before.index_of(key);
                            assert(before.is_place_of(key, at));
                            assert(self.as_subdirectory@[at] == before.as_subdirectory@[at]);
                            assert forall|j: int| 0 <= j < at implies self.as_subdirectory@[j].0@
                                != key by {
                                assert(self.as_subdirectory@[j] == before.as_subdirectory@[j]);
                            }
                            assert(self.is_place_of(key, at));
                            self.lemma_place_is_unique(key, at);
                        }
                        if self.holds(key) {
                            let at = self.index_of(key);
                            assert(self.is_place_of(key, at));
                            assert(at < last);
                            assert(self.as_subdirectory@[at] == before.as_subdirectory@[at]);
                            assert forall|j: int| 0 <= j < at implies before.as_subdirectory@[j].0@
                                != key by {
                                assert(self.as_subdirectory@[j] == before.as_subdirectory@[j]);
                            }
                            assert(before.is_place_of(key, at));
                        }
                    }
                    assert forall|key: Seq<char>| #[trigger] wanted.contains_key(key) implies self@[key]
                        == wanted[key] by {
                        if key != name {
                            let at = before.index_of(key);
                            assert(before.is_place_of(key, at));
                        }
                    }
                    assert(self@ =~= wanted);
                }
            },
        }
    }

    /// The definition that stands under `dep_name`.
    pub fn find_dependency(&self, dep_name: &str) -> (r: Option<RawDep<'_>>)
        ensures
            match r {
                Some(RawDep::AsSubdirectory(definition)) => self@.contains_key(dep_name@)
                    && self@[dep_name@] == *definition,
                None => !self@.contains_key(dep_name@),
            },
    {
        match self.position_of(dep_name) {
            Some(i) => Some(RawDep::AsSubdirectory(&self.as_subdirectory[i].1)),
            None => None,
        }
    }
}

} // verus!
