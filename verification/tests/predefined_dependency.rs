use gcmake::final_dependencies::{
    make_final_target_config_map, FinalPredefinedDependencyConfig, FinalPredepInfo,
    FinalSubdirDepLinks, GitRevisionSpecifier, PredefinedSubdirDep, SubdirDepInstallationConfig,
};
use gcmake::final_project_configurables::FinalTestFramework;
use gcmake::raw_dependencies::{
    AllPredefinedDependencies, GitRepoConfig, NamespaceConfig, RawDep, RawPredefinedTarget,
    RawSubdirDepLinks, RawSubdirectoryDependency, SinglePredefinedDependencyInfo,
    UserGivenPredefinedDependencyConfig,
};
use std::rc::Rc;

fn target(name: &str, actual: Option<&str>) -> RawPredefinedTarget {
    RawPredefinedTarget {
        name: name.to_string(),
        actual_target_name: actual.map(|given| given.to_string()),
    }
}

fn raw_dep() -> RawSubdirectoryDependency {
    RawSubdirectoryDependency {
        namespace_config: NamespaceConfig {
            used_in_cmake_yaml: "foo".to_string(),
            cmakelists_linking: "Foo::".to_string(),
        },
        git_repo: GitRepoConfig {
            repo_url: "https://example.com/foo.git".to_string(),
            git_tag: None,
            commit_hash: None,
        },
        targets: vec![target("core", None), target("net", Some("foo_network"))],
        links: None,
        installed_include_dir_name: None,
        config_file_project_name: None,
        requires_custom_fetchcontent_populate: false,
        install_by_default: None,
        install_var: None,
        inverse_install_var: None,
        can_cross_compile: false,
    }
}

fn user(tag: Option<&str>, hash: Option<&str>, url: Option<&str>) -> UserGivenPredefinedDependencyConfig {
    UserGivenPredefinedDependencyConfig {
        git_tag: tag.map(|given| given.to_string()),
        commit_hash: hash.map(|given| given.to_string()),
        repo_url: url.map(|given| given.to_string()),
    }
}

#[test]
fn dependency_without_revision_fails() {
    let r = PredefinedSubdirDep::from_subdir_dep(&raw_dep(), &user(None, None, None), "foo");
    assert_eq!(
        r.unwrap_err(),
        "Must specify either a commit_hash or git_tag for dependency 'foo'"
    );
    let r = PredefinedSubdirDep::from_subdir_dep(
        &raw_dep(),
        &user(None, None, Some("https://other")),
        "foo",
    );
    assert!(r.is_err());
}

#[test]
fn dependency_with_exactly_one_revision_succeeds() {
    let dep =
        PredefinedSubdirDep::from_subdir_dep(&raw_dep(), &user(Some("v1.2"), None, None), "foo")
            .unwrap();
    assert_eq!(dep.revision(), &GitRevisionSpecifier::Tag("v1.2".to_string()));
    assert_eq!(dep.repo_url(), "https://example.com/foo.git");
    let dep =
        PredefinedSubdirDep::from_subdir_dep(&raw_dep(), &user(None, Some("abc123"), None), "foo")
            .unwrap();
    assert_eq!(dep.revision(), &GitRevisionSpecifier::CommitHash("abc123".to_string()));
    let mut raw = raw_dep();
    raw.git_repo.git_tag = Some("v0.9".to_string());
    let dep = PredefinedSubdirDep::from_subdir_dep(&raw, &user(None, None, None), "foo").unwrap();
    assert_eq!(dep.revision(), &GitRevisionSpecifier::Tag("v0.9".to_string()));
    let mut raw = raw_dep();
    raw.git_repo.commit_hash = Some("fff".to_string());
    let dep = PredefinedSubdirDep::from_subdir_dep(&raw, &user(None, None, None), "foo").unwrap();
    assert_eq!(dep.revision(), &GitRevisionSpecifier::CommitHash("fff".to_string()));
}

#[test]
fn user_override_takes_precedence_over_raw_default() {
    let mut raw = raw_dep();
    raw.git_repo.git_tag = Some("v0.9".to_string());
    raw.git_repo.commit_hash = Some("fff".to_string());
    let dep =
        PredefinedSubdirDep::from_subdir_dep(&raw, &user(Some("v2"), None, None), "foo").unwrap();
    assert_eq!(dep.revision(), &GitRevisionSpecifier::Tag("v2".to_string()));
    let dep =
        PredefinedSubdirDep::from_subdir_dep(&raw, &user(None, Some("abc"), None), "foo").unwrap();
    assert_eq!(dep.revision(), &GitRevisionSpecifier::CommitHash("abc".to_string()));
    let dep = PredefinedSubdirDep::from_subdir_dep(&raw, &user(Some("v2"), Some("abc"), None), "foo")
        .unwrap();
    assert_eq!(dep.revision(), &GitRevisionSpecifier::Tag("v2".to_string()));
    let dep = PredefinedSubdirDep::from_subdir_dep(
        &raw,
        &user(None, None, Some("https://mirror/foo.git")),
        "foo",
    )
    .unwrap();
    assert_eq!(dep.revision(), &GitRevisionSpecifier::Tag("v0.9".to_string()));
    assert_eq!(dep.repo_url(), "https://mirror/foo.git");
}

#[test]
fn install_variable_gives_a_plain_toggle_that_is_on_by_default() {
    let mut raw = raw_dep();
    raw.install_var = Some("INSTALL_FOO".to_string());
    let dep = PredefinedSubdirDep::from_subdir_dep(&raw, &user(Some("v1"), None, None), "foo")
        .unwrap();
    assert_eq!(
        dep.get_installation_details(),
        &Some(SubdirDepInstallationConfig {
            var_name: "INSTALL_FOO".to_string(),
            is_inverse: false,
            should_install_by_default: true,
        })
    );
}

#[test]
fn installation_toggle_variants() {
    let tag = user(Some("v1"), None, None);
    let dep = PredefinedSubdirDep::from_subdir_dep(&raw_dep(), &tag, "foo").unwrap();
    assert_eq!(dep.get_installation_details(), &None);
    let mut raw = raw_dep();
    raw.inverse_install_var = Some("FOO_SKIP_INSTALL".to_string());
    raw.install_by_default = Some(false);
    let dep = PredefinedSubdirDep::from_subdir_dep(&raw, &tag, "foo").unwrap();
    assert_eq!(
        dep.get_installation_details(),
        &Some(SubdirDepInstallationConfig {
            var_name: "FOO_SKIP_INSTALL".to_string(),
            is_inverse: true,
            should_install_by_default: false,
        })
    );
    raw.install_var = Some("FOO_INSTALL".to_string());
    let dep = PredefinedSubdirDep::from_subdir_dep(&raw, &tag, "foo").unwrap();
    let details = dep.get_installation_details().clone().unwrap();
    assert_eq!(details.var_name, "FOO_INSTALL");
    assert!(!details.is_inverse);
    assert!(!details.should_install_by_default);
}

#[test]
fn both_namespaced_names_are_built() {
    let dep =
        PredefinedSubdirDep::from_subdir_dep(&raw_dep(), &user(Some("v1"), None, None), "foo-dep")
            .unwrap();
    assert_eq!(dep.get_cmake_linkable_target_name("core"), Some("Foo::core"));
    assert_eq!(dep.get_cmake_linkable_target_name("net"), Some("Foo::foo_network"));
    assert_eq!(dep.get_cmake_linkable_target_name("foo_network"), None);
    assert_eq!(dep.get_yaml_linkable_target_name("core"), Some("foo-dep::core"));
    assert_eq!(dep.get_yaml_linkable_target_name("net"), Some("foo-dep::net"));
    assert_eq!(dep.get_yaml_linkable_target_name("gui"), None);
    assert!(dep.has_target_named("core"));
    assert!(dep.has_target_named("net"));
    assert!(!dep.has_target_named("foo_network"));
    assert_eq!(dep.target_name_set(), vec!["core".to_string(), "net".to_string()]);
    let map = dep.get_target_config_map();
    assert_eq!(map.len(), 2);
    assert_eq!(map[1].0, "net");
    assert_eq!(map[1].1.cmakelists_name, "foo_network");
    assert_eq!(map[1].1.cmake_yaml_name, "net");
}

#[test]
fn other_fields_are_carried_over() {
    let mut raw = raw_dep();
    raw.links = Some(RawSubdirDepLinks { github: Some("https://github.com/x/foo".to_string()) });
    raw.installed_include_dir_name = Some("foo-2".to_string());
    raw.config_file_project_name = Some("Foo2".to_string());
    raw.requires_custom_fetchcontent_populate = true;
    raw.can_cross_compile = true;
    let dep =
        PredefinedSubdirDep::from_subdir_dep(&raw, &user(Some("v1"), None, None), "foo").unwrap();
    assert_eq!(dep.get_url_links().get_github(), &Some("https://github.com/x/foo".to_string()));
    assert_eq!(dep.custom_relative_include_dir_name(), &Some("foo-2".to_string()));
    assert_eq!(dep.different_config_file_project_name(), &Some("Foo2".to_string()));
    assert!(dep.requires_custom_fetchcontent_populate());
    assert!(dep.can_cross_compile());
    let dep = PredefinedSubdirDep::from_subdir_dep(&raw_dep(), &user(Some("v1"), None, None), "foo")
        .unwrap();
    assert_eq!(dep.get_url_links().get_github(), &None);
    assert_eq!(FinalSubdirDepLinks::new_empty().get_github(), &None);
    assert!(!dep.requires_custom_fetchcontent_populate());
    assert!(!dep.can_cross_compile());
}

#[test]
fn target_map_failure_is_wrapped_with_the_dependency_name() {
    let mut raw = raw_dep();
    raw.targets.push(target("bad name", None));
    let r = PredefinedSubdirDep::from_subdir_dep(&raw, &user(Some("v1"), None, None), "foo");
    assert_eq!(
        r.unwrap_err(),
        "When loading predefined subdirectory dependency \"foo\":\n\n\"bad name\" is not a valid target name for dependency \"foo\"."
    );
    let mut raw = raw_dep();
    raw.targets.push(target("core", Some("other")));
    let r = make_final_target_config_map("foo", &raw);
    assert_eq!(
        r.unwrap_err(),
        "Target \"core\" is defined more than once for dependency \"foo\"."
    );
    let mut raw = raw_dep();
    raw.targets.push(target("", None));
    raw.targets.push(target("core", None));
    let r = make_final_target_config_map("foo", &raw);
    assert_eq!(r.unwrap_err(), "\"\" is not a valid target name for dependency \"foo\".");
    let mut raw = raw_dep();
    raw.targets.clear();
    assert!(make_final_target_config_map("foo", &raw).unwrap().is_empty());
}

#[test]
fn missing_revision_is_reported_before_bad_targets() {
    let mut raw = raw_dep();
    raw.targets.push(target("bad name", None));
    let r = PredefinedSubdirDep::from_subdir_dep(&raw, &user(None, None, None), "foo");
    assert_eq!(
        r.unwrap_err(),
        "Must specify either a commit_hash or git_tag for dependency 'foo'"
    );
}

#[test]
fn raw_dependency_names_its_targets() {
    let raw = raw_dep();
    assert_eq!(raw.namespaced_target("core"), Some("Foo::core".to_string()));
    assert_eq!(raw.namespaced_target("net"), Some("Foo::foo_network".to_string()));
    assert_eq!(raw.namespaced_target("foo_network"), None);
    assert_eq!(raw.namespaced_target(""), None);
    assert!(!raw.can_trivially_cross_compile());
}

#[test]
fn definitions_are_found_by_name() {
    let mut all = AllPredefinedDependencies::new();
    assert!(all.find_dependency("foo").is_none());
    all.add("foo".to_string(), SinglePredefinedDependencyInfo { as_subdirectory: raw_dep() });
    let mut second = raw_dep();
    second.git_repo.repo_url = "https://example.com/bar.git".to_string();
    all.add("bar".to_string(), SinglePredefinedDependencyInfo { as_subdirectory: second });
    match all.find_dependency("foo") {
        Some(RawDep::AsSubdirectory(found)) => {
            assert_eq!(found.git_repo.repo_url, "https://example.com/foo.git")
        }
        None => panic!("foo was added"),
    }
    match all.find_dependency("bar") {
        Some(RawDep::AsSubdirectory(found)) => {
            assert_eq!(found.git_repo.repo_url, "https://example.com/bar.git")
        }
        None => panic!("bar was added"),
    }
    assert!(all.find_dependency("baz").is_none());
    let mut replaced = raw_dep();
    replaced.git_repo.repo_url = "https://example.com/foo-2.git".to_string();
    all.add("foo".to_string(), SinglePredefinedDependencyInfo { as_subdirectory: replaced });
    match all.find_dependency("foo") {
        Some(RawDep::AsSubdirectory(found)) => {
            assert_eq!(found.git_repo.repo_url, "https://example.com/foo-2.git")
        }
        None => panic!("foo was added"),
    }
    assert!(all.find_dependency("bar").is_some());
}

#[test]
fn test_frameworks_name_their_dependency_and_targets() {
    let dep =
        PredefinedSubdirDep::from_subdir_dep(&raw_dep(), &user(Some("v1"), None, None), "catch2")
            .unwrap();
    let config = Rc::new(FinalPredefinedDependencyConfig::new(
        "catch2".to_string(),
        FinalPredepInfo::Subdirectory(dep),
    ));
    let frameworks = [
        (FinalTestFramework::Catch2(Rc::clone(&config)), "catch2"),
        (FinalTestFramework::GoogleTest(Rc::clone(&config)), "googletest"),
        (FinalTestFramework::DocTest(Rc::clone(&config)), "doctest"),
    ];
    for (framework, name) in &frameworks {
        assert_eq!(framework.project_dependency_name(), *name);
        assert_eq!(framework.main_provided_link_target_name(), "with_main");
        assert_eq!(framework.main_not_provided_link_target_name(), "without_main");
        let shared = framework.unwrap_config();
        assert!(Rc::ptr_eq(&shared, &config));
        assert_eq!(shared.get_name(), "catch2");
        assert!(matches!(shared.predefined_dep_info(), FinalPredepInfo::Subdirectory(_)));
    }
}
