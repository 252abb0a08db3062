use gcmake::dependency_graph::{
    extract_repo_url, DependencyGraph, GCMakeDependencyRoot, NormalProject, ProjectWrapper,
    ResolvedTarget,
};
use gcmake::final_dependencies::{
    FinalPredefinedDependencyConfig, FinalPredepInfo, PredefinedSubdirDep, SystemProvidedDep,
};
use gcmake::parsers::link_specifier::{LinkAccessMode, LinkSpecifier};
use gcmake::raw_dependencies::{
    GitRepoConfig, NamespaceConfig, RawPredefinedTarget, RawSubdirectoryDependency,
    UserGivenPredefinedDependencyConfig,
};

fn strings(items: &[&str]) -> Vec<String> {
    items.iter().map(|item| item.to_string()).collect()
}

fn project(prefix: &str) -> ProjectWrapper {
    ProjectWrapper::NormalProject(NormalProject::new(prefix.to_string()))
}

fn cloned_dependency(name: &str, targets: &[&str]) -> ProjectWrapper {
    let raw = RawSubdirectoryDependency {
        namespace_config: NamespaceConfig {
            used_in_cmake_yaml: name.to_string(),
            cmakelists_linking: format!("{}::", name),
        },
        git_repo: GitRepoConfig {
            repo_url: format!("https://example.com/{}.git", name),
            git_tag: Some("v1".to_string()),
            commit_hash: None,
        },
        targets: targets
            .iter()
            .map(|target| RawPredefinedTarget {
                name: target.to_string(),
                actual_target_name: None,
            })
            .collect(),
        links: None,
        installed_include_dir_name: None,
        config_file_project_name: None,
        requires_custom_fetchcontent_populate: false,
        install_by_default: None,
        install_var: None,
        inverse_install_var: None,
        can_cross_compile: false,
    };
    let user =
        UserGivenPredefinedDependencyConfig { git_tag: None, commit_hash: None, repo_url: None };
    let dep = PredefinedSubdirDep::from_subdir_dep(&raw, &user, name).unwrap();
    ProjectWrapper::PredefinedDependency(FinalPredefinedDependencyConfig::new(
        name.to_string(),
        FinalPredepInfo::Subdirectory(dep),
    ))
}

fn system_dependency(name: &str, targets: &[&str]) -> ProjectWrapper {
    ProjectWrapper::PredefinedDependency(FinalPredefinedDependencyConfig::new(
        name.to_string(),
        FinalPredepInfo::SystemProvided(SystemProvidedDep {
            package_name: name.to_string(),
            target_names: strings(targets),
        }),
    ))
}

/// 0 app (app, app-lib)
/// 1   core (core-lib)             subproject of 0
/// 2   fmt, cloned (fmt, header)   dependency of 0
/// 3   OpenGL, from the system (GL) dependency of 0
/// 4   engine, a project tree (engine-lib) dependency of 0
/// 5     render (render-lib)       subproject of 4
/// 6   util (util-lib, app-lib)    subproject of 1
fn sample() -> DependencyGraph {
    let mut graph =
        DependencyGraph::new_root("app".to_string(), project("app"), strings(&["app", "app-lib"]))
            .unwrap();
    assert_eq!(graph.add_node(0, "core".to_string(), project("app/core"), strings(&["core-lib"])), Ok(1));
    assert_eq!(graph.add_node(0, "fmt".to_string(), cloned_dependency("fmt", &["fmt", "header"]), vec![]), Ok(2));
    assert_eq!(graph.add_node(0, "OpenGL".to_string(), system_dependency("OpenGL", &["GL"]), vec![]), Ok(3));
    let engine = ProjectWrapper::GCMakeDependencyRoot(GCMakeDependencyRoot::new(
        "https://example.com/engine.git".to_string(),
    ));
    assert_eq!(graph.add_node(0, "engine".to_string(), engine, strings(&["engine-lib"])), Ok(4));
    assert_eq!(graph.add_node(4, "render".to_string(), project("engine/render"), strings(&["render-lib"])), Ok(5));
    assert_eq!(graph.add_node(1, "util".to_string(), project("app/core/util"), strings(&["util-lib", "app-lib"])), Ok(6));
    graph
}

fn resolved(graph: &DependencyGraph, from: usize, text: &str) -> Result<Option<Vec<(usize, String)>>, String> {
    let link = LinkSpecifier::parse_from(text, LinkAccessMode::UserFacing, None).unwrap();
    graph.resolve_link(from, &link).map(|found| {
        found.map(|targets| {
            targets.into_iter().map(|target: ResolvedTarget| (target.node, target.target_name)).collect()
        })
    })
}

#[test]
fn nodes_know_their_names_parents_and_roots() {
    let graph = sample();
    assert_eq!(graph.node_count(), 7);
    assert_eq!(graph.project_debug_name(0), "app");
    assert_eq!(graph.project_debug_name(5), "render");
    assert_eq!(graph.parent_project(0), None);
    assert_eq!(graph.parent_project(6), Some(1));
    assert_eq!(graph.parent_project(5), Some(4));
    let roots: Vec<usize> = (0..7).map(|node| graph.root_project(node)).collect();
    assert_eq!(roots, vec![0, 0, 2, 3, 4, 4, 0]);
    assert_eq!(graph.get_targets(6), &strings(&["util-lib", "app-lib"]));
    assert!(matches!(graph.project_wrapper(3), ProjectWrapper::PredefinedDependency(_)));
}

#[test]
fn subprojects_are_found_by_name() {
    let graph = sample();
    assert_eq!(graph.get_subprojects(0), vec![1]);
    assert_eq!(graph.get_subprojects(1), vec![6]);
    assert_eq!(graph.get_subprojects(4), vec![5]);
    assert!(graph.get_subprojects(6).is_empty());
    assert!(graph.get_subprojects(40).is_empty());
    assert_eq!(graph.find_subproject(0, "core"), Some(1));
    assert_eq!(graph.find_subproject(0, "util"), None);
    assert_eq!(graph.find_subproject(0, "fmt"), None);
    assert_eq!(graph.find_subproject(1, "util"), Some(6));
    assert_eq!(graph.find_dependency(0, "fmt"), Some(2));
    assert_eq!(graph.find_dependency(0, "engine"), Some(4));
    assert_eq!(graph.find_dependency(0, "core"), None);
    assert_eq!(graph.find_dependency(1, "fmt"), None);
}

#[test]
fn include_prefix_belongs_to_normal_projects() {
    let graph = sample();
    assert_eq!(
        graph.project_wrapper(6).maybe_normal_project().map(|p| p.get_full_include_prefix()),
        Some("app/core/util")
    );
    assert!(graph.project_wrapper(2).maybe_normal_project().is_none());
    assert!(graph.project_wrapper(4).maybe_normal_project().is_none());
}

#[test]
fn nodes_are_refused() {
    let mut graph = sample();
    assert_eq!(
        graph.add_node(0, "core".to_string(), project("x"), vec![]),
        Err("A project or dependency named \"core\" already exists here.".to_string())
    );
    assert_eq!(
        graph.add_node(0, "fmt".to_string(), project("x"), vec![]),
        Err("A project or dependency named \"fmt\" already exists here.".to_string())
    );
    assert_eq!(
        graph.add_node(7, "late".to_string(), project("x"), vec![]),
        Err("The parent of \"late\" is not part of the project tree.".to_string())
    );
    assert_eq!(
        graph.add_node(0, "tools".to_string(), project("x"), strings(&["fine", "my target!", "a b"])),
        Err("\"my target!\" is not a valid target name in project \"tools\".".to_string())
    );
    assert_eq!(graph.node_count(), 7);
    assert_eq!(graph.add_node(1, "core".to_string(), project("x"), strings(&["my-target_1"])), Ok(7));
    assert_eq!(
        DependencyGraph::new_root("r".to_string(), project("r"), strings(&["ok", ""])).unwrap_err(),
        "\"\" is not a valid target name in project \"r\"."
    );
}

#[test]
fn repo_url_depends_on_the_kind_of_node() {
    let graph = sample();
    assert_eq!(extract_repo_url(&graph, 2), Ok("https://example.com/fmt.git".to_string()));
    assert_eq!(
        extract_repo_url(&graph, 3),
        Err("Repository information is not available for \"OpenGL\" because it is retrieved from the system, not cloned as part of the build.".to_string())
    );
    assert_eq!(extract_repo_url(&graph, 4), Ok("https://example.com/engine.git".to_string()));
    assert_eq!(extract_repo_url(&graph, 5), Ok("https://example.com/engine.git".to_string()));
    assert_eq!(extract_repo_url(&graph, 0), Err("No repo URL".to_string()));
    assert_eq!(extract_repo_url(&graph, 6), Err("No repo URL".to_string()));
}

#[test]
fn normal_project_under_vendored_root_has_the_url_of_the_root() {
    let root = ProjectWrapper::GCMakeDependencyRoot(GCMakeDependencyRoot::new(
        "https://example.com/vendored.git".to_string(),
    ));
    let mut graph = DependencyGraph::new_root("vendored".to_string(), root, vec![]).unwrap();
    let sub = graph.add_node(0, "part".to_string(), project("vendored/part"), vec![]).unwrap();
    let deeper = graph.add_node(sub, "deep".to_string(), project("vendored/part/deep"), vec![]).unwrap();
    assert_eq!(extract_repo_url(&graph, sub), Ok("https://example.com/vendored.git".to_string()));
    assert_eq!(extract_repo_url(&graph, deeper), Ok("https://example.com/vendored.git".to_string()));
}

#[test]
fn bare_names_are_resolved_in_the_tree_alone() {
    let graph = sample();
    assert_eq!(resolved(&graph, 6, "core-lib"), Ok(Some(vec![(1, "core-lib".to_string())])));
    assert_eq!(resolved(&graph, 0, "app-lib"), Ok(Some(vec![(0, "app-lib".to_string())])));
    assert_eq!(resolved(&graph, 1, "util-lib"), Ok(Some(vec![(6, "util-lib".to_string())])));
    assert_eq!(resolved(&graph, 0, "fmt"), Ok(None));
    assert_eq!(resolved(&graph, 0, "engine-lib"), Ok(None));
    assert_eq!(resolved(&graph, 0, "render-lib"), Ok(None));
    assert_eq!(resolved(&graph, 5, "engine-lib"), Ok(Some(vec![(4, "engine-lib".to_string())])));
    assert_eq!(resolved(&graph, 5, "core-lib"), Ok(None));
    assert_eq!(resolved(&graph, 0, "nothing"), Ok(None));
}

#[test]
fn namespaces_are_resolved() {
    let graph = sample();
    assert_eq!(resolved(&graph, 6, "self::core-lib"), Ok(Some(vec![(1, "core-lib".to_string())])));
    assert_eq!(resolved(&graph, 6, "app::util-lib"), Ok(Some(vec![(6, "util-lib".to_string())])));
    assert_eq!(resolved(&graph, 0, "util::app-lib"), Ok(Some(vec![(6, "app-lib".to_string())])));
    assert_eq!(
        resolved(&graph, 1, "fmt::{ fmt, header }"),
        Ok(Some(vec![(2, "fmt".to_string()), (2, "header".to_string())]))
    );
    assert_eq!(resolved(&graph, 0, "OpenGL::GL"), Ok(Some(vec![(3, "GL".to_string())])));
    assert_eq!(
        resolved(&graph, 0, "engine::{render-lib, engine-lib}"),
        Ok(Some(vec![(5, "render-lib".to_string()), (4, "engine-lib".to_string())]))
    );
    assert_eq!(resolved(&graph, 5, "self::render-lib"), Ok(Some(vec![(5, "render-lib".to_string())])));
    assert_eq!(resolved(&graph, 5, "engine::engine-lib"), Ok(Some(vec![(4, "engine-lib".to_string())])));
}

#[test]
fn unknown_namespace_does_not_match_and_missing_target_is_a_hard_error() {
    let graph = sample();
    assert_eq!(resolved(&graph, 0, "boost::asio"), Ok(None));
    assert_eq!(resolved(&graph, 5, "fmt::fmt"), Ok(None));
    assert_eq!(
        resolved(&graph, 0, "fmt::{fmt, ranges, chrono}"),
        Err("\"fmt\" has no target named \"ranges\".".to_string())
    );
    assert_eq!(
        resolved(&graph, 0, "core::util-lib"),
        Err("\"core\" has no target named \"util-lib\".".to_string())
    );
    assert_eq!(
        resolved(&graph, 0, "self::GL"),
        Err("\"self\" has no target named \"GL\".".to_string())
    );
    assert_eq!(
        resolved(&graph, 0, "OpenGL::GLU"),
        Err("\"OpenGL\" has no target named \"GLU\".".to_string())
    );
}

#[test]
fn nodes_provide_targets() {
    let graph = sample();
    assert!(graph.node_provides(0, "app"));
    assert!(!graph.node_provides(0, "core-lib"));
    assert!(graph.node_provides(2, "header"));
    assert!(!graph.node_provides(2, "GL"));
    assert!(graph.node_provides(3, "GL"));
    assert!(graph.node_provides(4, "engine-lib"));
}
