use gcmake::final_project_configurables::{
    make_final_build_config_map, make_final_by_compiler_config_map,
    make_final_target_build_config, CompilerDefine, CompilerFlag, FinalBuildConfig,
    FinalGlobalProperties,
};
use gcmake::parsers::system_specifier::{
    SingleSystemSpec, SystemSpecExpressionTree, SystemSpecifierWrapper,
};
use gcmake::raw_data_in::{
    BuildConfigCompilerSpecifier, BuildType, DefaultCompiledLibType, RawBuildConfig,
    RawGlobalPropertyConfig, TargetSpecificBuildType,
};

fn strings(items: &[&str]) -> Vec<String> {
    items.iter().map(|item| item.to_string()).collect()
}

fn unix() -> SystemSpecifierWrapper {
    SystemSpecifierWrapper::Specific(SystemSpecExpressionTree::Value(SingleSystemSpec::Unix))
}

fn raw(compiler_flags: Option<&[&str]>, defines: Option<&[&str]>) -> RawBuildConfig {
    RawBuildConfig {
        compiler_flags: compiler_flags.map(strings),
        link_time_flags: None,
        linker_flags: None,
        defines: defines.map(strings),
    }
}

#[test]
fn flag_without_specifier_applies_everywhere() {
    let flag = CompilerFlag::new("-Wall", None).unwrap();
    assert_eq!(flag.flag_string, "-Wall");
    assert_eq!(flag.system_spec, SystemSpecifierWrapper::All);
    let flag = CompilerFlag::new("  -O2 ", None).unwrap();
    assert_eq!(flag.flag_string, "  -O2 ");
}

#[test]
fn flag_with_specifier_keeps_what_follows() {
    let flag = CompilerFlag::new("((unix)) -Wall -Wextra", None).unwrap();
    assert_eq!(flag.flag_string, "-Wall -Wextra");
    assert_eq!(flag.system_spec, unix());
    let define = CompilerDefine::new("((unix))IS_UNIX=1", None).unwrap();
    assert_eq!(define.def_string, "IS_UNIX=1");
    assert_eq!(define.system_spec, unix());
    let define = CompilerDefine::new("PLAIN", None).unwrap();
    assert_eq!(define.def_string, "PLAIN");
    assert_eq!(define.system_spec, SystemSpecifierWrapper::All);
}

#[test]
fn flag_with_bad_specifier_is_refused() {
    let r = CompilerFlag::new("((solaris)) -Wall", None);
    assert_eq!(
        r.unwrap_err(),
        "Unknown system name 'solaris' in the system specifier.\n\t((solaris)) -Wall\n\t  ^-- Error occurs here\n"
    );
    let valid = vec!["simd"];
    assert!(CompilerDefine::new("((feature:simd)) USE_SIMD", Some(&valid)).is_ok());
    assert!(CompilerDefine::new("((feature:gpu)) USE_GPU", Some(&valid)).is_err());
}

#[test]
fn lists_are_read_in_order_up_to_the_first_error() {
    let flags = CompilerFlag::make_list(&strings(&["-a", "((unix)) -b", "-c"]), None).unwrap();
    let texts: Vec<&str> = flags.iter().map(|flag| flag.flag_string.as_str()).collect();
    assert_eq!(texts, vec!["-a", "-b", "-c"]);
    assert_eq!(flags[1].system_spec, unix());
    let r = CompilerFlag::make_list(&strings(&["-a", "((x)) -b", "((y)) -c"]), None);
    assert!(r.unwrap_err().starts_with("Unknown system name 'x'"));
    let r = CompilerDefine::make_list(&strings(&["A", "((unix B"]), None);
    assert!(r.is_err());
    assert!(CompilerDefine::make_list(&Vec::new(), None).unwrap().is_empty());
}

#[test]
fn absent_lists_are_empty() {
    assert!(CompilerFlag::make_list_from_maybe(None, None).unwrap().is_empty());
    assert!(CompilerDefine::make_list_from_maybe(None, None).unwrap().is_empty());
    let given = strings(&["X"]);
    assert_eq!(CompilerDefine::make_list_from_maybe(Some(&given), None).unwrap().len(), 1);
    assert_eq!(CompilerFlag::make_list_from_maybe(Some(&given), None).unwrap().len(), 1);
}

#[test]
fn build_config_is_resolved() {
    let config = FinalBuildConfig::make_from(
        &RawBuildConfig {
            compiler_flags: Some(strings(&["-Wall"])),
            link_time_flags: Some(strings(&["-flto", "((unix)) -fuse-ld=gold"])),
            linker_flags: None,
            defines: Some(strings(&["((unix)) A", "B", "C"])),
        },
        None,
    )
    .unwrap();
    assert!(config.has_compiler_flags());
    assert!(config.has_link_time_flags());
    assert!(!config.has_linker_flags());
    assert!(config.has_compiler_defines());
    assert_eq!(config.compiler_flags.len(), 1);
    assert_eq!(config.link_time_flags.len(), 2);
    assert_eq!(config.defines.len(), 3);
    assert_eq!(config.defines[0].def_string, "A");
}

#[test]
fn build_config_reports_the_first_faulty_list() {
    let r = FinalBuildConfig::make_from(
        &RawBuildConfig {
            compiler_flags: Some(strings(&["-Wall"])),
            link_time_flags: Some(strings(&["((one)) x"])),
            linker_flags: Some(strings(&["((two)) y"])),
            defines: Some(strings(&["((three)) z"])),
        },
        None,
    );
    assert!(r.unwrap_err().starts_with("Unknown system name 'one'"));
}

#[test]
fn by_compiler_map_keeps_entries_in_order() {
    let map = make_final_by_compiler_config_map(
        &vec![
            (BuildConfigCompilerSpecifier::GCC, raw(Some(&["-g"]), None)),
            (BuildConfigCompilerSpecifier::AllCompilers, raw(None, Some(&["D"]))),
        ],
        None,
    )
    .unwrap();
    assert_eq!(map.len(), 2);
    assert_eq!(map[0].0, BuildConfigCompilerSpecifier::GCC);
    assert_eq!(map[0].1.compiler_flags[0].flag_string, "-g");
    assert_eq!(map[1].0, BuildConfigCompilerSpecifier::AllCompilers);
    assert!(!map[1].1.has_compiler_flags());
    assert!(make_final_by_compiler_config_map(&Vec::new(), None).unwrap().is_empty());
}

#[test]
fn build_config_map_walks_both_axes() {
    let raw_map = vec![
        (
            BuildType::Debug,
            vec![
                (BuildConfigCompilerSpecifier::GCC, raw(Some(&["-Og"]), Some(&["DEBUG"]))),
                (BuildConfigCompilerSpecifier::MSVC, raw(Some(&["/Od"]), None)),
            ],
        ),
        (BuildType::Release, vec![]),
        (
            BuildType::MinSizeRel,
            vec![(BuildConfigCompilerSpecifier::Clang, raw(Some(&["((unix)) -Os"]), None))],
        ),
    ];
    let map = make_final_build_config_map(&raw_map, None).unwrap();
    assert_eq!(map.len(), 3);
    assert_eq!(map[0].0, BuildType::Debug);
    assert_eq!(map[0].1.len(), 2);
    assert_eq!(map[0].1[1].0, BuildConfigCompilerSpecifier::MSVC);
    assert_eq!(map[0].1[1].1.compiler_flags[0].flag_string, "/Od");
    assert_eq!(map[1].0, BuildType::Release);
    assert!(map[1].1.is_empty());
    assert_eq!(map[2].1[0].1.compiler_flags[0].flag_string, "-Os");
    assert_eq!(map[2].1[0].1.compiler_flags[0].system_spec, unix());
}

#[test]
fn build_config_map_fails_on_one_bad_leaf() {
    let raw_map = vec![
        (BuildType::Debug, vec![(BuildConfigCompilerSpecifier::GCC, raw(Some(&["-Og"]), None))]),
        (
            BuildType::Release,
            vec![
                (BuildConfigCompilerSpecifier::GCC, raw(Some(&["-O3"]), None)),
                (BuildConfigCompilerSpecifier::Clang, raw(None, Some(&["((amiga)) X"]))),
            ],
        ),
    ];
    let r = make_final_build_config_map(&raw_map, None);
    assert!(r.unwrap_err().starts_with("Unknown system name 'amiga'"));
}

#[test]
fn target_build_config_may_be_absent() {
    assert_eq!(make_final_target_build_config(None, None).unwrap(), None);
    let raw_map = vec![(
        TargetSpecificBuildType::AllConfigs,
        vec![(BuildConfigCompilerSpecifier::AllCompilers, raw(None, Some(&["ALWAYS"])))],
    )];
    let map = make_final_target_build_config(Some(&raw_map), None).unwrap().unwrap();
    assert_eq!(map.len(), 1);
    assert_eq!(map[0].0, TargetSpecificBuildType::AllConfigs);
    assert_eq!(map[0].1[0].1.defines[0].def_string, "ALWAYS");
    let bad = vec![(
        TargetSpecificBuildType::Debug,
        vec![(BuildConfigCompilerSpecifier::GCC, raw(Some(&["((("]), None))],
    )];
    assert!(make_final_target_build_config(Some(&bad), None).is_err());
}

#[test]
fn global_properties_have_defaults() {
    let properties = FinalGlobalProperties::from_raw(&RawGlobalPropertyConfig {
        ipo_enabled_by_default: None,
        default_compiled_lib_type: None,
    });
    assert!(!properties.ipo_enabled_by_default);
    assert_eq!(properties.default_compiled_lib_type, DefaultCompiledLibType::Shared);
    let properties = FinalGlobalProperties::from_raw(&RawGlobalPropertyConfig {
        ipo_enabled_by_default: Some(true),
        default_compiled_lib_type: Some(DefaultCompiledLibType::Static),
    });
    assert!(properties.ipo_enabled_by_default);
    assert_eq!(properties.default_compiled_lib_type, DefaultCompiledLibType::Static);
}

fn texts(flags: &Vec<&CompilerFlag>) -> Vec<String> {
    flags.iter().map(|flag| flag.flag_string.clone()).collect()
}

#[test]
fn target_config_adds_to_project_config() {
    let project = make_final_build_config_map(
        &vec![
            (
                BuildType::Debug,
                vec![
                    (BuildConfigCompilerSpecifier::GCC, raw(Some(&["-Og", "-g"]), Some(&["DEBUG"]))),
                    (BuildConfigCompilerSpecifier::GCC, raw(Some(&["-shadowed"]), None)),
                    (BuildConfigCompilerSpecifier::MSVC, raw(Some(&["/Od"]), None)),
                ],
            ),
            (BuildType::Release, vec![(BuildConfigCompilerSpecifier::GCC, raw(Some(&["-O3"]), None))]),
        ],
        None,
    )
    .unwrap();
    let target = make_final_target_build_config(
        Some(&vec![
            (
                TargetSpecificBuildType::Debug,
                vec![(BuildConfigCompilerSpecifier::GCC, raw(Some(&["-fsanitize=address"]), None))],
            ),
            (
                TargetSpecificBuildType::AllConfigs,
                vec![(BuildConfigCompilerSpecifier::GCC, raw(Some(&["-Wall"]), Some(&["ALWAYS"])))],
            ),
        ]),
        None,
    )
    .unwrap()
    .unwrap();

    let both = gcmake::final_project_configurables::build_config_in_effect(
        &project,
        Some(&target),
        BuildType::Debug,
        BuildConfigCompilerSpecifier::GCC,
    );
    assert_eq!(texts(&both.compiler_flags), vec!["-Og", "-g", "-Wall", "-fsanitize=address"]);
    let defines: Vec<&str> = both.defines.iter().map(|define| define.def_string.as_str()).collect();
    assert_eq!(defines, vec!["DEBUG", "ALWAYS"]);
    assert!(both.linker_flags.is_empty());

    let release = gcmake::final_project_configurables::build_config_in_effect(
        &project,
        Some(&target),
        BuildType::Release,
        BuildConfigCompilerSpecifier::GCC,
    );
    assert_eq!(texts(&release.compiler_flags), vec!["-O3", "-Wall"]);

    let alone = gcmake::final_project_configurables::build_config_in_effect(
        &project,
        None,
        BuildType::Debug,
        BuildConfigCompilerSpecifier::MSVC,
    );
    assert_eq!(texts(&alone.compiler_flags), vec!["/Od"]);

    let nothing = gcmake::final_project_configurables::build_config_in_effect(
        &project,
        Some(&target),
        BuildType::MinSizeRel,
        BuildConfigCompilerSpecifier::Clang,
    );
    assert!(nothing.compiler_flags.is_empty());
    assert!(nothing.defines.is_empty());
}

#[test]
fn entries_are_found_by_key() {
    let project = make_final_build_config_map(
        &vec![(
            BuildType::Release,
            vec![(BuildConfigCompilerSpecifier::Clang, raw(Some(&["-O2"]), None))],
        )],
        None,
    )
    .unwrap();
    let found =
        gcmake::final_project_configurables::find_build_type_config(&project, BuildType::Release)
            .unwrap();
    assert!(gcmake::final_project_configurables::find_build_type_config(&project, BuildType::Debug)
        .is_none());
    assert!(gcmake::final_project_configurables::find_compiler_config(
        found,
        BuildConfigCompilerSpecifier::Clang
    )
    .is_some());
    assert!(gcmake::final_project_configurables::find_compiler_config(
        found,
        BuildConfigCompilerSpecifier::GCC
    )
    .is_none());
}
