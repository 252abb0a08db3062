use gcmake::final_project_configurables::{
    CompiledOutputItem, FinalFeatureConfig, FinalFeatureEnabler, LinkMode, OutputItemLinks,
};
use gcmake::parsers::link_specifier::LinkSpecifier;
use gcmake::raw_data_in::{LinkSection, OutputItemType, RawCompiledItem, RawFeatureConfig};

fn strings(items: &[&str]) -> Vec<String> {
    items.iter().map(|item| item.to_string()).collect()
}

fn described(links: &Vec<LinkSpecifier>) -> Vec<(Option<String>, Vec<String>)> {
    links
        .iter()
        .map(|link| (link.get_namespace().clone(), link.get_target_names().clone()))
        .collect()
}

const ALL_KINDS: [OutputItemType; 5] = [
    OutputItemType::Executable,
    OutputItemType::CompiledLib,
    OutputItemType::StaticLib,
    OutputItemType::SharedLib,
    OutputItemType::HeaderOnlyLib,
];

#[test]
fn compiled_library_links_are_sorted_by_visibility() {
    let raw = LinkSection::PublicPrivateCategorized {
        public: Some(strings(&["depA::targetX"])),
        private: Some(strings(&["depB::{t1,t2}"])),
    };
    let links =
        CompiledOutputItem::make_link_map("lib", &OutputItemType::CompiledLib, &raw, None).unwrap();
    assert_eq!(
        described(&links.cmake_public),
        vec![(Some("depA".to_string()), strings(&["targetX"]))]
    );
    assert_eq!(
        described(&links.cmake_private),
        vec![(Some("depB".to_string()), strings(&["t1", "t2"]))]
    );
    assert!(links.cmake_interface.is_empty());
}

#[test]
fn categorized_links_are_rejected_for_executables_and_header_only_libraries() {
    let sections = [
        LinkSection::PublicPrivateCategorized { public: None, private: None },
        LinkSection::PublicPrivateCategorized { public: Some(strings(&["a::b"])), private: None },
        LinkSection::PublicPrivateCategorized {
            public: Some(strings(&["a::b"])),
            private: Some(strings(&["c"])),
        },
    ];
    for raw in &sections {
        let r = CompiledOutputItem::make_link_map("x", &OutputItemType::Executable, raw, None);
        assert_eq!(
            r.unwrap_err(),
            "Links given to an executable should not be categorized as public: or private:, however the links provided to this executable are categorized. Please remove the 'public:' and/or 'private:' keys."
        );
        let r = CompiledOutputItem::make_link_map("x", &OutputItemType::HeaderOnlyLib, raw, None);
        assert_eq!(
            r.unwrap_err(),
            "Links given to header-only library should not be categorized as public: or private:, however the links provided to this header-only library are categorized. Please remove the 'public:' and/or 'private:' keys."
        );
    }
}

#[test]
fn uncategorized_links_are_rejected_for_compiled_libraries() {
    for raw in [LinkSection::Uncategorized(Vec::new()), LinkSection::Uncategorized(strings(&["a"]))]
    {
        for kind in
            [OutputItemType::CompiledLib, OutputItemType::StaticLib, OutputItemType::SharedLib]
        {
            let r = CompiledOutputItem::make_link_map("x", &kind, &raw, None);
            assert_eq!(
                r.unwrap_err(),
                "Links given to a compiled library should be categorized into public: and/or private: lists. However, the links given to output were provided as a single list. See the docs for information on categorizing compiled library links."
            );
        }
    }
}

#[test]
fn executable_links_are_private_and_header_only_links_are_interface() {
    let raw = LinkSection::Uncategorized(strings(&["dep::a", "b"]));
    let links =
        CompiledOutputItem::make_link_map("x", &OutputItemType::Executable, &raw, None).unwrap();
    assert!(links.cmake_public.is_empty());
    assert!(links.cmake_interface.is_empty());
    assert_eq!(
        described(&links.cmake_private),
        vec![(Some("dep".to_string()), strings(&["a"])), (None, strings(&["b"]))]
    );
    let links =
        CompiledOutputItem::make_link_map("x", &OutputItemType::HeaderOnlyLib, &raw, None).unwrap();
    assert!(links.cmake_public.is_empty());
    assert!(links.cmake_private.is_empty());
    assert_eq!(described(&links.cmake_interface).len(), 2);
}

#[test]
fn one_bad_link_refuses_the_whole_section() {
    let raw = LinkSection::Uncategorized(strings(&["dep::a", "dep::", "b c"]));
    let r = CompiledOutputItem::make_link_map("x", &OutputItemType::Executable, &raw, None);
    assert_eq!(
        r.unwrap_err(),
        "Expected a target name in the link specifier.\n\tdep::\n\t     ^-- Error occurs here\n"
    );
    let raw = LinkSection::PublicPrivateCategorized {
        public: Some(strings(&["ok::fine"])),
        private: Some(strings(&["bad name"])),
    };
    let r = CompiledOutputItem::make_link_map("x", &OutputItemType::StaticLib, &raw, None);
    assert!(r.is_err());
    let raw = LinkSection::Uncategorized(strings(&["dep::not.valid"]));
    let r = CompiledOutputItem::make_link_map("x", &OutputItemType::Executable, &raw, None);
    assert!(r.is_err());
}

#[test]
fn empty_links_are_empty() {
    let links = OutputItemLinks::new_empty();
    assert!(links.cmake_public.is_empty());
    assert!(links.cmake_interface.is_empty());
    assert!(links.cmake_private.is_empty());
}

#[test]
fn more_permissive_is_commutative_and_returns_the_greater() {
    let modes = [LinkMode::Interface, LinkMode::Private, LinkMode::Public];
    for (i, first) in modes.iter().enumerate() {
        for (j, second) in modes.iter().enumerate() {
            let r = LinkMode::more_permissive(*first, *second);
            assert_eq!(r, LinkMode::more_permissive(*second, *first));
            assert_eq!(r, modes[i.max(j)]);
            assert!(r >= *first && r >= *second);
        }
    }
    assert_eq!(LinkMode::more_permissive(LinkMode::Private, LinkMode::Public), LinkMode::Public);
    assert_eq!(LinkMode::more_permissive(LinkMode::Interface, LinkMode::Private), LinkMode::Private);
}

#[test]
fn link_modes_have_keywords() {
    assert_eq!(LinkMode::Public.to_str(), "public");
    assert_eq!(LinkMode::Private.to_str(), "private");
    assert_eq!(LinkMode::Interface.to_str(), "interface");
}

#[test]
fn feature_enabler_formats() {
    assert!(FinalFeatureEnabler::make_from("a/b/c").is_err());
    assert_eq!(
        FinalFeatureEnabler::make_from("a/b/c").unwrap_err(),
        "\"a/b/c\" is not in valid feature enabler format."
    );
    assert_eq!(
        FinalFeatureEnabler::make_from("feature").unwrap(),
        FinalFeatureEnabler { dep_name: None, feature_name: "feature".to_string() }
    );
    assert_eq!(
        FinalFeatureEnabler::make_from("dep/feature").unwrap(),
        FinalFeatureEnabler {
            dep_name: Some("dep".to_string()),
            feature_name: "feature".to_string()
        }
    );
}

#[test]
fn feature_enabler_edges() {
    assert_eq!(
        FinalFeatureEnabler::make_from("").unwrap(),
        FinalFeatureEnabler { dep_name: None, feature_name: String::new() }
    );
    assert_eq!(
        FinalFeatureEnabler::make_from("/").unwrap(),
        FinalFeatureEnabler { dep_name: Some(String::new()), feature_name: String::new() }
    );
    assert_eq!(
        FinalFeatureEnabler::make_from("dep/").unwrap(),
        FinalFeatureEnabler { dep_name: Some("dep".to_string()), feature_name: String::new() }
    );
    assert!(FinalFeatureEnabler::make_from("//").is_err());
    assert!(FinalFeatureEnabler::make_from("a//b").is_err());
}

#[test]
fn feature_enablers_are_ordered_and_unique() {
    let raw = RawFeatureConfig {
        default: true,
        enables: Some(strings(&["zeta", "dep/b", "alpha", "dep/a", "alpha", "abc/z", "alph"])),
    };
    let config = FinalFeatureConfig::make_from(raw).unwrap();
    assert!(config.is_enabled_by_default);
    let listed: Vec<(Option<&str>, &str)> = config
        .enables
        .iter()
        .map(|enabler| (enabler.dep_name.as_deref(), enabler.feature_name.as_str()))
        .collect();
    assert_eq!(
        listed,
        vec![
            (None, "alph"),
            (None, "alpha"),
            (None, "zeta"),
            (Some("abc"), "z"),
            (Some("dep"), "a"),
            (Some("dep"), "b"),
        ]
    );
    let mut by_std = config.enables.clone();
    by_std.sort();
    assert_eq!(by_std, config.enables);
}

#[test]
fn feature_order_agrees_with_the_order_of_the_standard_library() {
    let texts = ["", "a", "B", "ab", "a/b", "b/a", "a/", "/a", "\u{e9}", "z", "dep/\u{4e2d}", "Z/z"];
    for first in texts {
        for second in texts {
            let a = FinalFeatureEnabler::make_from(first).unwrap();
            let b = FinalFeatureEnabler::make_from(second).unwrap();
            assert_eq!(a.stands_before(&b), a < b);
            assert_eq!(a.is_same_as(&b), a == b);
        }
    }
}

#[test]
fn feature_without_enablers_and_with_bad_enabler() {
    let config = FinalFeatureConfig::make_from(RawFeatureConfig { default: false, enables: None })
        .unwrap();
    assert!(!config.is_enabled_by_default);
    assert!(config.enables.is_empty());
    let r = FinalFeatureConfig::make_from(RawFeatureConfig {
        default: true,
        enables: Some(strings(&["ok", "x/y/z", "p/q/r"])),
    });
    assert_eq!(r.unwrap_err(), "\"x/y/z\" is not in valid feature enabler format.");
}

#[test]
fn export_names() {
    assert_eq!(
        CompiledOutputItem::export_macro_header_include_path("proj/sub", "my-lib"),
        "proj/sub/my-lib_export.h"
    );
    assert_eq!(CompiledOutputItem::str_export_macro("my-lib name"), "MY_LIB_NAME_EXPORT");
    assert_eq!(CompiledOutputItem::str_export_macro("stra\u{df}e"), "STRASSE_EXPORT");
}

#[test]
fn output_item_is_resolved() {
    let raw = RawCompiledItem {
        output_type: OutputItemType::Executable,
        entry_file: "main.cpp".to_string(),
        windows_icon: Some("icon.ico".to_string()),
        emscripten_html_shell: None,
        build_config: None,
        link: Some(LinkSection::Uncategorized(strings(&["dep::a"]))),
        requires_custom_main: None,
    };
    let item = CompiledOutputItem::make_from("exe", &raw, None, None).unwrap();
    assert!(item.is_executable_type());
    assert!(!item.is_library_type());
    assert!(!item.is_compiled_library_type());
    assert!(!item.is_header_only_type());
    assert_eq!(item.get_entry_file(), "main.cpp");
    assert_eq!(item.get_output_type(), &OutputItemType::Executable);
    assert_eq!(item.get_links().cmake_private.len(), 1);
    assert!(item.get_build_config_map().is_none());
    assert!(!item.requires_custom_main);
    assert!(item.system_specifier.includes_all());
    assert_eq!(item.windows_icon_relative_to_root_project, Some("icon.ico".to_string()));
    assert_eq!(item.emscripten_html_shell_relative_to_project_root, None);
}

#[test]
fn output_kinds_are_told_apart() {
    for kind in ALL_KINDS {
        let raw = RawCompiledItem {
            output_type: kind,
            entry_file: "e".to_string(),
            windows_icon: None,
            emscripten_html_shell: None,
            build_config: None,
            link: None,
            requires_custom_main: Some(true),
        };
        let item = CompiledOutputItem::make_from("o", &raw, None, None).unwrap();
        assert!(item.requires_custom_main);
        assert_eq!(item.is_executable_type(), kind == OutputItemType::Executable);
        assert_eq!(item.is_library_type(), kind != OutputItemType::Executable);
        assert_eq!(item.is_header_only_type(), kind == OutputItemType::HeaderOnlyLib);
        assert_eq!(
            item.is_compiled_library_type(),
            matches!(
                kind,
                OutputItemType::CompiledLib | OutputItemType::StaticLib | OutputItemType::SharedLib
            )
        );
        assert!(item.get_links().cmake_public.is_empty());
    }
}

#[test]
fn output_item_with_wrong_link_section_is_refused() {
    let raw = RawCompiledItem {
        output_type: OutputItemType::SharedLib,
        entry_file: "lib.hpp".to_string(),
        windows_icon: None,
        emscripten_html_shell: None,
        build_config: None,
        link: Some(LinkSection::Uncategorized(strings(&["dep::a"]))),
        requires_custom_main: None,
    };
    assert!(CompiledOutputItem::make_from("lib", &raw, None, None).is_err());
}
