//! Resolved configuration of a project: links, flags, defines, features and outputs.

use crate::final_dependencies::FinalPredefinedDependencyConfig;
use crate::lexical::{lemma_precedes_total, precedes, text_precedes};
use crate::parsers::link_specifier::{parse_link, LinkAccessMode, LinkModel, LinkSpecifier};
use crate::parsers::system_specifier::{
    feature_names, gate_error_message, leading_gate, parse_system_spec_or_default,
    GateExpression, LeadingGate, SystemSpecifierWrapper,
};
use crate::raw_data_in::{
    maybe_strings_of, BuildConfigCompilerSpecifier, BuildConfigMap, BuildType,
    BuildTypeOptionMap, DefaultCompiledLibType, LinkSection, LinkSectionModel, OutputItemType,
    RawBuildConfig, RawBuildConfigModel, RawCompiledItem, RawFeatureConfig, RawGlobalPropertyConfig,
    RawShortcutConfig, TargetBuildConfigMap, TargetSpecificBuildType,
};
use crate::sequences::{
    collect, lemma_collect_error_stays, lemma_collect_push, lemma_values_before_error, renders,
    renders_all, value_under, values_before_error, views,
};
use crate::text::{
    chars_equal, chars_of, copy_text, cut, maybe_text, strings_of, to_uppercase,
    underscore_separators, uppercase_of, with_underscores,
};
use std::rc::Rc;
use vstd::prelude::*;
use vstd::string::*;

verus! {

/// How far a link reaches: `Interface` is the narrowest, `Public` the broadest.
#[derive(Clone, Copy, Debug, PartialEq, Eq, PartialOrd, Ord, Hash, Structural)]
pub enum LinkMode {
    Interface,
    Private,
    Public,
}

impl LinkMode {
    /// The place of the mode in the order `Interface < Private < Public`.
    pub open spec fn breadth(self) -> nat {
        match self {
            Self::Interface => 0,
            Self::Private => 1,
            Self::Public => 2,
        }
    }

    /// The broader of two modes.
    pub open spec fn broader_of(first: Self, second: Self) -> Self {
        if first.breadth() > second.breadth() {
            first
        } else {
            second
        }
    }

    /// The keyword of the mode.
    pub fn to_str(&self) -> (r: &'static str)
        ensures
            r@ == match *self {
                Self::Public => "public"@,
                Self::Private => "private"@,
                Self::Interface => "interface"@,
            },
    {
        match self {
            Self::Public => "public",
            Self::Private => "private",
            Self::Interface => "interface",
        }
    }

    /// The broader of two modes: the effective visibility of a target that
    /// is linked along two paths.
    pub fn more_permissive(first: Self, second: Self) -> (r: Self)
        ensures
            r == Self::broader_of(first, second),
            r == first || r == second,
            r.breadth() >= first.breadth(),
            r.breadth() >= second.breadth(),
    {
        let first_is_broader = match (first, second) {
            (Self::Public, Self::Private) => true,
            (Self::Public, Self::Interface) => true,
            (Self::Private, Self::Interface) => true,
            _ => false,
        };
        if first_is_broader {
            first
        } else {
            second
        }
    }
}

/// The broader of two modes does not depend on the order in which they are given.
pub proof fn more_permissive_is_commutative(first: LinkMode, second: LinkMode)
    ensures
        LinkMode::broader_of(first, second) == LinkMode::broader_of(second, first),
{
}

/// The broader of two modes is one of the two, and neither of them is broader than it.
pub proof fn more_permissive_is_the_greater(first: LinkMode, second: LinkMode)
    ensures
        LinkMode::broader_of(first, second) == first || LinkMode::broader_of(first, second)
            == second,
        LinkMode::broader_of(first, second).breadth() >= first.breadth(),
        LinkMode::broader_of(first, second).breadth() >= second.breadth(),
{
}

/// The links of one output, by visibility.
#[derive(Debug, PartialEq, Eq)]
pub struct OutputItemLinks {
    pub cmake_public: Vec<LinkSpecifier>,
    pub cmake_interface: Vec<LinkSpecifier>,
    pub cmake_private: Vec<LinkSpecifier>,
}

/// The mathematical form of `OutputItemLinks`.
pub ghost struct LinksModel {
    pub public: Seq<LinkModel>,
    pub interface: Seq<LinkModel>,
    pub private: Seq<LinkModel>,
}

impl View for OutputItemLinks {
    type V = LinksModel;

    open spec fn view(&self) -> LinksModel {
        LinksModel {
            public: views(self.cmake_public@),
            interface: views(self.cmake_interface@),
            private: views(self.cmake_private@),
        }
    }
}

/// The links of an output that links nothing.
pub open spec fn no_links() -> LinksModel {
    LinksModel { public: Seq::empty(), interface: Seq::empty(), private: Seq::empty() }
}

impl OutputItemLinks {
    /// The links of an output that links nothing.
    pub fn new_empty() -> (r: Self)
        ensures
            r@ == no_links(),
    {
        let r = Self {
            cmake_public: Vec::new(),
            cmake_private: Vec::new(),
            cmake_interface: Vec::new(),
        };
        assert(r@.public =~= Seq::empty() && r@.interface =~= Seq::empty() && r@.private
            =~= Seq::empty());
        r
    }
}

/// What a list of link texts written by a configuration author comes to:
/// the specifiers in order, or the message for the first text that is refused.
pub open spec fn parsed_links(list: Seq<Seq<char>>, features: Option<Seq<Seq<char>>>) -> Result<
    Seq<LinkModel>,
    Seq<char>,
> {
    collect(
        list.map_values(|link: Seq<char>| parse_link(link, LinkAccessMode::UserFacing, features)),
    )
}

/// As `parsed_links`; a list that was not written holds no link.
pub open spec fn maybe_parsed_links(
    list: Option<Seq<Seq<char>>>,
    features: Option<Seq<Seq<char>>>,
) -> Result<Seq<LinkModel>, Seq<char>> {
    match list {
        Some(links) => parsed_links(links, features),
        None => Ok(Seq::empty()),
    }
}

/// The message for an executable whose links are categorized.
pub open spec fn categorized_executable_message() -> Seq<char> {
    "Links given to an executable should not be categorized as public: or private:, however the links provided to this executable are categorized. Please remove the 'public:' and/or 'private:' keys."@
}

/// The message for a header-only library whose links are categorized.
pub open spec fn categorized_header_only_message() -> Seq<char> {
    "Links given to header-only library should not be categorized as public: or private:, however the links provided to this header-only library are categorized. Please remove the 'public:' and/or 'private:' keys."@
}

/// The message for a compiled library whose links are not categorized.
pub open spec fn uncategorized_library_message() -> Seq<char> {
    "Links given to a compiled library should be categorized into public: and/or private: lists. However, the links given to output were provided as a single list. See the docs for information on categorizing compiled library links."@
}

/// The links of an output of kind `output_type` whose link section is
/// `raw_links`. An executable links privately and a header-only library
/// through its interface, both from one uncategorized list; a compiled
/// library links what stands under `public` and `private`. Any other section
/// is refused, and so is a section with a link that is refused.
pub open spec fn link_map(
    output_type: OutputItemType,
    raw_links: LinkSectionModel,
    features: Option<Seq<Seq<char>>>,
) -> Result<LinksModel, Seq<char>> {
    match output_type {
        OutputItemType::Executable => match raw_links {
            LinkSectionModel::PublicPrivateCategorized { .. } => Err(
                categorized_executable_message(),
            ),
            LinkSectionModel::Uncategorized(links) => match parsed_links(links, features) {
                Err(message) => Err(message),
                Ok(private) => Ok(
                    LinksModel { public: Seq::empty(), interface: Seq::empty(), private },
                ),
            },
        },
        OutputItemType::HeaderOnlyLib => match raw_links {
            LinkSectionModel::PublicPrivateCategorized { .. } => Err(
                categorized_header_only_message(),
            ),
            LinkSectionModel::Uncategorized(links) => match parsed_links(links, features) {
                Err(message) => Err(message),
                Ok(interface) => Ok(
                    LinksModel { public: Seq::empty(), interface, private: Seq::empty() },
                ),
            },
        },
        _ => match raw_links {
            LinkSectionModel::Uncategorized(_) => Err(uncategorized_library_message()),
            LinkSectionModel::PublicPrivateCategorized { public, private } =>
                match maybe_parsed_links(public, features) {
                    Err(message) => Err(message),
                    Ok(public_links) => match maybe_parsed_links(private, features) {
                        Err(message) => Err(message),
                        Ok(private_links) => Ok(
                            LinksModel {
                                public: public_links,
                                interface: Seq::empty(),
                                private: private_links,
                            },
                        ),
                    },
                },
        },
    }
}

/// Categorized links are refused for every executable and every header-only library.
pub proof fn categorized_links_are_refused_for_executables_and_header_only_libraries(
    output_type: OutputItemType,
    raw_links: LinkSectionModel,
    features: Option<Seq<Seq<char>>>,
)
    requires
        output_type == OutputItemType::Executable || output_type == OutputItemType::HeaderOnlyLib,
        raw_links is PublicPrivateCategorized,
    ensures
        link_map(output_type, raw_links, features) is Err,
{
}

/// Uncategorized links are refused for every compiled library: static,
/// shared, or of the kind that is chosen when the project is built.
pub proof fn uncategorized_links_are_refused_for_compiled_libraries(
    output_type: OutputItemType,
    raw_links: LinkSectionModel,
    features: Option<Seq<Seq<char>>>,
)
    requires
        output_type == OutputItemType::CompiledLib || output_type == OutputItemType::StaticLib
            || output_type == OutputItemType::SharedLib,
        raw_links is Uncategorized,
    ensures
        link_map(output_type, raw_links, features) is Err,
{
}

/// An executable has private links only, a header-only library interface
/// links only, and a compiled library no interface links.
pub proof fn links_fill_the_categories_of_their_kind(
    output_type: OutputItemType,
    raw_links: LinkSectionModel,
    features: Option<Seq<Seq<char>>>,
)
    requires
        link_map(output_type, raw_links, features) is Ok,
    ensures
        link_map(output_type, raw_links, features) matches Ok(links) && match output_type {
            OutputItemType::Executable => links.public.len() == 0 && links.interface.len() == 0,
            OutputItemType::HeaderOnlyLib => links.public.len() == 0 && links.private.len() == 0,
            _ => links.interface.len() == 0,
        },
{
}

/// Reads each of `link_strings` as a link written by a configuration author
/// and appends it to `destination_vec`. Stops at the first text that is
/// refused; the links read before it stay appended.
pub fn parse_all_links_into(
    link_strings: &Vec<String>,
    destination_vec: &mut Vec<LinkSpecifier>,
    valid_feature_list: Option<&Vec<&str>>,
) -> (r: Result<(), String>)
    ensures
        match parsed_links(strings_of(link_strings@), feature_names(valid_feature_list)) {
            Ok(links) => r is Ok && views(final(destination_vec)@) == views(old(destination_vec)@)
                + links,
            Err(message) => r matches Err(given) && given@ == message && views(
                final(destination_vec)@,
            ) == views(old(destination_vec)@) + values_before_error(
                strings_of(link_strings@).map_values(
                    |link: Seq<char>|
                        parse_link(
                            link,
                            LinkAccessMode::UserFacing,
                            feature_names(valid_feature_list),
                        ),
                ),
            ),
        },
{
    let ghost before = views(destination_vec@);
    let ghost features = feature_names(valid_feature_list);
    let ghost results = strings_of(link_strings@).map_values(
        |link: Seq<char>| parse_link(link, LinkAccessMode::UserFacing, features),
    );
    let mut i: usize = 0;
    assert(results.take(0) =~= Seq::empty());
    assert(before + Seq::<LinkModel>::empty() =~= before);
    while i < link_strings.len()
        invariant
            i <= link_strings@.len(),
            features == feature_names(valid_feature_list),
            results == strings_of(link_strings@).map_values(
                |link: Seq<char>| parse_link(link, LinkAccessMode::UserFacing, features),
            ),
            before == views(old(destination_vec)@),
            collect(results.take(i as int)) matches Ok(links) && views(destination_vec@) == before
                + links,
        decreases link_strings@.len() - i,
    {
        let ghost done = collect(results.take(i as int))->Ok_0;
        proof {
            lemma_collect_push(results, i as int);
            assert(results[i as int] == parse_link(
                link_strings@[i as int]@,
                LinkAccessMode::UserFacing,
                features,
            ));
        }
        match LinkSpecifier::parse_from(
            link_strings[i].as_str(),
            LinkAccessMode::UserFacing,
            valid_feature_list,
        ) {
            Err(message) => {
                proof {
                    lemma_collect_error_stays(results, i + 1);
                    lemma_values_before_error(results, i as int);
                }
                return Err(message);
            },
            Ok(link) => {
                let ghost model = link@;
                let ghost so_far = views(destination_vec@);
                destination_vec.push(link);
                assert(views(destination_vec@) =~= so_far.push(model));
                assert(so_far.push(model) =~= before + done.push(model));
            },
        }
        i += 1;
    }
    assert(results.take(i as int) =~= results);
    Ok(())
}

/// A text and the condition under which it applies.
pub ghost struct GatedText {
    pub gate: Option<GateExpression>,
    pub text: Seq<char>,
}

/// What a flag or a define comes to: the text behind its gate, or the whole
/// text where it has no gate; the message of the condition where that is malformed.
pub open spec fn gated_text(s: Seq<char>, features: Option<Seq<Seq<char>>>) -> Result<
    GatedText,
    Seq<char>,
> {
    match leading_gate(s, features) {
        LeadingGate::Absent => Ok(GatedText { gate: None, text: s }),
        LeadingGate::Present { gate, rest_from } => Ok(
            GatedText { gate: Some(gate), text: s.skip(rest_from) },
        ),
        LeadingGate::Malformed { kind, at } => Err(gate_error_message(s, kind, at)),
    }
}

/// What a list of flags or defines comes to: each in order, or the message
/// for the first that is refused.
pub open spec fn gated_texts(list: Seq<Seq<char>>, features: Option<Seq<Seq<char>>>) -> Result<
    Seq<GatedText>,
    Seq<char>,
> {
    collect(list.map_values(|s: Seq<char>| gated_text(s, features)))
}

/// As `gated_texts`; a list that was not written is empty.
pub open spec fn maybe_gated_texts(
    list: Option<Seq<Seq<char>>>,
    features: Option<Seq<Seq<char>>>,
) -> Result<Seq<GatedText>, Seq<char>> {
    match list {
        Some(items) => gated_texts(items, features),
        None => Ok(Seq::empty()),
    }
}

/// A preprocessor define and the condition under which it is set.
#[derive(Debug, PartialEq, Eq)]
pub struct CompilerDefine {
    pub system_spec: SystemSpecifierWrapper,
    pub def_string: String,
}

impl View for CompilerDefine {
    type V = GatedText;

    open spec fn view(&self) -> GatedText {
        GatedText { gate: self.system_spec@, text: self.def_string@ }
    }
}

impl CompilerDefine {
    /// Reads a define, which may start with a gate.
    pub fn new(define_string: &str, valid_feature_list: Option<&Vec<&str>>) -> (r: Result<
        Self,
        String,
    >)
        ensures
            renders(r, gated_text(define_string@, feature_names(valid_feature_list))),
    {
        match parse_system_spec_or_default(define_string, valid_feature_list) {
            Err(message) => Err(message),
            Ok(success) => Ok(
                Self { system_spec: success.value, def_string: String::from_str(success.rest) },
            ),
        }
    }

    /// Reads the defines of a list that may be absent.
    pub fn make_list_from_maybe(
        maybe_def_list: Option<&Vec<String>>,
        valid_feature_list: Option<&Vec<&str>>,
    ) -> (r: Result<Vec<Self>, String>)
        ensures
            renders_all(
                r,
                maybe_gated_texts(
                    match maybe_def_list {
                        Some(list) => Some(strings_of(list@)),
                        None => None,
                    },
                    feature_names(valid_feature_list),
                ),
            ),
    {
        match maybe_def_list {
            Some(def_list) => Self::make_list(def_list, valid_feature_list),
            None => {
                let none: Vec<Self> = Vec::new();
                assert(views(none@) =~= Seq::empty());
                Ok(none)
            },
        }
    }

    /// Reads each define of a list, up to the first that is refused.
    pub fn make_list(def_list: &Vec<String>, valid_feature_list: Option<&Vec<&str>>) -> (r: Result<
        Vec<Self>,
        String,
    >)
        ensures
            renders_all(r, gated_texts(strings_of(def_list@), feature_names(valid_feature_list))),
    {
        let ghost features = feature_names(valid_feature_list);
        let ghost results = strings_of(def_list@).map_values(
            |s: Seq<char>| gated_text(s, features),
        );
        let mut defines: Vec<Self> = Vec::new();
        let mut i: usize = 0;
        assert(results.take(0) =~= Seq::empty());
        assert(views(defines@) =~= Seq::empty());
        while i < def_list.len()
            invariant
                i <= def_list@.len(),
                features == feature_names(valid_feature_list),
                results == strings_of(def_list@).map_values(
                    |s: Seq<char>| gated_text(s, features),
                ),
                collect(results.take(i as int)) == Ok::<Seq<GatedText>, Seq<char>>(
                    views(defines@),
                ),
            decreases def_list@.len() - i,
        {
            proof {
                lemma_collect_push(results, i as int);
            }
            match Self::new(def_list[i].as_str(), valid_feature_list) {
                Err(message) => {
                    proof {
                        lemma_collect_error_stays(results, i + 1);
                    }
                    return Err(message);
                },
                Ok(define) => {
                    let ghost before = views(defines@);
                    let ghost model = define@;
                    defines.push(define);
                    assert(views(defines@) =~= before.push(model));
                },
            }
            i += 1;
        }
        assert(results.take(i as int) =~= results);
        Ok(defines)
    }
}

/// A compiler or linker flag and the condition under which it is passed.
#[derive(Debug, PartialEq, Eq)]
pub struct CompilerFlag {
    pub system_spec: SystemSpecifierWrapper,
    pub flag_string: String,
}

/// A linker flag has the form of a compiler flag.
pub type LinkerFlag = CompilerFlag;

impl View for CompilerFlag {
    type V = GatedText;

    open spec fn view(&self) -> GatedText {
        GatedText { gate: self.system_spec@, text: self.flag_string@ }
    }
}

impl CompilerFlag {
    /// Reads a flag, which may start with a gate.
    pub fn new(flag_str: &str, valid_feature_list: Option<&Vec<&str>>) -> (r: Result<Self, String>)
        ensures
            renders(r, gated_text(flag_str@, feature_names(valid_feature_list))),
    {
        match parse_system_spec_or_default(flag_str, valid_feature_list) {
            Err(message) => Err(message),
            Ok(success) => Ok(
                Self { system_spec: success.value, flag_string: String::from_str(success.rest) },
            ),
        }
    }

    /// Reads the flags of a list that may be absent.
    pub fn make_list_from_maybe(
        maybe_flag_list: Option<&Vec<String>>,
        valid_feature_list: Option<&Vec<&str>>,
    ) -> (r: Result<Vec<Self>, String>)
        ensures
            renders_all(
                r,
                maybe_gated_texts(
                    match maybe_flag_list {
                        Some(list) => Some(strings_of(list@)),
                        None => None,
                    },
                    feature_names(valid_feature_list),
                ),
            ),
    {
        match maybe_flag_list {
            Some(flag_list) => Self::make_list(flag_list, valid_feature_list),
            None => {
                let none: Vec<Self> = Vec::new();
                assert(views(none@) =~= Seq::empty());
                Ok(none)
            },
        }
    }

    /// Reads each flag of a list, up to the first that is refused.
    pub fn make_list(flag_list: &Vec<String>, valid_feature_list: Option<&Vec<&str>>) -> (r:
        Result<Vec<Self>, String>)
        ensures
            renders_all(r, gated_texts(strings_of(flag_list@), feature_names(valid_feature_list))),
    {
        let ghost features = feature_names(valid_feature_list);
        let ghost results = strings_of(flag_list@).map_values(
            |s: Seq<char>| gated_text(s, features),
        );
        let mut flags: Vec<Self> = Vec::new();
        let mut i: usize = 0;
        assert(results.take(0) =~= Seq::empty());
        assert(views(flags@) =~= Seq::empty());
        while i < flag_list.len()
            invariant
                i <= flag_list@.len(),
                features == feature_names(valid_feature_list),
                results == strings_of(flag_list@).map_values(
                    |s: Seq<char>| gated_text(s, features),
                ),
                collect(results.take(i as int)) == Ok::<Seq<GatedText>, Seq<char>>(views(flags@)),
            decreases flag_list@.len() - i,
        {
            proof {
                lemma_collect_push(results, i as int);
            }
            match Self::new(flag_list[i].as_str(), valid_feature_list) {
                Err(message) => {
                    proof {
                        lemma_collect_error_stays(results, i + 1);
                    }
                    return Err(message);
                },
                Ok(flag) => {
                    let ghost before = views(flags@);
                    let ghost model = flag@;
                    flags.push(flag);
                    assert(views(flags@) =~= before.push(model));
                },
            }
            i += 1;
        }
        assert(results.take(i as int) =~= results);
        Ok(flags)
    }
}

/// The flags and defines of one build type and compiler.
#[derive(Debug, PartialEq, Eq)]
pub struct FinalBuildConfig {
    pub compiler_flags: Vec<CompilerFlag>,
    pub link_time_flags: Vec<CompilerFlag>,
    pub linker_flags: Vec<LinkerFlag>,
    pub defines: Vec<CompilerDefine>,
}

/// The mathematical form of a `FinalBuildConfig`.
pub ghost struct BuildConfigModel {
    pub compiler_flags: Seq<GatedText>,
    pub link_time_flags: Seq<GatedText>,
    pub linker_flags: Seq<GatedText>,
    pub defines: Seq<GatedText>,
}

impl View for FinalBuildConfig {
    type V = BuildConfigModel;

    open spec fn view(&self) -> BuildConfigModel {
        BuildConfigModel {
            compiler_flags: views(self.compiler_flags@),
            link_time_flags: views(self.link_time_flags@),
            linker_flags: views(self.linker_flags@),
            defines: views(self.defines@),
        }
    }
}

/// What the flags and defines of one build type and compiler come to. The
/// lists are read in the order compiler flags, link-time flags, linker
/// flags, defines; the first entry that is refused refuses the whole.
pub open spec fn build_config(raw: RawBuildConfigModel, features: Option<Seq<Seq<char>>>) -> Result<
    BuildConfigModel,
    Seq<char>,
> {
    match maybe_gated_texts(raw.compiler_flags, features) {
        Err(message) => Err(message),
        Ok(compiler_flags) => match maybe_gated_texts(raw.link_time_flags, features) {
            Err(message) => Err(message),
            Ok(link_time_flags) => match maybe_gated_texts(raw.linker_flags, features) {
                Err(message) => Err(message),
                Ok(linker_flags) => match maybe_gated_texts(raw.defines, features) {
                    Err(message) => Err(message),
                    Ok(defines) => Ok(
                        BuildConfigModel { compiler_flags, link_time_flags, linker_flags, defines },
                    ),
                },
            },
        },
    }
}

/// A borrowed view of a list that may be absent.
fn list_of(list: &Option<Vec<String>>) -> (r: Option<&Vec<String>>)
    ensures
        match r {
            Some(items) => *list == Some(*items),
            None => *list is None,
        },
{
    match list {
        Some(items) => Some(items),
        None => None,
    }
}

impl FinalBuildConfig {
    /// Reads the flags and defines of one build type and compiler.
    pub fn make_from(raw_build_config: &RawBuildConfig, valid_feature_list: Option<&Vec<&str>>) -> (r:
        Result<Self, String>)
        ensures
            renders(r, build_config(raw_build_config@, feature_names(valid_feature_list))),
    {
        let compiler_flags = match CompilerFlag::make_list_from_maybe(
            list_of(&raw_build_config.compiler_flags),
            valid_feature_list,
        ) {
            Err(message) => {
                return Err(message);
            },
            Ok(flags) => flags,
        };
        let link_time_flags = match CompilerFlag::make_list_from_maybe(
            list_of(&raw_build_config.link_time_flags),
            valid_feature_list,
        ) {
            Err(message) => {
                return Err(message);
            },
            Ok(flags) => flags,
        };
        let linker_flags = match CompilerFlag::make_list_from_maybe(
            list_of(&raw_build_config.linker_flags),
            valid_feature_list,
        ) {
            Err(message) => {
                return Err(message);
            },
            Ok(flags) => flags,
        };
        let defines = match CompilerDefine::make_list_from_maybe(
            list_of(&raw_build_config.defines),
            valid_feature_list,
        ) {
            Err(message) => {
                return Err(message);
            },
            Ok(defines) => defines,
        };
        Ok(Self { compiler_flags, link_time_flags, linker_flags, defines })
    }

    /// Whether any compiler flag is set.
    pub fn has_compiler_flags(&self) -> (r: bool)
        ensures
            r == (self@.compiler_flags.len() > 0),
    {
        self.compiler_flags.len() > 0
    }

    /// Whether any linker flag is set.
    pub fn has_linker_flags(&self) -> (r: bool)
        ensures
            r == (self@.linker_flags.len() > 0),
    {
        self.linker_flags.len() > 0
    }

    /// Whether any link-time flag is set.
    pub fn has_link_time_flags(&self) -> (r: bool)
        ensures
            r == (self@.link_time_flags.len() > 0),
    {
        self.link_time_flags.len() > 0
    }

    /// Whether any define is set.
    pub fn has_compiler_defines(&self) -> (r: bool)
        ensures
            r == (self@.defines.len() > 0),
    {
        self.defines.len() > 0
    }
}

/// Resolved build configurations by compiler. The first entry for a compiler counts.
pub type FinalBuildTypeOptionMap = Vec<(BuildConfigCompilerSpecifier, FinalBuildConfig)>;

/// Resolved build configurations by build type and compiler.
pub type FinalBuildConfigMap = Vec<(BuildType, FinalBuildTypeOptionMap)>;

/// Resolved build configurations of one output, by build type and compiler.
pub type FinalTargetBuildConfigMap = Vec<(TargetSpecificBuildType, FinalBuildTypeOptionMap)>;

/// The mathematical form of the build configurations of one build type.
pub type CompilerConfigs = Seq<(BuildConfigCompilerSpecifier, BuildConfigModel)>;

/// The entries of a written by-compiler map, each with the view of its configuration.
pub open spec fn raw_by_compiler(
    map: Seq<(BuildConfigCompilerSpecifier, RawBuildConfig)>,
) -> Seq<(BuildConfigCompilerSpecifier, RawBuildConfigModel)> {
    map.map_values(|entry: (BuildConfigCompilerSpecifier, RawBuildConfig)| (entry.0, entry.1@))
}

/// The entries of a resolved by-compiler map, each with the view of its configuration.
pub open spec fn final_by_compiler(
    map: Seq<(BuildConfigCompilerSpecifier, FinalBuildConfig)>,
) -> CompilerConfigs {
    map.map_values(|entry: (BuildConfigCompilerSpecifier, FinalBuildConfig)| (entry.0, entry.1@))
}

/// What one entry of a by-compiler map comes to: the same compiler, with
/// the resolved configuration.
pub open spec fn by_compiler_entry(
    entry: (BuildConfigCompilerSpecifier, RawBuildConfigModel),
    features: Option<Seq<Seq<char>>>,
) -> Result<(BuildConfigCompilerSpecifier, BuildConfigModel), Seq<char>> {
    match build_config(entry.1, features) {
        Ok(resolved) => Ok((entry.0, resolved)),
        Err(message) => Err(message),
    }
}

/// What a by-compiler map comes to: entry for entry in the same order, or
/// the message for the first entry that is refused.
pub open spec fn by_compiler_configs(
    raw: Seq<(BuildConfigCompilerSpecifier, RawBuildConfigModel)>,
    features: Option<Seq<Seq<char>>>,
) -> Result<CompilerConfigs, Seq<char>> {
    collect(
        raw.map_values(
            |entry: (BuildConfigCompilerSpecifier, RawBuildConfigModel)|
                by_compiler_entry(entry, features),
        ),
    )
}

/// Resolves the build configurations of one build type, compiler by compiler.
pub fn make_final_by_compiler_config_map(
    raw_by_compiler_map: &BuildTypeOptionMap,
    valid_feature_list: Option<&Vec<&str>>,
) -> (r: Result<FinalBuildTypeOptionMap, String>)
    ensures
        match by_compiler_configs(
            raw_by_compiler(raw_by_compiler_map@),
            feature_names(valid_feature_list),
        ) {
            Ok(resolved) => r matches Ok(given) && final_by_compiler(given@) == resolved,
            Err(message) => r matches Err(given) && given@ == message,
        },
{
    let ghost features = feature_names(valid_feature_list);
    let ghost results = raw_by_compiler(raw_by_compiler_map@).map_values(
        |entry: (BuildConfigCompilerSpecifier, RawBuildConfigModel)|
            by_compiler_entry(entry, features),
    );
    let mut resulting_map: FinalBuildTypeOptionMap = Vec::new();
    let mut i: usize = 0;
    assert(results.take(0) =~= Seq::empty());
    assert(final_by_compiler(resulting_map@) =~= Seq::empty());
    while i < raw_by_compiler_map.len()
        invariant
            i <= raw_by_compiler_map@.len(),
            features == feature_names(valid_feature_list),
            results == raw_by_compiler(raw_by_compiler_map@).map_values(
                |entry: (BuildConfigCompilerSpecifier, RawBuildConfigModel)|
                    by_compiler_entry(entry, features),
            ),
            collect(results.take(i as int)) == Ok::<CompilerConfigs, Seq<char>>(
                final_by_compiler(resulting_map@),
            ),
        decreases raw_by_compiler_map@.len() - i,
    {
        proof {
            lemma_collect_push(results, i as int);
        }
        let compiler = raw_by_compiler_map[i].0;
        match FinalBuildConfig::make_from(&raw_by_compiler_map[i].1, valid_feature_list) {
            Err(message) => {
                proof {
                    lemma_collect_error_stays(results, i + 1);
                }
                return Err(message);
            },
            Ok(resolved) => {
                let ghost before = final_by_compiler(resulting_map@);
                let ghost model = resolved@;
                resulting_map.push((compiler, resolved));
                assert(final_by_compiler(resulting_map@) =~= before.push((compiler, model)));
            },
        }
        i += 1;
    }
    assert(results.take(i as int) =~= results);
    Ok(resulting_map)
}

/// The entries of a written by-build-type map, each with the view of its by-compiler map.
pub open spec fn raw_by_build_type<K>(map: Seq<(K, BuildTypeOptionMap)>) -> Seq<
    (K, Seq<(BuildConfigCompilerSpecifier, RawBuildConfigModel)>),
> {
    map.map_values(|entry: (K, BuildTypeOptionMap)| (entry.0, raw_by_compiler(entry.1@)))
}

/// The entries of a resolved by-build-type map, each with the view of its by-compiler map.
pub open spec fn final_by_build_type<K>(map: Seq<(K, FinalBuildTypeOptionMap)>) -> Seq<
    (K, CompilerConfigs),
> {
    map.map_values(|entry: (K, FinalBuildTypeOptionMap)| (entry.0, final_by_compiler(entry.1@)))
}

/// What one entry of a by-build-type map comes to: the same build type, with
/// the resolved by-compiler map.
pub open spec fn by_build_type_entry<K>(
    entry: (K, Seq<(BuildConfigCompilerSpecifier, RawBuildConfigModel)>),
    features: Option<Seq<Seq<char>>>,
) -> Result<(K, CompilerConfigs), Seq<char>> {
    match by_compiler_configs(entry.1, features) {
        Ok(resolved) => Ok((entry.0, resolved)),
        Err(message) => Err(message),
    }
}

/// What a by-build-type map comes to: entry for entry in the same order, or
/// the message for the first entry that is refused. A build type or a
/// compiler that has no entry has none afterwards either.
pub open spec fn by_build_type_configs<K>(
    raw: Seq<(K, Seq<(BuildConfigCompilerSpecifier, RawBuildConfigModel)>)>,
    features: Option<Seq<Seq<char>>>,
) -> Result<Seq<(K, CompilerConfigs)>, Seq<char>> {
    collect(
        raw.map_values(
            |entry: (K, Seq<(BuildConfigCompilerSpecifier, RawBuildConfigModel)>)|
                by_build_type_entry(entry, features),
        ),
    )
}

/// Resolves a map from build types of kind `K`, entry by entry.
fn resolve_by_build_type<K: Copy>(
    raw_map: &Vec<(K, BuildTypeOptionMap)>,
    valid_feature_list: Option<&Vec<&str>>,
) -> (r: Result<Vec<(K, FinalBuildTypeOptionMap)>, String>)
    ensures
        match by_build_type_configs(raw_by_build_type(raw_map@), feature_names(valid_feature_list)) {
            Ok(resolved) => r matches Ok(given) && final_by_build_type(given@) == resolved,
            Err(message) => r matches Err(given) && given@ == message,
        },
{
    let ghost features = feature_names(valid_feature_list);
    let ghost results = raw_by_build_type(raw_map@).map_values(
        |entry: (K, Seq<(BuildConfigCompilerSpecifier, RawBuildConfigModel)>)|
            by_build_type_entry(entry, features),
    );
    let mut resulting_map: Vec<(K, FinalBuildTypeOptionMap)> = Vec::new();
    let mut i: usize = 0;
    assert(results.take(0) =~= Seq::empty());
    assert(final_by_build_type(resulting_map@) =~= Seq::empty());
    while i < raw_map.len()
        invariant
            i <= raw_map@.len(),
            features == feature_names(valid_feature_list),
            results == raw_by_build_type(raw_map@).map_values(
                |entry: (K, Seq<(BuildConfigCompilerSpecifier, RawBuildConfigModel)>)|
                    by_build_type_entry(entry, features),
            ),
            collect(results.take(i as int)) == Ok::<Seq<(K, CompilerConfigs)>, Seq<char>>(
                final_by_build_type(resulting_map@),
            ),
        decreases raw_map@.len() - i,
    {
        proof {
            lemma_collect_push(results, i as int);
        }
        let build_type = raw_map[i].0;
        match make_final_by_compiler_config_map(&raw_map[i].1, valid_feature_list) {
            Err(message) => {
                proof {
                    lemma_collect_error_stays(results, i + 1);
                }
                return Err(message);
            },
            Ok(resolved) => {
                let ghost before = final_by_build_type(resulting_map@);
                let ghost model = final_by_compiler(resolved@);
                resulting_map.push((build_type, resolved));
                assert(final_by_build_type(resulting_map@) =~= before.push((build_type, model)));
            },
        }
        i += 1;
    }
    assert(results.take(i as int) =~= results);
    Ok(resulting_map)
}

/// Resolves the build configurations of a project: for each build type and
/// each compiler that has an entry, its flags and defines.
pub fn make_final_build_config_map(
    raw_build_config_map: &BuildConfigMap,
    valid_feature_list: Option<&Vec<&str>>,
) -> (r: Result<FinalBuildConfigMap, String>)
    ensures
        match by_build_type_configs(
            raw_by_build_type(raw_build_config_map@),
            feature_names(valid_feature_list),
        ) {
            Ok(resolved) => r matches Ok(given) && final_by_build_type(given@) == resolved,
            Err(message) => r matches Err(given) && given@ == message,
        },
{
    resolve_by_build_type(raw_build_config_map, valid_feature_list)
}

/// What the build configurations of one output come to; an output that
/// configures nothing has none.
pub open spec fn target_build_config(
    raw: Option<TargetBuildConfigMap>,
    features: Option<Seq<Seq<char>>>,
) -> Result<Option<Seq<(TargetSpecificBuildType, CompilerConfigs)>>, Seq<char>> {
    match raw {
        None => Ok(None),
        Some(map) => match by_build_type_configs(raw_by_build_type(map@), features) {
            Ok(resolved) => Ok(Some(resolved)),
            Err(message) => Err(message),
        },
    }
}

/// The view of the build configurations of one output.
pub open spec fn target_build_config_view(
    map: Option<FinalTargetBuildConfigMap>,
) -> Option<Seq<(TargetSpecificBuildType, CompilerConfigs)>> {
    match map {
        None => None,
        Some(entries) => Some(final_by_build_type(entries@)),
    }
}

/// Resolves the build configurations of one output. They add to those of
/// the project and replace none of them.
pub fn make_final_target_build_config(
    raw_build_config: Option<&TargetBuildConfigMap>,
    valid_feature_list: Option<&Vec<&str>>,
) -> (r: Result<Option<FinalTargetBuildConfigMap>, String>)
    ensures
        match target_build_config(
            match raw_build_config {
                Some(map) => Some(*map),
                None => None,
            },
            feature_names(valid_feature_list),
        ) {
            Ok(resolved) => r matches Ok(given) && target_build_config_view(given) == resolved,
            Err(message) => r matches Err(given) && given@ == message,
        },
{
    match raw_build_config {
        None => Ok(None),
        Some(config_map) => match resolve_by_build_type(config_map, valid_feature_list) {
            Ok(resolved) => Ok(Some(resolved)),
            Err(message) => Err(message),
        },
    }
}

/// The flags and defines of a combination for which nothing is configured.
pub open spec fn no_config() -> BuildConfigModel {
    BuildConfigModel {
        compiler_flags: Seq::empty(),
        link_time_flags: Seq::empty(),
        linker_flags: Seq::empty(),
        defines: Seq::empty(),
    }
}

/// The flags and defines of `base`, each list followed by that of `added`.
pub open spec fn overlay(base: BuildConfigModel, added: BuildConfigModel) -> BuildConfigModel {
    BuildConfigModel {
        compiler_flags: base.compiler_flags + added.compiler_flags,
        link_time_flags: base.link_time_flags + added.link_time_flags,
        linker_flags: base.linker_flags + added.linker_flags,
        defines: base.defines + added.defines,
    }
}

/// What a map configures for a build type of kind `K` and a compiler: the
/// first entry for the two, or nothing where either has no entry.
pub open spec fn configured<K>(
    map: Seq<(K, CompilerConfigs)>,
    build_type: K,
    compiler: BuildConfigCompilerSpecifier,
) -> BuildConfigModel {
    match value_under(map, build_type) {
        None => no_config(),
        Some(by_compiler) => match value_under(by_compiler, compiler) {
            None => no_config(),
            Some(config) => config,
        },
    }
}

/// The build type of one output that stands for a build type of the project.
pub open spec fn target_build_type(build_type: BuildType) -> TargetSpecificBuildType {
    match build_type {
        BuildType::Debug => TargetSpecificBuildType::Debug,
        BuildType::Release => TargetSpecificBuildType::Release,
        BuildType::MinSizeRel => TargetSpecificBuildType::MinSizeRel,
        BuildType::RelWithDebInfo => TargetSpecificBuildType::RelWithDebInfo,
    }
}

/// What an output adds for a build type and a compiler: what it configures
/// for all build types, then what it configures for this one.
pub open spec fn added_by_target(
    target: Option<Seq<(TargetSpecificBuildType, CompilerConfigs)>>,
    build_type: BuildType,
    compiler: BuildConfigCompilerSpecifier,
) -> BuildConfigModel {
    match target {
        None => no_config(),
        Some(map) => overlay(
            configured(map, TargetSpecificBuildType::AllConfigs, compiler),
            configured(map, target_build_type(build_type), compiler),
        ),
    }
}

/// The flags and defines with which an output is built for a build type and
/// a compiler: those of the project, followed by those that the output adds.
pub open spec fn config_in_effect(
    project: Seq<(BuildType, CompilerConfigs)>,
    target: Option<Seq<(TargetSpecificBuildType, CompilerConfigs)>>,
    build_type: BuildType,
    compiler: BuildConfigCompilerSpecifier,
) -> BuildConfigModel {
    overlay(configured(project, build_type, compiler), added_by_target(target, build_type, compiler))
}

/// What an output configures adds to what the project configures, and
/// replaces nothing of it: every list of the project stands at the front of
/// the list that is in effect.
pub proof fn target_config_only_adds(
    project: Seq<(BuildType, CompilerConfigs)>,
    target: Option<Seq<(TargetSpecificBuildType, CompilerConfigs)>>,
    build_type: BuildType,
    compiler: BuildConfigCompilerSpecifier,
)
    ensures
        configured(project, build_type, compiler).compiler_flags.is_prefix_of(
            config_in_effect(project, target, build_type, compiler).compiler_flags,
        ),
        configured(project, build_type, compiler).link_time_flags.is_prefix_of(
            config_in_effect(project, target, build_type, compiler).link_time_flags,
        ),
        configured(project, build_type, compiler).linker_flags.is_prefix_of(
            config_in_effect(project, target, build_type, compiler).linker_flags,
        ),
        configured(project, build_type, compiler).defines.is_prefix_of(
            config_in_effect(project, target, build_type, compiler).defines,
        ),
{
}

/// An output that configures nothing is built with what the project configures.
pub proof fn project_config_stands_alone(
    project: Seq<(BuildType, CompilerConfigs)>,
    build_type: BuildType,
    compiler: BuildConfigCompilerSpecifier,
)
    ensures
        config_in_effect(project, None, build_type, compiler) == configured(
            project,
            build_type,
            compiler,
        ),
{
    let base = configured(project, build_type, compiler);
    let both = config_in_effect(project, None, build_type, compiler);
    assert(both.compiler_flags =~= base.compiler_flags);
    assert(both.link_time_flags =~= base.link_time_flags);
    assert(both.linker_flags =~= base.linker_flags);
    assert(both.defines =~= base.defines);
}

/// The flags and defines with which an output is built, each where it was resolved.
#[derive(Debug)]
pub struct BuildConfigInEffect<'a> {
    pub compiler_flags: Vec<&'a CompilerFlag>,
    pub link_time_flags: Vec<&'a CompilerFlag>,
    pub linker_flags: Vec<&'a LinkerFlag>,
    pub defines: Vec<&'a CompilerDefine>,
}

/// The views of a list of flags.
pub open spec fn flags_of(flags: Seq<&CompilerFlag>) -> Seq<GatedText> {
    flags.map_values(|flag: &CompilerFlag| flag@)
}

/// The views of a list of defines.
pub open spec fn defines_of(defines: Seq<&CompilerDefine>) -> Seq<GatedText> {
    defines.map_values(|define: &CompilerDefine| define@)
}

impl<'a> View for BuildConfigInEffect<'a> {
    type V = BuildConfigModel;

    open spec fn view(&self) -> BuildConfigModel {
        BuildConfigModel {
            compiler_flags: flags_of(self.compiler_flags@),
            link_time_flags: flags_of(self.link_time_flags@),
            linker_flags: flags_of(self.linker_flags@),
            defines: defines_of(self.defines@),
        }
    }
}

/// Appends each of `flags` to `out`.
fn append_flags<'a>(out: &mut Vec<&'a CompilerFlag>, flags: &'a Vec<CompilerFlag>)
    ensures
        flags_of(final(out)@) == flags_of(old(out)@) + views(flags@),
{
    let ghost before = flags_of(out@);
    let mut i: usize = 0;
    assert(before + views(flags@).take(0) =~= before);
    while i < flags.len()
        invariant
            i <= flags@.len(),
            flags_of(out@) == before + views(flags@).take(i as int),
        decreases flags@.len() - i,
    {
        let ghost so_far = flags_of(out@);
        out.push(&flags[i]);
        assert(flags_of(out@) =~= so_far.push(flags@[i as int]@));
        assert(views(flags@).take(i + 1) =~= views(flags@).take(i as int).push(
            flags@[i as int]@,
        ));
        assert(flags_of(out@) =~= before + views(flags@).take(i + 1));
        i += 1;
    }
    assert(views(flags@).take(i as int) =~= views(flags@));
}

/// Appends each of `defines` to `out`.
fn append_defines<'a>(out: &mut Vec<&'a CompilerDefine>, defines: &'a Vec<CompilerDefine>)
    ensures
        defines_of(final(out)@) == defines_of(old(out)@) + views(defines@),
{
    let ghost before = defines_of(out@);
    let mut i: usize = 0;
    assert(before + views(defines@).take(0) =~= before);
    while i < defines.len()
        invariant
            i <= defines@.len(),
            defines_of(out@) == before + views(defines@).take(i as int),
        decreases defines@.len() - i,
    {
        let ghost so_far = defines_of(out@);
        out.push(&defines[i]);
        assert(defines_of(out@) =~= so_far.push(defines@[i as int]@));
        assert(views(defines@).take(i + 1) =~= views(defines@).take(i as int).push(
            defines@[i as int]@,
        ));
        assert(defines_of(out@) =~= before + views(defines@).take(i + 1));
        i += 1;
    }
    assert(views(defines@).take(i as int) =~= views(defines@));
}

/// The first entry of `map` for the compiler `compiler`.
pub fn find_compiler_config<'a>(
    map: &'a FinalBuildTypeOptionMap,
    compiler: BuildConfigCompilerSpecifier,
) -> (r: Option<&'a FinalBuildConfig>)
    ensures
        match value_under(final_by_compiler(map@), compiler) {
            Some(config) => r matches Some(found) && found@ == config,
            None => r is None,
        },
{
    let ghost all = final_by_compiler(map@);
    let mut i: usize = 0;
    assert(all.skip(0) =~= all);
    while i < map.len()
        invariant
            i <= map@.len(),
            all == final_by_compiler(map@),
            value_under(all, compiler) == value_under(all.skip(i as int), compiler),
        decreases map@.len() - i,
    {
        assert(all.skip(i as int)[0] == all[i as int]);
        if map[i].0 == compiler {
            return Some(&map[i].1);
        }
        assert(all.skip(i as int).drop_first() =~= all.skip(i + 1));
        i += 1;
    }
    None
}

/// The first entry of `map` for the build type `build_type`.
pub fn find_build_type_config<'a>(map: &'a Vec<(BuildType, FinalBuildTypeOptionMap)>, build_type: BuildType) -> (r: Option<
    &'a FinalBuildTypeOptionMap,
>)
    ensures
        match value_under(final_by_build_type(map@), build_type) {
            Some(by_compiler) => r matches Some(found) && final_by_compiler(found@) == by_compiler,
            None => r is None,
        },
{
    let ghost all = final_by_build_type(map@);
    let mut i: usize = 0;
    assert(all.skip(0) =~= all);
    while i < map.len()
        invariant
            i <= map@.len(),
            all == final_by_build_type(map@),
            value_under(all, build_type) == value_under(all.skip(i as int), build_type),
        decreases map@.len() - i,
    {
        assert(all.skip(i as int)[0] == all[i as int]);
        if map[i].0 == build_type {
            return Some(&map[i].1);
        }
        assert(all.skip(i as int).drop_first() =~= all.skip(i + 1));
        i += 1;
    }
    None
}

/// The first entry of `map` for the build type `build_type`.
pub fn find_target_build_type_config<'a>(map: &'a Vec<(TargetSpecificBuildType, FinalBuildTypeOptionMap)>, build_type: TargetSpecificBuildType) -> (r: Option<
    &'a FinalBuildTypeOptionMap,
>)
    ensures
        match value_under(final_by_build_type(map@), build_type) {
            Some(by_compiler) => r matches Some(found) && final_by_compiler(found@) == by_compiler,
            None => r is None,
        },
{
    let ghost all = final_by_build_type(map@);
    let mut i: usize = 0;
    assert(all.skip(0) =~= all);
    while i < map.len()
        invariant
            i <= map@.len(),
            all == final_by_build_type(map@),
            value_under(all, build_type) == value_under(all.skip(i as int), build_type),
        decreases map@.len() - i,
    {
        assert(all.skip(i as int)[0] == all[i as int]);
        if map[i].0 == build_type {
            return Some(&map[i].1);
        }
        assert(all.skip(i as int).drop_first() =~= all.skip(i + 1));
        i += 1;
    }
    None
}

impl<'a> BuildConfigInEffect<'a> {
    /// No flags and no defines.
    pub fn new_empty() -> (r: Self)
        ensures
            r@ == no_config(),
    {
        let r = Self {
            compiler_flags: Vec::new(),
            link_time_flags: Vec::new(),
            linker_flags: Vec::new(),
            defines: Vec::new(),
        };
        assert(r@.compiler_flags =~= Seq::empty() && r@.link_time_flags =~= Seq::empty()
            && r@.linker_flags =~= Seq::empty() && r@.defines =~= Seq::empty());
        r
    }

    /// Appends the flags and defines of `config`, where there is one.
    fn add(self, config: Option<&'a FinalBuildConfig>) -> (r: Self)
        ensures
            r@ == overlay(
                self@,
                match config {
                    Some(given) => given@,
                    None => no_config(),
                },
            ),
    {
        let mut r = self;
        match config {
            None => {
                assert(r@.compiler_flags + Seq::<GatedText>::empty() =~= r@.compiler_flags);
                assert(r@.link_time_flags + Seq::<GatedText>::empty() =~= r@.link_time_flags);
                assert(r@.linker_flags + Seq::<GatedText>::empty() =~= r@.linker_flags);
                assert(r@.defines + Seq::<GatedText>::empty() =~= r@.defines);
            },
            Some(given) => {
                let mut compiler_flags = r.compiler_flags;
                let mut link_time_flags = r.link_time_flags;
                let mut linker_flags = r.linker_flags;
                let mut defines = r.defines;
                append_flags(&mut compiler_flags, &given.compiler_flags);
                append_flags(&mut link_time_flags, &given.link_time_flags);
                append_flags(&mut linker_flags, &given.linker_flags);
                append_defines(&mut defines, &given.defines);
                r = Self { compiler_flags, link_time_flags, linker_flags, defines };
            },
        }
        r
    }
}

/// What `map` has for the compiler `compiler`, where `map` is there.
fn compiler_entry<'a>(
    map: Option<&'a FinalBuildTypeOptionMap>,
    compiler: BuildConfigCompilerSpecifier,
) -> (r: Option<&'a FinalBuildConfig>)
    ensures
        match map {
            None => r is None,
            Some(given) => match value_under(final_by_compiler(given@), compiler) {
                Some(config) => r matches Some(found) && found@ == config,
                None => r is None,
            },
        },
{
    match map {
        None => None,
        Some(given) => find_compiler_config(given, compiler),
    }
}

/// The flags and defines with which an output is built for a build type
/// and a compiler: those that the project configures for the two, then
/// those that the output configures for all build types, then those that
/// the output configures for this build type.
pub fn build_config_in_effect<'a>(
    project_map: &'a FinalBuildConfigMap,
    target_map: Option<&'a FinalTargetBuildConfigMap>,
    build_type: BuildType,
    compiler: BuildConfigCompilerSpecifier,
) -> (r: BuildConfigInEffect<'a>)
    ensures
        r@ == config_in_effect(
            final_by_build_type(project_map@),
            match target_map {
                Some(map) => Some(final_by_build_type(map@)),
                None => None,
            },
            build_type,
            compiler,
        ),
{
    let of_project = compiler_entry(
        find_build_type_config(project_map, build_type),
        compiler,
    );
    let in_effect = BuildConfigInEffect::new_empty().add(of_project);
    let ghost base = in_effect@;
    assert(base.compiler_flags =~= configured(
        final_by_build_type(project_map@),
        build_type,
        compiler,
    ).compiler_flags && base.link_time_flags =~= configured(
        final_by_build_type(project_map@),
        build_type,
        compiler,
    ).link_time_flags && base.linker_flags =~= configured(
        final_by_build_type(project_map@),
        build_type,
        compiler,
    ).linker_flags && base.defines =~= configured(
        final_by_build_type(project_map@),
        build_type,
        compiler,
    ).defines);
    match target_map {
        None => {
            proof {
                project_config_stands_alone(final_by_build_type(project_map@), build_type, compiler);
            }
            in_effect
        },
        Some(map) => {
            let wanted = match build_type {
                BuildType::Debug => TargetSpecificBuildType::Debug,
                BuildType::Release => TargetSpecificBuildType::Release,
                BuildType::MinSizeRel => TargetSpecificBuildType::MinSizeRel,
                BuildType::RelWithDebInfo => TargetSpecificBuildType::RelWithDebInfo,
            };
            let for_all = compiler_entry(
                find_target_build_type_config(map, TargetSpecificBuildType::AllConfigs),
                compiler,
            );
            let for_this = compiler_entry(
                find_target_build_type_config(map, wanted),
                compiler,
            );
            let r = in_effect.add(for_all).add(for_this);
            proof {
                let target = final_by_build_type(map@);
                let first = configured(target, TargetSpecificBuildType::AllConfigs, compiler);
                let second = configured(target, wanted, compiler);
                let goal = overlay(base, overlay(first, second));
                assert(r@.compiler_flags =~= goal.compiler_flags);
                assert(r@.link_time_flags =~= goal.link_time_flags);
                assert(r@.linker_flags =~= goal.linker_flags);
                assert(r@.defines =~= goal.defines);
            }
            r
        },
    }
}

/// Properties that hold for a whole project tree.
#[derive(Debug, Clone, PartialEq, Eq)]
pub struct FinalGlobalProperties {
    pub ipo_enabled_by_default: bool,
    pub default_compiled_lib_type: DefaultCompiledLibType,
}

impl FinalGlobalProperties {
    /// Fills in what was not written: no interprocedural optimization, and
    /// shared libraries.
    pub fn from_raw(raw_global_properties: &RawGlobalPropertyConfig) -> (r: Self)
        ensures
            r.ipo_enabled_by_default == match raw_global_properties.ipo_enabled_by_default {
                Some(enabled) => enabled,
                None => false,
            },
            r.default_compiled_lib_type == match raw_global_properties.default_compiled_lib_type {
                Some(kind) => kind,
                None => DefaultCompiledLibType::Shared,
            },
    {
        Self {
            ipo_enabled_by_default: match raw_global_properties.ipo_enabled_by_default {
                Some(enabled) => enabled,
                None => false,
            },
            default_compiled_lib_type: match raw_global_properties.default_compiled_lib_type {
                Some(kind) => kind,
                None => DefaultCompiledLibType::Shared,
            },
        }
    }
}

/// One build output of a project.
#[derive(Debug, PartialEq, Eq)]
pub struct CompiledOutputItem {
    pub output_type: OutputItemType,
    pub entry_file: String,
    pub links: OutputItemLinks,
    /// A path relative to the root directory of the root project, which is
    /// not always the project that holds the output.
    pub windows_icon_relative_to_root_project: Option<String>,
    pub emscripten_html_shell_relative_to_project_root: Option<String>,
    pub build_config: Option<FinalTargetBuildConfigMap>,
    pub system_specifier: SystemSpecifierWrapper,
    pub requires_custom_main: bool,
}

/// The mathematical form of a `CompiledOutputItem`.
pub ghost struct OutputItemModel {
    pub output_type: OutputItemType,
    pub entry_file: Seq<char>,
    pub links: LinksModel,
    pub windows_icon: Option<Seq<char>>,
    pub emscripten_html_shell: Option<Seq<char>>,
    pub build_config: Option<Seq<(TargetSpecificBuildType, CompilerConfigs)>>,
    pub gate: Option<GateExpression>,
    pub requires_custom_main: bool,
}

impl View for CompiledOutputItem {
    type V = OutputItemModel;

    open spec fn view(&self) -> OutputItemModel {
        OutputItemModel {
            output_type: self.output_type,
            entry_file: self.entry_file@,
            links: self.links@,
            windows_icon: maybe_text(self.windows_icon_relative_to_root_project),
            emscripten_html_shell: maybe_text(self.emscripten_html_shell_relative_to_project_root),
            build_config: target_build_config_view(self.build_config),
            gate: self.system_specifier@,
            requires_custom_main: self.requires_custom_main,
        }
    }
}

/// The links of an output that may have no link section: it then links nothing.
pub open spec fn maybe_link_map(
    output_type: OutputItemType,
    raw_links: Option<LinkSection>,
    features: Option<Seq<Seq<char>>>,
) -> Result<LinksModel, Seq<char>> {
    match raw_links {
        Some(section) => link_map(output_type, section@, features),
        None => Ok(no_links()),
    }
}

/// What a written output comes to under the condition `gate`. Its build
/// configuration is resolved before its links, so a fault in the first is
/// the one reported. An output for which no custom main was asked has none.
pub open spec fn output_item(
    raw: RawCompiledItem,
    gate: Option<GateExpression>,
    features: Option<Seq<Seq<char>>>,
) -> Result<OutputItemModel, Seq<char>> {
    match target_build_config(raw.build_config, features) {
        Err(message) => Err(message),
        Ok(build_config) => match maybe_link_map(raw.output_type, raw.link, features) {
            Err(message) => Err(message),
            Ok(links) => Ok(
                OutputItemModel {
                    output_type: raw.output_type,
                    entry_file: raw.entry_file@,
                    links,
                    windows_icon: maybe_text(raw.windows_icon),
                    emscripten_html_shell: maybe_text(raw.emscripten_html_shell),
                    build_config,
                    gate,
                    requires_custom_main: match raw.requires_custom_main {
                        Some(required) => required,
                        None => false,
                    },
                },
            ),
        },
    }
}

/// The path under which the export header of `target_name` is included.
pub open spec fn export_header_path(full_include_prefix: Seq<char>, target_name: Seq<char>) -> Seq<
    char,
> {
    full_include_prefix + "/"@ + target_name + "_export.h"@
}

/// The export macro of a target: its name and `_EXPORT` in upper case, with
/// an underscore in place of each blank and each hyphen.
pub open spec fn export_macro(target_name: Seq<char>) -> Seq<char> {
    with_underscores(uppercase_of(target_name + "_EXPORT"@))
}

/// Reads one list of links.
fn parse_links(link_strings: &Vec<String>, valid_feature_list: Option<&Vec<&str>>) -> (r: Result<
    Vec<LinkSpecifier>,
    String,
>)
    ensures
        renders_all(
            r,
            parsed_links(strings_of(link_strings@), feature_names(valid_feature_list)),
        ),
{
    let mut links: Vec<LinkSpecifier> = Vec::new();
    assert(views(links@) =~= Seq::empty());
    match parse_all_links_into(link_strings, &mut links, valid_feature_list) {
        Err(message) => Err(message),
        Ok(()) => {
            assert(Seq::<LinkModel>::empty() + views(links@) =~= views(links@));
            Ok(links)
        },
    }
}

/// Reads one list of links that may be absent.
fn parse_maybe_links(
    link_strings: &Option<Vec<String>>,
    valid_feature_list: Option<&Vec<&str>>,
) -> (r: Result<Vec<LinkSpecifier>, String>)
    ensures
        renders_all(
            r,
            maybe_parsed_links(maybe_strings_of(*link_strings), feature_names(valid_feature_list)),
        ),
{
    match link_strings {
        Some(given) => parse_links(given, valid_feature_list),
        None => {
            let none: Vec<LinkSpecifier> = Vec::new();
            assert(views(none@) =~= Seq::empty());
            Ok(none)
        },
    }
}

impl CompiledOutputItem {
    /// The path under which the export header of a target is included.
    pub fn export_macro_header_include_path(full_include_prefix: &str, target_name: &str) -> (r:
        String)
        ensures
            r@ == export_header_path(full_include_prefix@, target_name@),
    {
        let mut path = String::from_str(full_include_prefix);
        path.append("/");
        path.append(target_name);
        path.append("_export.h");
        path
    }

    /// The export macro of a target.
    pub fn str_export_macro(target_name: &str) -> (r: String)
        ensures
            r@ == export_macro(target_name@),
    {
        let mut name = String::from_str(target_name);
        name.append("_EXPORT");
        let upper = to_uppercase(name.as_str());
        underscore_separators(upper.as_str())
    }

    /// Sorts the links of an output by visibility and reads each of them.
    /// Which link sections an output may have depends on its kind.
    pub fn make_link_map(
        _output_name: &str,
        output_type: &OutputItemType,
        raw_links: &LinkSection,
        valid_feature_list: Option<&Vec<&str>>,
    ) -> (r: Result<OutputItemLinks, String>)
        ensures
            renders(r, link_map(*output_type, raw_links@, feature_names(valid_feature_list))),
    {
        match output_type {
            OutputItemType::Executable => match raw_links {
                LinkSection::PublicPrivateCategorized { .. } => Err(
                    String::from_str(
                        "Links given to an executable should not be categorized as public: or private:, however the links provided to this executable are categorized. Please remove the 'public:' and/or 'private:' keys.",
                    ),
                ),
                LinkSection::Uncategorized(link_strings) => match parse_links(
                    link_strings,
                    valid_feature_list,
                ) {
                    Err(message) => Err(message),
                    Ok(links) => {
                        let r = OutputItemLinks {
                            cmake_public: Vec::new(),
                            cmake_interface: Vec::new(),
                            cmake_private: links,
                        };
                        assert(r@.public =~= Seq::empty() && r@.interface =~= Seq::empty());
                        Ok(r)
                    },
                },
            },
            OutputItemType::HeaderOnlyLib => match raw_links {
                LinkSection::PublicPrivateCategorized { .. } => Err(
                    String::from_str(
                        "Links given to header-only library should not be categorized as public: or private:, however the links provided to this header-only library are categorized. Please remove the 'public:' and/or 'private:' keys.",
                    ),
                ),
                LinkSection::Uncategorized(link_strings) => match parse_links(
                    link_strings,
                    valid_feature_list,
                ) {
                    Err(message) => Err(message),
                    Ok(links) => {
                        let r = OutputItemLinks {
                            cmake_public: Vec::new(),
                            cmake_interface: links,
                            cmake_private: Vec::new(),
                        };
                        assert(r@.public =~= Seq::empty() && r@.private =~= Seq::empty());
                        Ok(r)
                    },
                },
            },
            _ => match raw_links {
                LinkSection::Uncategorized(_) => Err(
                    String::from_str(
                        "Links given to a compiled library should be categorized into public: and/or private: lists. However, the links given to output were provided as a single list. See the docs for information on categorizing compiled library links.",
                    ),
                ),
                LinkSection::PublicPrivateCategorized { public, private } => {
                    let public_links = match parse_maybe_links(public, valid_feature_list) {
                        Err(message) => {
                            return Err(message);
                        },
                        Ok(links) => links,
                    };
                    let private_links = match parse_maybe_links(private, valid_feature_list) {
                        Err(message) => {
                            return Err(message);
                        },
                        Ok(links) => links,
                    };
                    let r = OutputItemLinks {
                        cmake_public: public_links,
                        cmake_interface: Vec::new(),
                        cmake_private: private_links,
                    };
                    assert(r@.interface =~= Seq::empty());
                    Ok(r)
                },
            },
        }
    }

    /// Resolves one written output. `maybe_system_specifier` is the condition
    /// under which the output exists; without one it exists everywhere.
    pub fn make_from(
        output_name: &str,
        raw_output_item: &RawCompiledItem,
        maybe_system_specifier: Option<SystemSpecifierWrapper>,
        valid_feature_list: Option<&Vec<&str>>,
    ) -> (r: Result<CompiledOutputItem, String>)
        ensures
            renders(
                r,
                output_item(
                    *raw_output_item,
                    match maybe_system_specifier {
                        Some(gate) => gate@,
                        None => None,
                    },
                    feature_names(valid_feature_list),
                ),
            ),
    {
        let build_config = match make_final_target_build_config(
            match &raw_output_item.build_config {
                Some(map) => Some(map),
                None => None,
            },
            valid_feature_list,
        ) {
            Err(message) => {
                return Err(message);
            },
            Ok(resolved) => resolved,
        };
        let links = match &raw_output_item.link {
            None => OutputItemLinks::new_empty(),
            Some(raw_links) => match Self::make_link_map(
                output_name,
                &raw_output_item.output_type,
                raw_links,
                valid_feature_list,
            ) {
                Err(message) => {
                    return Err(message);
                },
                Ok(resolved) => resolved,
            },
        };
        Ok(
            CompiledOutputItem {
                output_type: raw_output_item.output_type,
                entry_file: raw_output_item.entry_file.clone(),
                links,
                system_specifier: match maybe_system_specifier {
                    Some(gate) => gate,
                    None => SystemSpecifierWrapper::default_include_all(),
                },
                windows_icon_relative_to_root_project: copy_text(&raw_output_item.windows_icon),
                emscripten_html_shell_relative_to_project_root: copy_text(
                    &raw_output_item.emscripten_html_shell,
                ),
                build_config,
                requires_custom_main: match raw_output_item.requires_custom_main {
                    Some(required) => required,
                    None => false,
                },
            },
        )
    }

    /// The links of the output.
    pub fn get_links(&self) -> (r: &OutputItemLinks)
        ensures
            r@ == self@.links,
    {
        &self.links
    }

    /// The build configurations of the output, if it has any of its own.
    pub fn get_build_config_map(&self) -> (r: &Option<FinalTargetBuildConfigMap>)
        ensures
            target_build_config_view(*r) == self@.build_config,
    {
        &self.build_config
    }

    /// The file at which the output starts.
    pub fn get_entry_file(&self) -> (r: &str)
        ensures
            r@ == self@.entry_file,
    {
        self.entry_file.as_str()
    }

    /// The kind of the output.
    pub fn get_output_type(&self) -> (r: &OutputItemType)
        ensures
            *r == self@.output_type,
    {
        &self.output_type
    }

    /// Whether the output is a library of headers alone.
    pub fn is_header_only_type(&self) -> (r: bool)
        ensures
            r == (self@.output_type == OutputItemType::HeaderOnlyLib),
    {
        self.output_type == OutputItemType::HeaderOnlyLib
    }

    /// Whether the output is a library that is compiled.
    pub fn is_compiled_library_type(&self) -> (r: bool)
        ensures
            r == (self@.output_type == OutputItemType::CompiledLib || self@.output_type
                == OutputItemType::SharedLib || self@.output_type == OutputItemType::StaticLib),
    {
        match self.output_type {
            OutputItemType::CompiledLib | OutputItemType::SharedLib | OutputItemType::StaticLib => true,
            _ => false,
        }
    }

    /// Whether the output is a library of any kind.
    pub fn is_library_type(&self) -> (r: bool)
        ensures
            r == (self@.output_type != OutputItemType::Executable),
    {
        match self.output_type {
            OutputItemType::CompiledLib
            | OutputItemType::SharedLib
            | OutputItemType::StaticLib
            | OutputItemType::HeaderOnlyLib => true,
            OutputItemType::Executable => false,
        }
    }

    /// Whether the output is an executable.
    pub fn is_executable_type(&self) -> (r: bool)
        ensures
            r == (self@.output_type == OutputItemType::Executable),
    {
        match self.output_type {
            OutputItemType::Executable => true,
            _ => false,
        }
    }
}

/// A shortcut that an installer creates.
#[derive(Debug, Clone, PartialEq, Eq)]
pub struct FinalShortcutConfig {
    pub shortcut_name: String,
}

impl From<RawShortcutConfig> for FinalShortcutConfig {
    fn from(raw_config: RawShortcutConfig) -> (r: Self) {
        Self { shortcut_name: raw_config.name }
    }
}

impl vstd::std_specs::convert::FromSpecImpl<RawShortcutConfig> for FinalShortcutConfig {
    open spec fn obeys_from_spec() -> bool {
        true
    }

    open spec fn from_spec(raw_config: RawShortcutConfig) -> Self {
        Self { shortcut_name: raw_config.name }
    }
}

/// What an installer of the project shows and creates. A shortcut is found
/// by the name of the output that it starts; the first entry for a name counts.
#[derive(Debug)]
pub struct FinalInstallerConfig {
    pub title: String,
    pub description: String,
    pub name_prefix: String,
    pub shortcuts: Vec<(String, FinalShortcutConfig)>,
}

/// What runs before a project is built.
#[derive(Debug)]
pub enum PreBuildScript {
    Exe(CompiledOutputItem),
    Python(String),
}

/// A feature that another feature switches on: one of the same project, or
/// one of the dependency `dep_name`.
#[derive(Debug, Hash, PartialEq, Eq, PartialOrd, Ord, Clone)]
pub struct FinalFeatureEnabler {
    pub dep_name: Option<String>,
    pub feature_name: String,
}

/// The mathematical form of a `FinalFeatureEnabler`.
pub ghost struct EnablerModel {
    pub dep_name: Option<Seq<char>>,
    pub feature_name: Seq<char>,
}

impl View for FinalFeatureEnabler {
    type V = EnablerModel;

    open spec fn view(&self) -> EnablerModel {
        EnablerModel { dep_name: maybe_text(self.dep_name), feature_name: self.feature_name@ }
    }
}

/// Whether `at` is the index of the first `/` of `s`.
pub open spec fn is_first_slash(s: Seq<char>, at: int) -> bool {
    &&& 0 <= at < s.len()
    &&& s[at] == '/'
    &&& forall|i: int| 0 <= i < at ==> s[i] != '/'
}

/// The index of the first `/` of `s`.
pub open spec fn first_slash(s: Seq<char>) -> int {
    choose|at: int| is_first_slash(s, at)
}

/// The message for a text that is no feature enabler.
pub open spec fn enabler_format_message(s: Seq<char>) -> Seq<char> {
    "\""@ + s + "\" is not in valid feature enabler format."@
}

/// What a text comes to as a feature enabler. Without `/` it names a
/// feature of the same project; with one `/` it names a dependency, before
/// the `/`, and a feature of it, behind; with more than one it is refused.
pub open spec fn enabler(s: Seq<char>) -> Result<EnablerModel, Seq<char>> {
    if !s.contains('/') {
        Ok(EnablerModel { dep_name: None, feature_name: s })
    } else if s.skip(first_slash(s) + 1).contains('/') {
        Err(enabler_format_message(s))
    } else {
        Ok(
            EnablerModel {
                dep_name: Some(s.take(first_slash(s))),
                feature_name: s.skip(first_slash(s) + 1),
            },
        )
    }
}

/// Whether the enabler `a` stands before `b`: by dependency first, an
/// enabler without dependency before any with one, then by feature name.
pub open spec fn enabler_precedes(a: EnablerModel, b: EnablerModel) -> bool {
    match (a.dep_name, b.dep_name) {
        (None, None) => precedes(a.feature_name, b.feature_name),
        (None, Some(_)) => true,
        (Some(_), None) => false,
        (Some(first), Some(second)) => precedes(first, second) || (first == second && precedes(
            a.feature_name,
            b.feature_name,
        )),
    }
}

/// Whether each enabler of `list` stands before the one that follows it.
pub open spec fn strictly_ordered(list: Seq<EnablerModel>) -> bool {
    forall|i: int| 0 <= i < list.len() - 1 ==> enabler_precedes(#[trigger] list[i], list[i + 1])
}

/// Of two enablers one stands before the other, or they are the same.
pub proof fn lemma_enabler_order_total(a: EnablerModel, b: EnablerModel)
    ensures
        enabler_precedes(a, b) || enabler_precedes(b, a) || a == b,
{
    lemma_precedes_total(a.feature_name, b.feature_name);
    match (a.dep_name, b.dep_name) {
        (Some(first), Some(second)) => {
            lemma_precedes_total(first, second);
        },
        _ => {},
    }
}

/// Index of the first `/` of `chars` at or after `from`.
fn find_slash(chars: &Vec<char>, from: usize) -> (r: Option<usize>)
    requires
        from <= chars@.len(),
    ensures
        match r {
            Some(at) => from <= at < chars@.len() && chars@[at as int] == '/' && forall|i: int|
                from <= i < at ==> chars@[i] != '/',
            None => forall|i: int| from <= i < chars@.len() ==> chars@[i] != '/',
        },
{
    let mut i: usize = from;
    while i < chars.len()
        invariant
            from <= i <= chars@.len(),
            forall|j: int| from <= j < i ==> chars@[j] != '/',
        decreases chars@.len() - i,
    {
        if chars[i] == '/' {
            return Some(i);
        }
        i += 1;
    }
    None
}

impl FinalFeatureEnabler {
    /// Reads a feature enabler: `feature`, or `dependency/feature`.
    pub fn make_from(feature_spec: &str) -> (r: Result<Self, String>)
        ensures
            renders(r, enabler(feature_spec@)),
    {
        let chars = chars_of(feature_spec);
        let total: usize = chars.len();
        let ghost s = feature_spec@;
        match find_slash(&chars, 0) {
            None => Ok(
                FinalFeatureEnabler { dep_name: None, feature_name: String::from_str(feature_spec) },
            ),
            Some(at) => {
                proof {
                    assert(is_first_slash(s, at as int));
                    let chosen = first_slash(s);
                    assert(is_first_slash(s, chosen));
                    assert(chosen == at) by {
                        if chosen < at {
                            assert(s[chosen] != '/');
                        } else if at < chosen {
                            assert(s[at as int] != '/');
                        }
                    }
                    assert(s.contains('/'));
                }
                match find_slash(&chars, at + 1) {
                    Some(second) => {
                        proof {
                            assert(s.skip(at + 1)[second - (at + 1)] == '/');
                        }
                        let mut message = String::from_str("\"");
                        message.append(feature_spec);
                        message.append("\" is not in valid feature enabler format.");
                        Err(message)
                    },
                    None => {
                        proof {
                            let behind = s.skip(at + 1);
                            assert forall|i: int| 0 <= i < behind.len() implies behind[i]
                                != '/' by {
                                assert(behind[i] == s[at + 1 + i]);
                            }
                            assert(s.take(at as int) == s.subrange(0, at as int));
                            assert(behind == s.subrange(at + 1, s.len() as int));
                        }
                        Ok(
                            FinalFeatureEnabler {
                                dep_name: Some(cut(feature_spec, 0, at)),
                                feature_name: cut(feature_spec, at + 1, chars.len()),
                            },
                        )
                    },
                }
            },
        }
    }

    /// Whether this enabler stands before `other` in the order of enablers.
    pub fn stands_before(&self, other: &FinalFeatureEnabler) -> (r: bool)
        ensures
            r == enabler_precedes(self@, other@),
    {
        let own_feature = chars_of(self.feature_name.as_str());
        let other_feature = chars_of(other.feature_name.as_str());
        match (&self.dep_name, &other.dep_name) {
            (None, None) => text_precedes(&own_feature, &other_feature),
            (None, Some(_)) => true,
            (Some(_), None) => false,
            (Some(first), Some(second)) => {
                let own_dep = chars_of(first.as_str());
                let other_dep = chars_of(second.as_str());
                text_precedes(&own_dep, &other_dep) || (chars_equal(&own_dep, &other_dep)
                    && text_precedes(&own_feature, &other_feature))
            },
        }
    }

    /// Whether this enabler names the same feature as `other`.
    pub fn is_same_as(&self, other: &FinalFeatureEnabler) -> (r: bool)
        ensures
            r == (self@ == other@),
    {
        let own_feature = chars_of(self.feature_name.as_str());
        let other_feature = chars_of(other.feature_name.as_str());
        let same_dep = match (&self.dep_name, &other.dep_name) {
            (None, None) => true,
            (Some(first), Some(second)) => {
                let own_dep = chars_of(first.as_str());
                let other_dep = chars_of(second.as_str());
                chars_equal(&own_dep, &other_dep)
            },
            _ => false,
        };
        same_dep && chars_equal(&own_feature, &other_feature)
    }
}

/// A feature of a project: whether it is on by default, and the features
/// that it switches on, each once and in the order of enablers.
#[derive(Debug, Clone, PartialEq, Eq)]
pub struct FinalFeatureConfig {
    pub is_enabled_by_default: bool,
    pub enables: Vec<FinalFeatureEnabler>,
}

/// What the written enablers of a feature come to, one by one.
pub open spec fn enablers(list: Option<Seq<Seq<char>>>) -> Result<Seq<EnablerModel>, Seq<char>> {
    match list {
        None => Ok(Seq::empty()),
        Some(written) => collect(written.map_values(|s: Seq<char>| enabler(s))),
    }
}

/// Puts `item` at its place in the ordered list `list`, unless the list holds it.
fn insert_in_order(list: &mut Vec<FinalFeatureEnabler>, item: FinalFeatureEnabler)
    requires
        strictly_ordered(views(old(list)@)),
    ensures
        strictly_ordered(views(final(list)@)),
        forall|e: EnablerModel|
            views(final(list)@).contains(e) <==> (views(old(list)@).contains(e) || e == item@),
{
    let ghost before = views(list@);
    let mut i: usize = 0;
    while i < list.len() && list[i].stands_before(&item)
        invariant
            i <= list@.len(),
            forall|j: int| 0 <= j < i ==> enabler_precedes(#[trigger] views(list@)[j], item@),
        decreases list@.len() - i,
    {
        i += 1;
    }
    if i < list.len() && list[i].is_same_as(&item) {
        assert(before[i as int] == item@);
        return ;
    }
    let ghost model = item@;
    list.insert(i, item);
    proof {
        let after = views(list@);
        assert(after =~= before.insert(i as int, model));
        if i < before.len() {
            lemma_enabler_order_total(before[i as int], model);
        }
        assert forall|j: int| 0 <= j < after.len() - 1 implies enabler_precedes(
            #[trigger] after[j],
            after[j + 1],
        ) by {
            if j + 1 < i {
                assert(after[j] == before[j] && after[j + 1] == before[j + 1]);
            } else if j + 1 == i {
                assert(after[j] == before[j]);
            } else if j == i {
                assert(after[j + 1] == before[j]);
            } else {
                assert(after[j] == before[j - 1] && after[j + 1] == before[j]);
            }
        }
        assert forall|e: EnablerModel| after.contains(e) <==> (before.contains(e) || e
            == model) by {
            if after.contains(e) {
                let k = choose|k: int| 0 <= k < after.len() && after[k] == e;
                if k < i {
                    assert(before[k] == e);
                } else if k > i {
                    assert(before[k - 1] == e);
                }
            }
            if before.contains(e) {
                let k = choose|k: int| 0 <= k < before.len() && before[k] == e;
                if k < i {
                    assert(after[k] == e);
                } else {
                    assert(after[k + 1] == e);
                }
            }
            if e == model {
                assert(after[i as int] == e);
            }
        }
    }
}

impl FinalFeatureConfig {
    /// Whether the enablers stand in order, each once.
    pub open spec fn is_ordered(&self) -> bool {
        strictly_ordered(views(self.enables@))
    }

    /// Resolves a written feature. The enablers are read in the order in
    /// which they were written; the first that is refused refuses the feature.
    pub fn make_from(raw_feature_config: RawFeatureConfig) -> (r: Result<Self, String>)
        ensures
            match enablers(maybe_strings_of(raw_feature_config.enables)) {
                Err(message) => r matches Err(given) && given@ == message,
                Ok(read) => {
                    &&& r matches Ok(config)
                    &&& config.is_enabled_by_default == raw_feature_config.default
                    &&& config.is_ordered()
                    &&& forall|e: EnablerModel|
                        views(config.enables@).contains(e) <==> read.contains(e)
                },
            },
    {
        let mut enables: Vec<FinalFeatureEnabler> = Vec::new();
        assert(views(enables@) =~= Seq::empty());
        match &raw_feature_config.enables {
            None => {},
            Some(written) => {
                let ghost results = strings_of(written@).map_values(|s: Seq<char>| enabler(s));
                let mut i: usize = 0;
                assert(results.take(0) =~= Seq::empty());
                while i < written.len()
                    invariant
                        i <= written@.len(),
                        maybe_strings_of(raw_feature_config.enables) == Some(
                            strings_of(written@),
                        ),
                        results == strings_of(written@).map_values(|s: Seq<char>| enabler(s)),
                        strictly_ordered(views(enables@)),
                        collect(results.take(i as int)) matches Ok(read) && forall|e: EnablerModel|
                            views(enables@).contains(e) <==> read.contains(e),
                    decreases written@.len() - i,
                {
                    let ghost read = collect(results.take(i as int))->Ok_0;
                    proof {
                        lemma_collect_push(results, i as int);
                    }
                    match FinalFeatureEnabler::make_from(written[i].as_str()) {
                        Err(message) => {
                            proof {
                                lemma_collect_error_stays(results, i + 1);
                            }
                            return Err(message);
                        },
                        Ok(item) => {
                            let ghost model = item@;
                            insert_in_order(&mut enables, item);
                            proof {
                                let grown = read.push(model);
                                assert forall|e: EnablerModel|
                                    views(enables@).contains(e) <==> grown.contains(e) by {
                                    if read.contains(e) {
                                        let k = choose|k: int| 0 <= k < read.len() && read[k] == e;
                                        assert(grown[k] == e);
                                    }
                                    if e == model {
                                        assert(grown[read.len() as int] == e);
                                    }
                                    if grown.contains(e) {
                                        let k = choose|k: int|
                                            0 <= k < grown.len() && grown[k] == e;
                                        if k < read.len() {
                                            assert(read[k] == e);
                                        }
                                    }
                                }
                            }
                        },
                    }
                    i += 1;
                }
                assert(results.take(i as int) =~= results);
            },
        }
        Ok(Self { enables, is_enabled_by_default: raw_feature_config.default })
    }
}

/// The test framework of a test project, with the dependency that provides it.
#[derive(Clone, Debug)]
pub enum FinalTestFramework {
    Catch2(Rc<FinalPredefinedDependencyConfig>),
    GoogleTest(Rc<FinalPredefinedDependencyConfig>),
    DocTest(Rc<FinalPredefinedDependencyConfig>),
}

/// `Rc::clone` gives another pointer to the same value.
#[verifier::external_body]
fn share(config: &Rc<FinalPredefinedDependencyConfig>) -> (r: Rc<FinalPredefinedDependencyConfig>)
    ensures
        r == *config,
{
    Rc::clone(config)
}

impl FinalTestFramework {
    /// The dependency that provides the framework, for contracts.
    pub open spec fn config(&self) -> Rc<FinalPredefinedDependencyConfig> {
        match self {
            Self::Catch2(config) => *config,
            Self::DocTest(config) => *config,
            Self::GoogleTest(config) => *config,
        }
    }

    /// The dependency that provides the framework.
    pub fn unwrap_config(&self) -> (r: Rc<FinalPredefinedDependencyConfig>)
        ensures
            r == self.config(),
    {
        match self {
            Self::Catch2(predep_config) => share(predep_config),
            Self::DocTest(predep_config) => share(predep_config),
            Self::GoogleTest(predep_config) => share(predep_config),
        }
    }

    /// The name of the dependency that provides the framework.
    pub fn project_dependency_name(&self) -> (r: &'static str)
        ensures
            r@ == match *self {
                Self::Catch2(_) => "catch2"@,
                Self::DocTest(_) => "doctest"@,
                Self::GoogleTest(_) => "googletest"@,
            },
    {
        match self {
            Self::Catch2(_) => "catch2",
            Self::DocTest(_) => "doctest",
            Self::GoogleTest(_) => "googletest",
        }
    }

    /// The target of the framework that brings a `main` function.
    pub fn main_provided_link_target_name(&self) -> (r: &'static str)
        ensures
            r@ == "with_main"@,
    {
        "with_main"
    }

    /// The target of the framework that leaves `main` to the test.
    pub fn main_not_provided_link_target_name(&self) -> (r: &'static str)
        ensures
            r@ == "without_main"@,
    {
        "without_main"
    }
}

/// The place of a project in its tree.
#[derive(Clone, Debug)]
pub enum FinalProjectType {
    Root,
    Subproject {  },
    Test { framework: FinalTestFramework },
}

} // verus!
