//! The text of the build file of one project.

use crate::final_project_configurables::{CompiledOutputItem, OutputItemModel};
use crate::raw_data_in::OutputItemType;
use crate::text::{remove_all, strings_of, without};
use vstd::prelude::*;
use vstd::string::*;

verus! {

/// The languages that a project can be written in.
#[derive(Clone, Copy, Debug, PartialEq, Eq, Structural)]
pub enum ImplementationLanguage {
    C,
    Cpp,
}

/// The standards of a language that a project can be built with, in
/// rising order, and the one that is taken where nothing is said.
#[derive(Clone, Debug)]
pub struct LanguageConfig {
    pub default_standard: String,
    pub sorted_standards: Vec<String>,
}

/// What the writer needs to know of a project.
#[derive(Debug)]
pub struct ProjectFiles {
    pub project_root: String,
    pub project_name: String,
    pub include_prefix: String,
    pub src_dir: String,
    pub include_dir: String,
    pub template_impl_dir: String,
    pub src_files: Vec<String>,
    pub include_files: Vec<String>,
    pub template_impl_files: Vec<String>,
    pub language_info: Vec<(ImplementationLanguage, LanguageConfig)>,
    pub outputs: Vec<(String, CompiledOutputItem)>,
}

/// The texts of `parts`, one behind the other.
pub open spec fn concat_all(parts: Seq<Seq<char>>) -> Seq<char>
    decreases parts.len(),
{
    if parts.len() == 0 {
        Seq::empty()
    } else {
        concat_all(parts.drop_last()) + parts.last()
    }
}

/// The texts of `items` with `separator` between each two of them.
pub open spec fn joined(items: Seq<Seq<char>>, separator: Seq<char>) -> Seq<char>
    decreases items.len(),
{
    if items.len() == 0 {
        Seq::empty()
    } else if items.len() == 1 {
        items[0]
    } else {
        joined(items.drop_last(), separator) + separator + items.last()
    }
}

/// The lines that every build file starts with.
pub open spec fn project_header_text(project_name: Seq<char>) -> Seq<char> {
    "cmake_minimum_required( VERSION 3.12 )\n"@ + "project( "@ + project_name + " )\n"@
}

/// The line that sets the variable `var_name` to `var_value`.
pub open spec fn basic_var_text(var_name: Seq<char>, var_value: Seq<char>) -> Seq<char> {
    "set( "@ + var_name + " "@ + var_value + " )\n"@
}

/// The lines that head a section.
pub open spec fn section_header_text(title: Seq<char>) -> Seq<char> {
    "\n# ////////////////////////////////////////////////////////////////////////////////\n"@
        + "# "@ + title + "\n"@
        + "# ////////////////////////////////////////////////////////////////////////////////\n"@
}

/// The variable that holds the standard of a language.
pub open spec fn standard_variable(language: ImplementationLanguage) -> Seq<char> {
    match language {
        ImplementationLanguage::C => "CMAKE_C_STANDARD"@,
        ImplementationLanguage::Cpp => "CMAKE_CXX_STANDARD"@,
    }
}

/// What the choice of a standard is called in the cache.
pub open spec fn standard_description(language: ImplementationLanguage) -> Seq<char> {
    match language {
        ImplementationLanguage::C => "C Compiler Standard"@,
        ImplementationLanguage::Cpp => "CXX Compiler Standard"@,
    }
}

/// The lines that offer the standards of one language.
pub open spec fn language_text(entry: (ImplementationLanguage, LanguageConfig)) -> Seq<char> {
    "\n"@ + basic_var_text(
        standard_variable(entry.0),
        entry.1.default_standard@ + " CACHE STRING \""@ + standard_description(entry.0) + "\""@,
    ) + "set_property( CACHE "@ + standard_variable(entry.0) + " PROPERTY STRINGS "@ + joined(
        strings_of(entry.1.sorted_standards@),
        " "@,
    ) + " )\n"@
}

/// The lines that configure the languages: the standards of each, and that
/// a standard is required and extensions are off for both C and C++.
pub open spec fn language_config_text(
    languages: Seq<(ImplementationLanguage, LanguageConfig)>,
) -> Seq<char> {
    concat_all(
        languages.map_values(|entry: (ImplementationLanguage, LanguageConfig)| language_text(entry)),
    ) + "\n"@ + basic_var_text("CMAKE_C_STANDARD_REQUIRED"@, "ON"@) + basic_var_text(
        "CMAKE_C_EXTENSIONS"@,
        "OFF"@,
    ) + "\n"@ + basic_var_text("CMAKE_CXX_STANDARD_REQUIRED"@, "ON"@) + basic_var_text(
        "CMAKE_CXX_EXTENSIONS"@,
        "OFF"@,
    )
}

/// The line that names one file of a collection: the variable that holds
/// the root of the collection, and the path of the file without that root.
pub open spec fn file_line(
    file_location_root: Seq<char>,
    cmake_location_prefix: Seq<char>,
    file_path: Seq<char>,
) -> Seq<char> {
    "\t${"@ + cmake_location_prefix + "}"@ + without(file_path, file_location_root) + "\n"@
}

/// The lines that set the variable `var_name` to a collection of files.
pub open spec fn file_collection_text(
    var_name: Seq<char>,
    file_location_root: Seq<char>,
    cmake_location_prefix: Seq<char>,
    files: Seq<Seq<char>>,
) -> Seq<char> {
    "set( "@ + var_name + "\n"@ + concat_all(
        files.map_values(
            |file_path: Seq<char>| file_line(file_location_root, cmake_location_prefix, file_path),
        ),
    ) + ")\n"@
}

/// The lines that define one output. An executable is built from its entry
/// file and the sources, headers and template implementations of the
/// project, and sees the include directory of the project. Nothing is
/// written for a library.
pub open spec fn output_text(
    project_name: Seq<char>,
    output_name: Seq<char>,
    output: OutputItemModel,
) -> Seq<char> {
    if output.output_type == OutputItemType::Executable {
        "add_executable( "@ + output_name + "\n\t# SOURCES\n\t\t${CMAKE_CURRENT_SOURCE_DIR}/"@
            + without(output.entry_file, "./"@) + " ${"@ + project_name + "_SOURCES}"@
            + "\n\t# HEADERS\n\t\t${"@ + project_name + "_HEADERS} ${"@ + project_name
            + "_TEMPLATE_IMPLS}\n)\n"@ + "target_include_directories( "@ + output_name
            + "\n\tPRIVATE ${"@ + project_name + "_INCLUDE_DIR}\n)\n"@
    } else {
        Seq::empty()
    }
}

/// The entries of a list of outputs, each with its name and its view.
pub open spec fn outputs_of(outputs: Seq<(String, CompiledOutputItem)>) -> Seq<
    (Seq<char>, OutputItemModel),
> {
    outputs.map_values(|entry: (String, CompiledOutputItem)| (entry.0@, entry.1@))
}

/// The lines of the section of outputs: the roots of the code directories,
/// the collections of code files, and the outputs.
pub open spec fn outputs_text(project: ProjectFiles) -> Seq<char> {
    let name = project.project_name@;
    "\n"@ + basic_var_text(
        name + "_SRC_ROOT"@,
        "${CMAKE_CURRENT_SOURCE_DIR}/src/"@ + project.include_prefix@,
    ) + basic_var_text(
        name + "_HEADER_ROOT"@,
        "${CMAKE_CURRENT_SOURCE_DIR}/include/"@ + project.include_prefix@,
    ) + basic_var_text(
        name + "_TEMPLATE_IMPLS_ROOT"@,
        "${CMAKE_CURRENT_SOURCE_DIR}/template_impls/"@ + project.include_prefix@,
    ) + basic_var_text(name + "_INCLUDE_DIR"@, "${CMAKE_CURRENT_SOURCE_DIR}/include"@) + "\n"@
        + file_collection_text(
        name + "_SOURCES"@,
        project.src_dir@,
        name + "_SRC_ROOT"@,
        strings_of(project.src_files@),
    ) + file_collection_text(
        name + "_HEADERS"@,
        project.include_dir@,
        name + "_HEADER_ROOT"@,
        strings_of(project.include_files@),
    ) + file_collection_text(
        name + "_TEMPLATE_IMPLS"@,
        project.template_impl_dir@,
        name + "_TEMPLATE_IMPLS_ROOT"@,
        strings_of(project.template_impl_files@),
    ) + concat_all(
        outputs_of(project.outputs@).map_values(
            |entry: (Seq<char>, OutputItemModel)| output_text(name, entry.0, entry.1),
        ),
    )
}

/// The whole text of the build file of a project.
pub open spec fn cmakelists_text(project: ProjectFiles) -> Seq<char> {
    project_header_text(project.project_name@) + section_header_text("Language Configuration"@)
        + language_config_text(project.language_info@) + section_header_text("Outputs"@)
        + outputs_text(project)
}

/// `first` followed by `second`.
fn two(first: &str, second: &str) -> (r: String)
    ensures
        r@ == first@ + second@,
{
    let mut out = String::from_str(first);
    out.append(second);
    out
}

/// The line that sets the variable `var_name` to `var_value`.
fn basic_var(var_name: &str, var_value: &str) -> (r: String)
    ensures
        r@ == basic_var_text(var_name@, var_value@),
{
    let mut out = String::from_str("set( ");
    out.append(var_name);
    out.append(" ");
    out.append(var_value);
    out.append(" )\n");
    out
}

/// The texts of `items` with `separator` between each two of them.
pub fn join(items: &Vec<String>, separator: &str) -> (r: String)
    ensures
        r@ == joined(strings_of(items@), separator@),
{
    let ghost all = strings_of(items@);
    let mut out = String::new();
    let mut i: usize = 0;
    assert(all.take(0) =~= Seq::empty());
    while i < items.len()
        invariant
            i <= items@.len(),
            all == strings_of(items@),
            out@ == joined(all.take(i as int), separator@),
        decreases items@.len() - i,
    {
        proof {
            assert(all.take(i + 1).drop_last() =~= all.take(i as int));
            assert(all.take(i + 1).last() == items@[i as int]@);
            if i == 0 {
                assert(out@ + items@[i as int]@ =~= items@[i as int]@);
                assert(all.take(i + 1)[0] == items@[i as int]@);
            }
        }
        if i > 0 {
            out.append(separator);
        }
        out.append(items[i].as_str());
        i += 1;
    }
    assert(all.take(i as int) =~= all);
    out
}

/// The lines that offer the standards of one language.
fn language_lines(language: ImplementationLanguage, config: &LanguageConfig) -> (r: String)
    ensures
        r@ == language_text((language, *config)),
{
    let (variable, description): (&str, &str) = match language {
        ImplementationLanguage::C => ("CMAKE_C_STANDARD", "C Compiler Standard"),
        ImplementationLanguage::Cpp => ("CMAKE_CXX_STANDARD", "CXX Compiler Standard"),
    };
    let mut value = config.default_standard.clone();
    value.append(" CACHE STRING \"");
    value.append(description);
    value.append("\"");
    let mut out = String::from_str("\n");
    out.append(basic_var(variable, value.as_str()).as_str());
    out.append("set_property( CACHE ");
    out.append(variable);
    out.append(" PROPERTY STRINGS ");
    out.append(join(&config.sorted_standards, " ").as_str());
    out.append(" )\n");
    out
}

/// The lines that set the variable `var_name` to a collection of files.
fn file_collection(
    var_name: &str,
    file_location_root: &str,
    cmake_location_prefix: &str,
    file_path_collection: &Vec<String>,
) -> (r: String)
    ensures
        r@ == file_collection_text(
            var_name@,
            file_location_root@,
            cmake_location_prefix@,
            strings_of(file_path_collection@),
        ),
{
    let ghost lines = strings_of(file_path_collection@).map_values(
        |file_path: Seq<char>| file_line(file_location_root@, cmake_location_prefix@, file_path),
    );
    let mut out = String::from_str("set( ");
    out.append(var_name);
    out.append("\n");
    let ghost head = out@;
    let mut i: usize = 0;
    assert(lines.take(0) =~= Seq::empty());
    assert(head + concat_all(lines.take(0)) =~= head);
    while i < file_path_collection.len()
        invariant
            i <= file_path_collection@.len(),
            lines == strings_of(file_path_collection@).map_values(
                |file_path: Seq<char>|
                    file_line(file_location_root@, cmake_location_prefix@, file_path),
            ),
            out@ == head + concat_all(lines.take(i as int)),
        decreases file_path_collection@.len() - i,
    {
        let ghost before = out@;
        let mut line = String::from_str("\t${");
        line.append(cmake_location_prefix);
        line.append("}");
        line.append(remove_all(file_path_collection[i].as_str(), file_location_root).as_str());
        line.append("\n");
        out.append(line.as_str());
        proof {
            assert(lines.take(i + 1).drop_last() =~= lines.take(i as int));
            assert(lines.take(i + 1).last() == line@);
            assert(out@ =~= head + concat_all(lines.take(i + 1)));
        }
        i += 1;
    }
    assert(lines.take(i as int) =~= lines);
    out.append(")\n");
    out
}

/// The lines that define one output.
fn output_lines(project_name: &str, output_name: &str, output: &CompiledOutputItem) -> (r: String)
    ensures
        r@ == output_text(project_name@, output_name@, output@),
{
    if !output.is_executable_type() {
        return String::new();
    }
    let mut out = String::from_str("add_executable( ");
    out.append(output_name);
    out.append("\n\t# SOURCES\n\t\t${CMAKE_CURRENT_SOURCE_DIR}/");
    out.append(remove_all(output.get_entry_file(), "./").as_str());
    out.append(" ${");
    out.append(project_name);
    out.append("_SOURCES}");
    out.append("\n\t# HEADERS\n\t\t${");
    out.append(project_name);
    out.append("_HEADERS} ${");
    out.append(project_name);
    out.append("_TEMPLATE_IMPLS}\n)\n");
    out.append("target_include_directories( ");
    out.append(output_name);
    out.append("\n\tPRIVATE ${");
    out.append(project_name);
    out.append("_INCLUDE_DIR}\n)\n");
    out
}

/// A build file in the making: the project, and the text written so far.
#[derive(Debug)]
pub struct CMakeListsWriter {
    project_data: ProjectFiles,
    text: String,
}

impl CMakeListsWriter {
    /// The project, for contracts.
    pub closed spec fn project(&self) -> ProjectFiles {
        self.project_data
    }

    /// The text written so far, for contracts.
    pub closed spec fn written(&self) -> Seq<char> {
        self.text@
    }

    /// A writer for `project_data` that has written nothing yet.
    pub fn new(project_data: ProjectFiles) -> (r: Self)
        ensures
            r.project() == project_data,
            r.written() == Seq::<char>::empty(),
    {
        CMakeListsWriter { project_data, text: String::new() }
    }

    /// The path of the build file: `CMakeLists.txt` in the root of the project.
    pub fn file_name(&self) -> (r: String)
        ensures
            r@ == self.project().project_root@ + "/CMakeLists.txt"@,
    {
        two(self.project_data.project_root.as_str(), "/CMakeLists.txt")
    }

    /// The text written so far.
    pub fn get_text(&self) -> (r: &str)
        ensures
            r@ == self.written(),
    {
        self.text.as_str()
    }

    /// Writes the whole build file.
    pub fn write_cmakelists(&mut self)
        ensures
            final(self).project() == old(self).project(),
            final(self).written() == old(self).written() + cmakelists_text(old(self).project()),
    {
        let ghost before = self.text@;
        let ghost project = self.project_data;
        self.write_project_header();
        self.write_section_header("Language Configuration");
        self.write_language_config();
        self.write_section_header("Outputs");
        self.write_outputs();
        assert(self.text@ =~= before + cmakelists_text(project));
    }

    /// Writes the lines that every build file starts with.
    fn write_project_header(&mut self)
        ensures
            final(self).project() == old(self).project(),
            final(self).written() == old(self).written() + project_header_text(
                old(self).project().project_name@,
            ),
    {
        let ghost before = self.text@;
        let mut lines = String::from_str("cmake_minimum_required( VERSION 3.12 )\n");
        lines.append("project( ");
        lines.append(self.project_data.project_name.as_str());
        lines.append(" )\n");
        self.text.append(lines.as_str());
    }

    /// Writes the lines that configure the languages.
    fn write_language_config(&mut self)
        ensures
            final(self).project() == old(self).project(),
            final(self).written() == old(self).written() + language_config_text(
                old(self).project().language_info@,
            ),
    {
        let ghost before = self.text@;
        let ghost entries = self.project_data.language_info@.map_values(
            |entry: (ImplementationLanguage, LanguageConfig)| language_text(entry),
        );
        let mut lines = String::new();
        let mut i: usize = 0;
        assert(entries.take(0) =~= Seq::empty());
        while i < self.project_data.language_info.len()
            invariant
                i <= self.project_data.language_info@.len(),
                self.project_data == old(self).project_data,
                self.text@ == before,
                entries == self.project_data.language_info@.map_values(
                    |entry: (ImplementationLanguage, LanguageConfig)| language_text(entry),
                ),
                lines@ == concat_all(entries.take(i as int)),
            decreases self.project_data.language_info@.len() - i,
        {
            let entry = language_lines(
                self.project_data.language_info[i].0,
                &self.project_data.language_info[i].1,
            );
            lines.append(entry.as_str());
            proof {
                assert(entries.take(i + 1).drop_last() =~= entries.take(i as int));
                assert(entries.take(i + 1).last() == entry@);
            }
            i += 1;
        }
        assert(entries.take(i as int) =~= entries);
        lines.append("\n");
        lines.append(basic_var("CMAKE_C_STANDARD_REQUIRED", "ON").as_str());
        lines.append(basic_var("CMAKE_C_EXTENSIONS", "OFF").as_str());
        lines.append("\n");
        lines.append(basic_var("CMAKE_CXX_STANDARD_REQUIRED", "ON").as_str());
        lines.append(basic_var("CMAKE_CXX_EXTENSIONS", "OFF").as_str());
        self.text.append(lines.as_str());
    }

    /// Writes the lines that head a section.
    fn write_section_header(&mut self, title: &str)
        ensures
            final(self).project() == old(self).project(),
            final(self).written() == old(self).written() + section_header_text(title@),
    {
        let mut lines = String::from_str(
            "\n# ////////////////////////////////////////////////////////////////////////////////\n",
        );
        lines.append("# ");
        lines.append(title);
        lines.append("\n");
        lines.append(
            "# ////////////////////////////////////////////////////////////////////////////////\n",
        );
        self.text.append(lines.as_str());
    }

    /// Writes the section of outputs.
    fn write_outputs(&mut self)
        ensures
            final(self).project() == old(self).project(),
            final(self).written() == old(self).written() + outputs_text(old(self).project()),
    {
        let ghost before = self.text@;
        let project_name = self.project_data.project_name.as_str();
        let include_prefix = self.project_data.include_prefix.as_str();
        let src_root_varname = two(project_name, "_SRC_ROOT");
        let include_root_varname = two(project_name, "_HEADER_ROOT");
        let template_impls_root_varname = two(project_name, "_TEMPLATE_IMPLS_ROOT");
        let project_include_dir_varname = two(project_name, "_INCLUDE_DIR");
        let src_var_name = two(project_name, "_SOURCES");
        let includes_var_name = two(project_name, "_HEADERS");
        let template_impls_var_name = two(project_name, "_TEMPLATE_IMPLS");

        let mut lines = String::from_str("\n");
        lines.append(
            basic_var(
                src_root_varname.as_str(),
                two("${CMAKE_CURRENT_SOURCE_DIR}/src/", include_prefix).as_str(),
            ).as_str(),
        );
        lines.append(
            basic_var(
                include_root_varname.as_str(),
                two("${CMAKE_CURRENT_SOURCE_DIR}/include/", include_prefix).as_str(),
            ).as_str(),
        );
        lines.append(
            basic_var(
                template_impls_root_varname.as_str(),
                two("${CMAKE_CURRENT_SOURCE_DIR}/template_impls/", include_prefix).as_str(),
            ).as_str(),
        );
        lines.append(
            basic_var(
                project_include_dir_varname.as_str(),
                "${CMAKE_CURRENT_SOURCE_DIR}/include",
            ).as_str(),
        );
        lines.append("\n");
        lines.append(
            file_collection(
                src_var_name.as_str(),
                self.project_data.src_dir.as_str(),
                src_root_varname.as_str(),
                &self.project_data.src_files,
            ).as_str(),
        );
        lines.append(
            file_collection(
                includes_var_name.as_str(),
                self.project_data.include_dir.as_str(),
                include_root_varname.as_str(),
                &self.project_data.include_files,
            ).as_str(),
        );
        lines.append(
            file_collection(
                template_impls_var_name.as_str(),
                self.project_data.template_impl_dir.as_str(),
                template_impls_root_varname.as_str(),
                &self.project_data.template_impl_files,
            ).as_str(),
        );
        let ghost head = lines@;
        let ghost name = self.project_data.project_name@;
        let ghost entries = outputs_of(self.project_data.outputs@).map_values(
            |entry: (Seq<char>, OutputItemModel)| output_text(name, entry.0, entry.1),
        );
        let mut i: usize = 0;
        assert(entries.take(0) =~= Seq::empty());
        assert(head + concat_all(entries.take(0)) =~= head);
        while i < self.project_data.outputs.len()
            invariant
                i <= self.project_data.outputs@.len(),
                self.project_data == old(self).project_data,
                self.text@ == before,
                project_name@ == name,
                name == self.project_data.project_name@,
                entries == outputs_of(self.project_data.outputs@).map_values(
                    |entry: (Seq<char>, OutputItemModel)| output_text(name, entry.0, entry.1),
                ),
                lines@ == head + concat_all(entries.take(i as int)),
            decreases self.project_data.outputs@.len() - i,
        {
            let entry = output_lines(
                project_name,
                self.project_data.outputs[i].0.as_str(),
                &self.project_data.outputs[i].1,
            );
            lines.append(entry.as_str());
            proof {
                assert(entries.take(i + 1).drop_last() =~= entries.take(i as int));
                assert(entries.take(i + 1).last() == entry@);
                assert(lines@ =~= head + concat_all(entries.take(i + 1)));
            }
            i += 1;
        }
        assert(entries.take(i as int) =~= entries);
        self.text.append(lines.as_str());
    }
}

} // verus!
