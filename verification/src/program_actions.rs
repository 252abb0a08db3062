//! What the commands that create projects and code files decide, before anything is written.

use crate::cli_config::FileCreationLang;
use crate::text::{chars_occur_at, chars_of, cut, occurs_at, occurs_in};
use vstd::prelude::*;
use vstd::string::*;

verus! {

/// The project that a command creates: a root project, or a subproject of
/// the project with the given place in the tree.
#[derive(Clone, Copy, Debug, PartialEq, Eq, Structural)]
pub enum ProjectTypeCreating {
    RootProject,
    Subproject(usize),
}

/// The message for a subproject that is asked for outside a project, or a
/// root project inside one.
pub open spec fn no_current_project_message() -> Seq<char> {
    "Unable to find the current project operating on while attempting to generate a subproject. Make sure you are currently in a directory which contains a cmake_data.yaml file."@
}

/// Which project is created: a subproject where one is asked for inside a
/// project, a root project where none is asked for outside any project.
/// The other two cases are refused.
pub fn make_project_creating_info(wants_subproject: bool, maybe_current_project: Option<usize>) -> (r:
    Result<ProjectTypeCreating, String>)
    ensures
        match (maybe_current_project, wants_subproject) {
            (Some(current), true) => r == Ok::<ProjectTypeCreating, String>(
                ProjectTypeCreating::Subproject(current),
            ),
            (None, false) => r == Ok::<ProjectTypeCreating, String>(
                ProjectTypeCreating::RootProject,
            ),
            _ => r matches Err(message) && message@ == no_current_project_message(),
        },
{
    match (maybe_current_project, wants_subproject) {
        (Some(current), true) => Ok(ProjectTypeCreating::Subproject(current)),
        (None, false) => Ok(ProjectTypeCreating::RootProject),
        _ => Err(
            String::from_str(
                "Unable to find the current project operating on while attempting to generate a subproject. Make sure you are currently in a directory which contains a cmake_data.yaml file.",
            ),
        ),
    }
}

/// Why a project could not be loaded.
#[derive(Clone, Debug, PartialEq, Eq)]
pub enum ProjectLoadFailureReason {
    /// The directory holds no project description. The text is the message for the user.
    MissingYaml(String),
    /// The project description was found and refused.
    Other(String),
}

/// The project inside which a new project is created. That no project
/// description is found means that there is none; any other failure to load
/// the project is handed on.
pub fn get_parent_project_for_new_project<T>(loaded: Result<T, ProjectLoadFailureReason>) -> (r:
    Result<Option<T>, String>)
    ensures
        r == match loaded {
            Ok(project) => Ok::<Option<T>, String>(Some(project)),
            Err(ProjectLoadFailureReason::MissingYaml(_)) => Ok(None),
            Err(ProjectLoadFailureReason::Other(message)) => Err(message),
        },
{
    match loaded {
        Ok(project) => Ok(Some(project)),
        Err(failure_reason) => match failure_reason {
            ProjectLoadFailureReason::MissingYaml(_) => Ok(None),
            ProjectLoadFailureReason::Other(message) => Err(message),
        },
    }
}

/// The message for a project name that is a path.
pub open spec fn name_is_path_message(name: Seq<char>) -> Seq<char> {
    "When generating a project, the project root cannot be a path. However, \""@ + name
        + "\" is a path."@
}

/// The directory in which a new project is created: `./subprojects/` and
/// the name for a subproject, `./` and the name for a root project. A name
/// with `/` in it is refused.
pub open spec fn new_project_root(name: Seq<char>, is_subproject: bool) -> Result<
    Seq<char>,
    Seq<char>,
> {
    if name.contains('/') {
        Err(name_is_path_message(name))
    } else if is_subproject {
        Ok("./subprojects/"@ + name)
    } else {
        Ok("./"@ + name)
    }
}

/// The directory in which the project `new_project_name` is created.
pub fn project_root_generating(new_project_name: &str, is_subproject: bool) -> (r: Result<
    String,
    String,
>)
    ensures
        match new_project_root(new_project_name@, is_subproject) {
            Ok(root) => r matches Ok(given) && given@ == root,
            Err(message) => r matches Err(given) && given@ == message,
        },
{
    let chars = chars_of(new_project_name);
    let mut i: usize = 0;
    while i < chars.len()
        invariant
            i <= chars@.len(),
            chars@ == new_project_name@,
            forall|j: int| 0 <= j < i ==> chars@[j] != '/',
        decreases chars@.len() - i,
    {
        if chars[i] == '/' {
            let mut message = String::from_str(
                "When generating a project, the project root cannot be a path. However, \"",
            );
            message.append(new_project_name);
            message.append("\" is a path.");
            return Err(message);
        }
        i += 1;
    }
    let mut root = if is_subproject {
        String::from_str("./subprojects/")
    } else {
        String::from_str("./")
    };
    root.append(new_project_name);
    Ok(root)
}

/// The kinds of code file.
#[derive(Clone, Copy, Debug, PartialEq, Eq, Structural)]
pub enum CodeFileType {
    Header(FileCreationLang),
    Source(FileCreationLang),
    TemplateImpl(FileCreationLang),
}

/// The extension of a code file, with its dot.
pub open spec fn extension_of(file_type: CodeFileType) -> Seq<char> {
    match file_type {
        CodeFileType::Header(FileCreationLang::C) => ".h"@,
        CodeFileType::Header(FileCreationLang::Cpp) => ".hpp"@,
        CodeFileType::Source(FileCreationLang::C) => ".c"@,
        CodeFileType::Source(FileCreationLang::Cpp) => ".cpp"@,
        CodeFileType::TemplateImpl(_) => ".tpp"@,
    }
}

/// The extension of a code file, with its dot.
pub fn extension_for(file_type: CodeFileType) -> (r: &'static str)
    ensures
        r@ == extension_of(file_type),
{
    match file_type {
        CodeFileType::Header(lang) => match lang {
            FileCreationLang::C => ".h",
            FileCreationLang::Cpp => ".hpp",
        },
        CodeFileType::Source(lang) => match lang {
            FileCreationLang::C => ".c",
            FileCreationLang::Cpp => ".cpp",
        },
        CodeFileType::TemplateImpl(lang) => match lang {
            FileCreationLang::C => ".tpp",
            FileCreationLang::Cpp => ".tpp",
        },
    }
}

/// Whether `at` is where `needle` occurs first in `hay`.
pub open spec fn is_first_occurrence(hay: Seq<char>, needle: Seq<char>, at: int) -> bool {
    &&& occurs_at(hay, needle, at)
    &&& forall|j: int| occurs_at(hay, needle, j) ==> at <= j
}

/// Where `needle` occurs first in `hay`.
pub open spec fn first_occurrence(hay: Seq<char>, needle: Seq<char>) -> int {
    choose|at: int| is_first_occurrence(hay, needle, at)
}

/// The path under which a file is included: the path of the file from the
/// first place on where the include prefix and `/` occur in it.
pub open spec fn include_path(project_include_prefix: Seq<char>, file_path: Seq<char>) -> Seq<
    char,
> {
    file_path.skip(first_occurrence(file_path, project_include_prefix + "/"@))
}

/// The path under which the file `file_path` is included, if the include
/// prefix and `/` occur in it.
pub fn to_include_path(project_include_prefix: &str, file_path: &str) -> (r: Option<String>)
    ensures
        match r {
            Some(path) => occurs_in(file_path@, project_include_prefix@ + "/"@) && path@
                == include_path(project_include_prefix@, file_path@),
            None => !occurs_in(file_path@, project_include_prefix@ + "/"@),
        },
{
    let mut wanted = String::from_str(project_include_prefix);
    wanted.append("/");
    let needle = chars_of(wanted.as_str());
    let hay = chars_of(file_path);
    let mut at: usize = 0;
    loop
        invariant
            hay@ == file_path@,
            needle@ == project_include_prefix@ + "/"@,
            at <= hay@.len(),
            forall|j: int| 0 <= j < at ==> !occurs_at(hay@, needle@, j),
        decreases hay@.len() - at,
    {
        if chars_occur_at(&hay, &needle, at) {
            proof {
                assert(is_first_occurrence(hay@, needle@, at as int));
                let chosen = first_occurrence(hay@, needle@);
                assert(is_first_occurrence(hay@, needle@, chosen));
                assert(hay@.skip(at as int) == hay@.subrange(at as int, hay@.len() as int));
            }
            return Some(cut(file_path, at, hay.len()));
        }
        if at == hay.len() {
            assert forall|j: int| !occurs_at(hay@, needle@, j) by {
                if occurs_at(hay@, needle@, j) {
                    assert(j <= hay@.len());
                }
            }
            return None;
        }
        at += 1;
    }
}

/// Which code files a command generates.
#[derive(Clone, Copy, Debug)]
pub struct FileTypeGeneratingInfo {
    pub generating_header: bool,
    pub generating_source: bool,
    pub generating_template_impl: bool,
}

/// What the code files of one command share: their name without extension,
/// and the directories between the code directory and the files.
#[derive(Clone, Debug)]
pub struct SharedFileInfo {
    pub shared_name: String,
    pub leading_dir_path: String,
}

/// How a header guards against being included twice.
#[derive(Clone, Debug)]
pub enum FileGuardStyle {
    IncludeGuard(String),
    PragmaOnce,
}

/// The code directories of a project.
#[derive(Clone, Debug)]
pub struct CodeDirectories {
    pub include_dir: String,
    pub src_dir: String,
    pub template_impl_dir: String,
    pub include_prefix: String,
}

/// A file to write: its path and its text.
#[derive(Clone, Debug, PartialEq, Eq)]
pub struct CodeFile {
    pub path: String,
    pub contents: String,
}

/// The mathematical form of a `CodeFile`.
pub ghost struct CodeFileModel {
    pub path: Seq<char>,
    pub contents: Seq<char>,
}

impl View for CodeFile {
    type V = CodeFileModel;

    open spec fn view(&self) -> CodeFileModel {
        CodeFileModel { path: self.path@, contents: self.contents@ }
    }
}

/// The path of a code file: the code directory, the directories that lead
/// to the file where there are any, and the name with its extension.
pub open spec fn code_file_path(
    code_dir: Seq<char>,
    leading_dir_path: Seq<char>,
    shared_name: Seq<char>,
    extension: Seq<char>,
) -> Seq<char> {
    if leading_dir_path.len() == 0 {
        code_dir + "/"@ + shared_name + extension
    } else {
        code_dir + "/"@ + leading_dir_path + "/"@ + shared_name + extension
    }
}

/// The line that includes the file `path`, or nothing where the include
/// prefix does not occur in the path.
pub open spec fn include_line(include_prefix: Seq<char>, path: Seq<char>) -> Seq<char> {
    if occurs_in(path, include_prefix + "/"@) {
        "#include \""@ + include_path(include_prefix, path) + "\"\n"@
    } else {
        Seq::empty()
    }
}

/// The line that includes a file that may not have been generated.
pub open spec fn maybe_include_line(include_prefix: Seq<char>, path: Option<Seq<char>>) -> Seq<
    char,
> {
    match path {
        Some(given) => include_line(include_prefix, given),
        None => Seq::empty(),
    }
}

/// The text of a header: its guard, three empty lines, the line that
/// includes the template implementation where one was generated, and the
/// end of the guard where the guard has one.
pub open spec fn header_text(
    guard: FileGuardStyle,
    include_prefix: Seq<char>,
    template_impl: Option<Seq<char>>,
) -> Seq<char> {
    match guard {
        FileGuardStyle::IncludeGuard(specifier) => "#ifndef "@ + specifier@ + "\n#define "@
            + specifier@ + "\n"@ + "\n\n\n"@ + maybe_include_line(include_prefix, template_impl)
            + "#endif\n"@,
        FileGuardStyle::PragmaOnce => "#pragma once\n"@ + "\n\n\n"@ + maybe_include_line(
            include_prefix,
            template_impl,
        ),
    }
}

/// The text of a template implementation file at `path`.
pub open spec fn template_impl_text(path: Seq<char>) -> Seq<char> {
    "// Implement the template in "@ + path + " here\n"@
}

/// The files that a command generates, in the order in which they are
/// written: the template implementation, the header, which includes it,
/// and the source, which includes the header.
pub open spec fn code_files(
    which: FileTypeGeneratingInfo,
    shared: SharedFileInfo,
    guard: FileGuardStyle,
    dirs: CodeDirectories,
    language: FileCreationLang,
) -> Seq<CodeFileModel> {
    let template_path = code_file_path(
        dirs.template_impl_dir@,
        shared.leading_dir_path@,
        shared.shared_name@,
        extension_of(CodeFileType::TemplateImpl(language)),
    );
    let header_path = code_file_path(
        dirs.include_dir@,
        shared.leading_dir_path@,
        shared.shared_name@,
        extension_of(CodeFileType::Header(language)),
    );
    let source_path = code_file_path(
        dirs.src_dir@,
        shared.leading_dir_path@,
        shared.shared_name@,
        extension_of(CodeFileType::Source(language)),
    );
    let template_files = if which.generating_template_impl {
        seq![CodeFileModel { path: template_path, contents: template_impl_text(template_path) }]
    } else {
        Seq::empty()
    };
    let header_files = if which.generating_header {
        seq![
            CodeFileModel {
                path: header_path,
                contents: header_text(
                    guard,
                    dirs.include_prefix@,
                    if which.generating_template_impl {
                        Some(template_path)
                    } else {
                        None
                    },
                ),
            },
        ]
    } else {
        Seq::empty()
    };
    let source_files = if which.generating_source {
        seq![
            CodeFileModel {
                path: source_path,
                contents: maybe_include_line(
                    dirs.include_prefix@,
                    if which.generating_header {
                        Some(header_path)
                    } else {
                        None
                    },
                ),
            },
        ]
    } else {
        Seq::empty()
    };
    template_files + header_files + source_files
}

/// The path of a code file.
pub fn ensure_directory_structure(
    code_dir: &str,
    shared_file_info: &SharedFileInfo,
    extension_including_dot: &str,
) -> (r: String)
    ensures
        r@ == code_file_path(
            code_dir@,
            shared_file_info.leading_dir_path@,
            shared_file_info.shared_name@,
            extension_including_dot@,
        ),
{
    let mut path = String::from_str(code_dir);
    path.append("/");
    if shared_file_info.leading_dir_path.as_str().unicode_len() > 0 {
        path.append(shared_file_info.leading_dir_path.as_str());
        path.append("/");
    }
    path.append(shared_file_info.shared_name.as_str());
    path.append(extension_including_dot);
    path
}

/// The line that includes a file that may not have been generated.
fn include_line_for(include_prefix: &str, path: &Option<String>) -> (r: String)
    ensures
        r@ == maybe_include_line(
            include_prefix@,
            match *path {
                Some(given) => Some(given@),
                None => None,
            },
        ),
{
    match path {
        None => String::new(),
        Some(given) => match to_include_path(include_prefix, given.as_str()) {
            None => String::new(),
            Some(included) => {
                let mut line = String::from_str("#include \"");
                line.append(included.as_str());
                line.append("\"\n");
                line
            },
        },
    }
}

/// The files that a command generates, with their texts, in the order in
/// which they are to be written.
pub fn write_code_files(
    which_generating: &FileTypeGeneratingInfo,
    shared_file_info: &SharedFileInfo,
    file_guard: &FileGuardStyle,
    project_info: &CodeDirectories,
    language: &FileCreationLang,
) -> (r: Vec<CodeFile>)
    ensures
        r@.map_values(|file: CodeFile| file@) == code_files(
            *which_generating,
            *shared_file_info,
            *file_guard,
            *project_info,
            *language,
        ),
{
    let mut files: Vec<CodeFile> = Vec::new();
    let mut maybe_template_impl: Option<String> = None;
    let mut maybe_header: Option<String> = None;
    if which_generating.generating_template_impl {
        let path = ensure_directory_structure(
            project_info.template_impl_dir.as_str(),
            shared_file_info,
            extension_for(CodeFileType::TemplateImpl(*language)),
        );
        let mut contents = String::from_str("// Implement the template in ");
        contents.append(path.as_str());
        contents.append(" here\n");
        files.push(CodeFile { path: path.clone(), contents });
        maybe_template_impl = Some(path);
    }
    if which_generating.generating_header {
        let path = ensure_directory_structure(
            project_info.include_dir.as_str(),
            shared_file_info,
            extension_for(CodeFileType::Header(*language)),
        );
        let inclusion = include_line_for(project_info.include_prefix.as_str(), &maybe_template_impl);
        let mut contents = match file_guard {
            FileGuardStyle::IncludeGuard(specifier) => {
                let mut opening = String::from_str("#ifndef ");
                opening.append(specifier.as_str());
                opening.append("\n#define ");
                opening.append(specifier.as_str());
                opening.append("\n");
                opening
            },
            FileGuardStyle::PragmaOnce => String::from_str("#pragma once\n"),
        };
        contents.append("\n\n\n");
        contents.append(inclusion.as_str());
        match file_guard {
            FileGuardStyle::IncludeGuard(_) => {
                contents.append("#endif\n");
            },
            FileGuardStyle::PragmaOnce => {},
        }
        files.push(CodeFile { path: path.clone(), contents });
        maybe_header = Some(path);
    }
    if which_generating.generating_source {
        let path = ensure_directory_structure(
            project_info.src_dir.as_str(),
            shared_file_info,
            extension_for(CodeFileType::Source(*language)),
        );
        let contents = include_line_for(project_info.include_prefix.as_str(), &maybe_header);
        files.push(CodeFile { path, contents });
    }
    assert(files@.map_values(|file: CodeFile| file@) =~= code_files(
        *which_generating,
        *shared_file_info,
        *file_guard,
        *project_info,
        *language,
    ));
    files
}

} // verus!
