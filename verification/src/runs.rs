use vstd::prelude::*;
use vstd::string::StringExecFns;

use crate::git::auth::EnvMap;
use crate::text::{chars_of, string_of};

verus! {

/// A JSON value, `serde_json::Value`, as an opaque value.
#[verifier::external_type_specification]
#[verifier::external_body]
pub struct ExJsonValue(serde_json::Value);

/// A JSON object, `serde_json::Map`, as an opaque value.
#[verifier::external_type_specification]
#[verifier::external_body]
#[verifier::reject_recursive_types(K)]
#[verifier::reject_recursive_types(V)]
pub struct ExJsonMap<K, V>(serde_json::Map<K, V>);

/// A TOML value, `toml::Value`, as an opaque value.
#[verifier::external_type_specification]
#[verifier::external_body]
pub struct ExTomlValue(toml::Value);

/// A way to run a project.
#[derive(Debug)]
pub struct RunSuggestion {
    pub language: String,
    pub command: String,
    pub args: Vec<String>,
    pub env: EnvMap,
    pub cwd: Option<String>,
    pub reason: String,
}

/// The mathematical value of a `RunSuggestion`.
pub struct RunSuggestionView {
    pub language: Seq<char>,
    pub command: Seq<char>,
    pub args: Seq<Seq<char>>,
    pub env: Map<Seq<char>, Seq<char>>,
    pub cwd: Option<Seq<char>>,
    pub reason: Seq<char>,
}

impl DeepView for RunSuggestion {
    type V = RunSuggestionView;

    open spec fn deep_view(&self) -> RunSuggestionView {
        RunSuggestionView {
            language: self.language@,
            command: self.command@,
            args: self.args.deep_view(),
            env: self.env@,
            cwd: self.cwd.deep_view(),
            reason: self.reason@,
        }
    }
}

/// What was found of one file.
#[derive(Debug)]
pub enum FileProbe {
    /// There is no such file.
    Missing,
    /// The file exists and could not be read as text.
    Unreadable,
    /// The file exists and holds this text.
    Text(String),
}

impl FileProbe {
    /// Whether the file exists.
    pub open spec fn is_there(self) -> bool {
        !(self is Missing)
    }

    /// Whether the file exists.
    pub fn is_present(&self) -> (r: bool)
        ensures
            r == self.is_there(),
    {
        match self {
            FileProbe::Missing => false,
            _ => true,
        }
    }
}

/// One entry met on a walk through a directory tree.
#[derive(Debug)]
pub struct WalkedEntry {
    /// Whether the entry is a regular file.
    pub is_file: bool,
    /// The extension of its name, where it has one that is valid text.
    pub extension: Option<String>,
    /// The directory that holds it, where it has one.
    pub parent: Option<String>,
}

/// What was found in the root directory of a project.
#[derive(Debug)]
pub struct ProjectProbe {
    /// The root directory.
    pub root: String,
    /// The last part of its path, where it has one that is valid text.
    pub root_name: Option<String>,
    pub package_json: FileProbe,
    pub pyproject: FileProbe,
    pub has_requirements: bool,
    pub has_uv_lock: bool,
    pub has_uv_toml: bool,
    pub has_gradlew: bool,
    pub has_gradlew_bat: bool,
    pub has_cargo_toml: bool,
    pub has_go_mod: bool,
    pub has_makefile: bool,
    pub has_cmake_lists: bool,
    /// The entries of the tree below the root, down to the third level, in
    /// the order of the walk.
    pub walked: Vec<WalkedEntry>,
}

/// Whether a suggestion runs the same command with the same arguments as
/// one of the list.
pub open spec fn is_listed(list: Seq<RunSuggestionView>, s: RunSuggestionView) -> bool {
    exists|i: int|
        0 <= i < list.len() && (#[trigger] list[i]).command == s.command && list[i].args == s.args
}

/// The list with the suggestion at its end, unless one with the same command
/// and arguments is in it.
pub open spec fn with_unique(list: Seq<RunSuggestionView>, s: RunSuggestionView) -> Seq<
    RunSuggestionView,
> {
    if is_listed(list, s) {
        list
    } else {
        list.push(s)
    }
}

/// Whether two lists hold the same strings.
pub fn same_strings(a: &Vec<String>, b: &Vec<String>) -> (r: bool)
    ensures
        r == (a.deep_view() == b.deep_view()),
{
    if a.len() != b.len() {
        assert(a.deep_view().len() != b.deep_view().len());
        return false;
    }
    let mut i: usize = 0;
    while i < a.len()
        invariant
            i <= a@.len(),
            a@.len() == b@.len(),
            forall|k: int| 0 <= k < i ==> a.deep_view()[k] == b.deep_view()[k],
        decreases a@.len() - i,
    {
        if a[i] != b[i] {
            assert(a.deep_view()[i as int] != b.deep_view()[i as int]);
            return false;
        }
        i += 1;
    }
    assert(a.deep_view() =~= b.deep_view());
    true
}

/// Adds a suggestion, unless one with the same command and arguments is
/// listed.
pub fn push_unique(suggestions: &mut Vec<RunSuggestion>, suggestion: RunSuggestion)
    ensures
        final(suggestions).deep_view() == with_unique(
            old(suggestions).deep_view(),
            suggestion.deep_view(),
        ),
{
    let ghost list = suggestions.deep_view();
    let mut i: usize = 0;
    while i < suggestions.len()
        invariant
            i <= suggestions@.len(),
            *suggestions == *old(suggestions),
            list == suggestions.deep_view(),
            forall|k: int|
                0 <= k < i ==> !((#[trigger] list[k]).command == suggestion.deep_view().command && list[k].args
                    == suggestion.deep_view().args),
        decreases suggestions@.len() - i,
    {
        if suggestions[i].command == suggestion.command && same_strings(
            &suggestions[i].args,
            &suggestion.args,
        ) {
            assert(list[i as int].command == suggestion.deep_view().command);
            return;
        }
        i += 1;
    }
    suggestions.push(suggestion);
    assert(suggestions.deep_view() =~= list.push(suggestion.deep_view()));
}

/// A suggestion without variables that runs in `cwd`.
pub open spec fn suggestion(
    language: Seq<char>,
    command: Seq<char>,
    args: Seq<Seq<char>>,
    cwd: Seq<char>,
    reason: Seq<char>,
) -> RunSuggestionView {
    RunSuggestionView { language, command, args, env: Map::empty(), cwd: Some(cwd), reason }
}

/// The script of a package that is run: `dev` where there is one, else
/// `start` where there is one.
pub open spec fn node_script(has_dev: bool, has_start: bool) -> Option<Seq<char>> {
    if has_dev {
        Some("dev"@)
    } else if has_start {
        Some("start"@)
    } else {
        None
    }
}

/// The suggestion for a package with the script `script`.
pub open spec fn node_suggestion(root: Seq<char>, script: Seq<char>) -> RunSuggestionView {
    suggestion(
        "node"@,
        "pnpm"@,
        seq!["run"@, script],
        root,
        "Detected package.json with `"@ + script + "` script"@,
    )
}

/// The list after a package was looked at whose scripts are as told.
pub open spec fn with_node(
    list: Seq<RunSuggestionView>,
    root: Seq<char>,
    has_dev: bool,
    has_start: bool,
) -> Seq<RunSuggestionView> {
    match node_script(has_dev, has_start) {
        Some(script) => with_unique(list, node_suggestion(root, script)),
        None => list,
    }
}

/// Adds the suggestion for a package, given which scripts it has.
pub fn suggest_node(root: &str, has_dev: bool, has_start: bool, suggestions: &mut Vec<RunSuggestion>)
    ensures
        final(suggestions).deep_view() == with_node(
            old(suggestions).deep_view(),
            root@,
            has_dev,
            has_start,
        ),
{
    let script: &str = if has_dev {
        "dev"
    } else if has_start {
        "start"
    } else {
        return;
    };
    let mut args: Vec<String> = Vec::new();
    args.push(String::from_str("run"));
    args.push(String::from_str(script));
    assert(args.deep_view() =~= seq!["run"@, script@]);
    let reason = String::from_str("Detected package.json with `").concat(script).concat(
        "` script",
    );
    push_unique(
        suggestions,
        RunSuggestion {
            language: String::from_str("node"),
            command: String::from_str("pnpm"),
            args,
            env: EnvMap::new(),
            cwd: Some(String::from_str(root)),
            reason,
        },
    );
}

/// Reads a JSON text, with `serde_json::from_str`. Nothing is claimed of
/// the value.
#[verifier::external_body]
fn parse_json(text: &str) -> (r: Option<serde_json::Value>) {
    match serde_json::from_str::<serde_json::Value>(text) {
        Ok(value) => Some(value),
        Err(_) => None,
    }
}

/// The member `key` of a JSON value, with `serde_json::Value::get`. Nothing
/// is claimed of it.
#[verifier::external_body]
fn json_get<'a>(value: &'a serde_json::Value, key: &str) -> (r: Option<&'a serde_json::Value>) {
    value.get(key)
}

/// A JSON value as an object, with `serde_json::Value::as_object`. Nothing
/// is claimed of it.
#[verifier::external_body]
fn json_as_object<'a>(value: &'a serde_json::Value) -> (r: Option<
    &'a serde_json::Map<String, serde_json::Value>,
>) {
    value.as_object()
}

/// Whether a JSON object has the member `key`, with
/// `serde_json::Map::contains_key`. Nothing is claimed of the answer.
#[verifier::external_body]
fn json_contains_key(object: &serde_json::Map<String, serde_json::Value>, key: &str) -> (r: bool) {
    object.contains_key(key)
}

/// Looks at the package description of a project: where it is a JSON text
/// with an object `scripts`, the script `dev`, or else `start`, gives a
/// suggestion. Without a readable description nothing is added.
pub fn detect_node(probe: &ProjectProbe, suggestions: &mut Vec<RunSuggestion>)
    ensures
        !(probe.package_json is Text) ==> final(suggestions).deep_view() == old(
            suggestions,
        ).deep_view(),
        exists|has_dev: bool, has_start: bool|
            final(suggestions).deep_view() == with_node(
                old(suggestions).deep_view(),
                probe.root@,
                has_dev,
                has_start,
            ),
{
    let ghost list = suggestions.deep_view();
    assert(list == with_node(list, probe.root@, false, false));
    let contents = match &probe.package_json {
        FileProbe::Text(contents) => contents,
        _ => {
            return;
        },
    };
    let value = match parse_json(contents.as_str()) {
        Some(value) => value,
        None => {
            return;
        },
    };
    let scripts = match json_get(&value, "scripts") {
        Some(scripts) => scripts,
        None => {
            return;
        },
    };
    let object = match json_as_object(scripts) {
        Some(object) => object,
        None => {
            return;
        },
    };
    let has_dev = json_contains_key(object, "dev");
    let has_start = json_contains_key(object, "start");
    suggest_node(probe.root.as_str(), has_dev, has_start, suggestions);
}

/// `name` with an underscore in place of each hyphen.
pub open spec fn underscored(name: Seq<char>) -> Seq<char> {
    Seq::new(
        name.len(),
        |i: int|
            if name[i] == '-' {
                '_'
            } else {
                name[i]
            },
    )
}

/// Puts an underscore in place of each hyphen.
pub fn underscore(name: &str) -> (r: String)
    ensures
        r@ == underscored(name@),
{
    let text = chars_of(name);
    let mut out: Vec<char> = Vec::new();
    let mut i: usize = 0;
    while i < text.len()
        invariant
            i <= text@.len(),
            text@ == name@,
            out@ =~= underscored(name@).take(i as int),
        decreases text@.len() - i,
    {
        let c = text[i];
        out.push(
            if c == '-' {
                '_'
            } else {
                c
            },
        );
        i += 1;
    }
    assert(underscored(name@).take(text@.len() as int) =~= underscored(name@));
    string_of(out.as_slice())
}

/// The module that a Python project is run as: the module name that its
/// project description gives, where it has a description that gives one,
/// else the name of its root directory with underscores for hyphens.
pub open spec fn python_module(
    has_pyproject: bool,
    described: Option<Seq<char>>,
    root_name: Option<Seq<char>>,
) -> Option<Seq<char>> {
    if has_pyproject && described is Some {
        described
    } else {
        match root_name {
            Some(name) => Some(underscored(name)),
            None => None,
        }
    }
}

/// The suggestion for a Python project that is run as `module`.
pub open spec fn python_suggestion(
    root: Seq<char>,
    module: Seq<char>,
    uses_uv: bool,
    has_pyproject: bool,
) -> RunSuggestionView {
    if uses_uv {
        suggestion(
            "python"@,
            "uv"@,
            seq!["run"@, "python"@, "-m"@, module],
            root,
            "Detected pyproject with uv configuration"@,
        )
    } else {
        suggestion(
            "python"@,
            "python"@,
            seq!["-m"@, module],
            root,
            if has_pyproject {
                "Detected pyproject.toml"@
            } else {
                "Detected requirements.txt"@
            },
        )
    }
}

/// The list after a Python project was looked at whose description names
/// the project as told.
pub open spec fn with_python(
    list: Seq<RunSuggestionView>,
    probe: ProjectProbe,
    described: Option<Seq<char>>,
) -> Seq<RunSuggestionView> {
    let has_pyproject = probe.pyproject.is_there();
    if !has_pyproject && !probe.has_requirements {
        list
    } else {
        match python_module(has_pyproject, described, probe.root_name.deep_view()) {
            Some(module) => with_unique(
                list,
                python_suggestion(
                    probe.root@,
                    module,
                    probe.has_uv_lock || probe.has_uv_toml,
                    has_pyproject,
                ),
            ),
            None => list,
        }
    }
}

/// The name of the root directory as a module name.
pub fn default_module_name(probe: &ProjectProbe) -> (r: Option<String>)
    ensures
        r.deep_view() == match probe.root_name {
            Some(name) => Some(underscored(name@)),
            None => None,
        },
{
    match &probe.root_name {
        Some(name) => Some(underscore(name.as_str())),
        None => None,
    }
}

/// Adds the suggestion for a Python project, given the module name that its
/// description gives it, if any.
pub fn suggest_python(
    probe: &ProjectProbe,
    described: Option<String>,
    suggestions: &mut Vec<RunSuggestion>,
)
    ensures
        final(suggestions).deep_view() == with_python(
            old(suggestions).deep_view(),
            *probe,
            described.deep_view(),
        ),
{
    let has_pyproject = probe.pyproject.is_present();
    if !has_pyproject && !probe.has_requirements {
        return;
    }
    let named: Option<String> = match described {
        Some(name) => if has_pyproject {
            Some(name)
        } else {
            default_module_name(probe)
        },
        None => default_module_name(probe),
    };
    let module = match named {
        Some(module) => module,
        None => {
            return;
        },
    };
    let uses_uv = probe.has_uv_lock || probe.has_uv_toml;
    let mut args: Vec<String> = Vec::new();
    let command;
    let reason;
    if uses_uv {
        command = String::from_str("uv");
        args.push(String::from_str("run"));
        args.push(String::from_str("python"));
        args.push(String::from_str("-m"));
        reason = String::from_str("Detected pyproject with uv configuration");
        assert(args.deep_view() =~= seq!["run"@, "python"@, "-m"@]);
    } else {
        command = String::from_str("python");
        args.push(String::from_str("-m"));
        reason =
        if has_pyproject {
            String::from_str("Detected pyproject.toml")
        } else {
            String::from_str("Detected requirements.txt")
        };
        assert(args.deep_view() =~= seq!["-m"@]);
    }
    let ghost before = args.deep_view();
    let ghost name = module@;
    args.push(module);
    assert(args.deep_view() =~= before.push(name));
    proof {
        if uses_uv {
            assert(args.deep_view() =~= seq!["run"@, "python"@, "-m"@, name]);
        } else {
            assert(args.deep_view() =~= seq!["-m"@, name]);
        }
    }
    push_unique(
        suggestions,
        RunSuggestion {
            language: String::from_str("python"),
            command,
            args,
            env: EnvMap::new(),
            cwd: Some(probe.root.clone()),
            reason,
        },
    );
}

/// Reads a TOML document, with `toml::from_str`. Nothing is claimed of the
/// value.
#[verifier::external_body]
fn parse_toml(text: &str) -> (r: Option<toml::Value>) {
    match toml::from_str::<toml::Value>(text) {
        Ok(value) => Some(value),
        Err(_) => None,
    }
}

/// The member `key` of a TOML value, with `toml::Value::get`. Nothing is
/// claimed of it.
#[verifier::external_body]
fn toml_get<'a>(value: &'a toml::Value, key: &str) -> (r: Option<&'a toml::Value>) {
    value.get(key)
}

/// A TOML value as text, with `toml::Value::as_str`. Nothing is claimed of
/// it.
#[verifier::external_body]
fn toml_as_str(value: &toml::Value) -> (r: Option<String>) {
    match value.as_str() {
        Some(text) => Some(text.to_string()),
        None => None,
    }
}

/// The text at `first.second` in a TOML value, if there is one.
fn toml_text_at(value: &toml::Value, first: &str, second: &str) -> (r: Option<String>) {
    match toml_get(value, first) {
        Some(table) => match toml_get(table, second) {
            Some(name) => toml_as_str(name),
            None => None,
        },
        None => None,
    }
}

/// The module name that a project description gives, from the project name
/// and the Poetry name found in it: the project name where there is one,
/// else the Poetry name, with underscores for hyphens.
pub open spec fn described_module(project_name: Option<Seq<char>>, poetry_name: Option<Seq<char>>)
    -> Option<Seq<char>> {
    match project_name {
        Some(name) => Some(underscored(name)),
        None => match poetry_name {
            Some(name) => Some(underscored(name)),
            None => None,
        },
    }
}

/// Picks the module name out of the two names that a project description
/// may give.
pub fn module_from_names(project_name: Option<String>, poetry_name: Option<String>) -> (r: Option<
    String,
>)
    ensures
        r.deep_view() == described_module(project_name.deep_view(), poetry_name.deep_view()),
{
    match project_name {
        Some(name) => Some(underscore(name.as_str())),
        None => match poetry_name {
            Some(name) => Some(underscore(name.as_str())),
            None => None,
        },
    }
}

/// The module name that the project description gives: from `project.name`,
/// or else from `tool.poetry.name`. A description that cannot be read gives
/// none.
pub fn parse_python_module(probe: &ProjectProbe) -> (r: Option<String>)
    ensures
        !(probe.pyproject is Text) ==> r is None,
        exists|project_name: Option<Seq<char>>, poetry_name: Option<Seq<char>>|
            r.deep_view() == described_module(project_name, poetry_name),
{
    assert(described_module(None, None) is None);
    let contents = match &probe.pyproject {
        FileProbe::Text(contents) => contents,
        _ => {
            return None;
        },
    };
    let value = match parse_toml(contents.as_str()) {
        Some(value) => value,
        None => {
            return None;
        },
    };
    let project_name = toml_text_at(&value, "project", "name");
    let poetry_name = match toml_get(&value, "tool") {
        Some(tool) => toml_text_at(tool, "poetry", "name"),
        None => None,
    };
    module_from_names(project_name, poetry_name)
}

/// Looks at a Python project: one with a project description or a list of
/// requirements is run as a module, through `uv` where it is set up for it.
pub fn detect_python(probe: &ProjectProbe, suggestions: &mut Vec<RunSuggestion>)
    ensures
        exists|described: Option<Seq<char>>|
            final(suggestions).deep_view() == with_python(
                old(suggestions).deep_view(),
                *probe,
                described,
            ),
        !(probe.pyproject is Text) ==> final(suggestions).deep_view() == with_python(
            old(suggestions).deep_view(),
            *probe,
            None,
        ),
{
    let described = parse_python_module(probe);
    suggest_python(probe, described, suggestions);
}

/// The suggestion for a project with a Gradle wrapper.
pub open spec fn gradle_suggestion(root: Seq<char>) -> RunSuggestionView {
    suggestion("java"@, "./gradlew"@, seq!["run"@], root, "Detected Gradle wrapper"@)
}

/// The list after a Gradle wrapper was looked for.
pub open spec fn with_gradle(list: Seq<RunSuggestionView>, probe: ProjectProbe) -> Seq<
    RunSuggestionView,
> {
    if probe.has_gradlew || probe.has_gradlew_bat {
        with_unique(list, gradle_suggestion(probe.root@))
    } else {
        list
    }
}

/// Looks for a Gradle wrapper.
pub fn detect_gradle(probe: &ProjectProbe, suggestions: &mut Vec<RunSuggestion>)
    ensures
        final(suggestions).deep_view() == with_gradle(old(suggestions).deep_view(), *probe),
{
    if !(probe.has_gradlew || probe.has_gradlew_bat) {
        return;
    }
    let mut args: Vec<String> = Vec::new();
    args.push(String::from_str("run"));
    assert(args.deep_view() =~= seq!["run"@]);
    push_unique(
        suggestions,
        RunSuggestion {
            language: String::from_str("java"),
            command: String::from_str("./gradlew"),
            args,
            env: EnvMap::new(),
            cwd: Some(probe.root.clone()),
            reason: String::from_str("Detected Gradle wrapper"),
        },
    );
}

/// The suggestion for a Cargo package.
pub open spec fn rust_suggestion(root: Seq<char>) -> RunSuggestionView {
    suggestion("rust"@, "cargo"@, seq!["run"@], root, "Detected Cargo.toml"@)
}

/// The list after a Cargo manifest was looked for.
pub open spec fn with_rust(list: Seq<RunSuggestionView>, probe: ProjectProbe) -> Seq<
    RunSuggestionView,
> {
    if probe.has_cargo_toml {
        with_unique(list, rust_suggestion(probe.root@))
    } else {
        list
    }
}

/// Looks for a Cargo manifest.
pub fn detect_rust(probe: &ProjectProbe, suggestions: &mut Vec<RunSuggestion>)
    ensures
        final(suggestions).deep_view() == with_rust(old(suggestions).deep_view(), *probe),
{
    if !probe.has_cargo_toml {
        return;
    }
    let mut args: Vec<String> = Vec::new();
    args.push(String::from_str("run"));
    assert(args.deep_view() =~= seq!["run"@]);
    push_unique(
        suggestions,
        RunSuggestion {
            language: String::from_str("rust"),
            command: String::from_str("cargo"),
            args,
            env: EnvMap::new(),
            cwd: Some(probe.root.clone()),
            reason: String::from_str("Detected Cargo.toml"),
        },
    );
}

/// The suggestion for a Go module.
pub open spec fn go_suggestion(root: Seq<char>) -> RunSuggestionView {
    suggestion("go"@, "go"@, seq!["run"@, "."@], root, "Detected go.mod"@)
}

/// The list after a Go module file was looked for.
pub open spec fn with_go(list: Seq<RunSuggestionView>, probe: ProjectProbe) -> Seq<
    RunSuggestionView,
> {
    if probe.has_go_mod {
        with_unique(list, go_suggestion(probe.root@))
    } else {
        list
    }
}

/// Looks for a Go module file.
pub fn detect_go(probe: &ProjectProbe, suggestions: &mut Vec<RunSuggestion>)
    ensures
        final(suggestions).deep_view() == with_go(old(suggestions).deep_view(), *probe),
{
    if !probe.has_go_mod {
        return;
    }
    let mut args: Vec<String> = Vec::new();
    args.push(String::from_str("run"));
    args.push(String::from_str("."));
    assert(args.deep_view() =~= seq!["run"@, "."@]);
    push_unique(
        suggestions,
        RunSuggestion {
            language: String::from_str("go"),
            command: String::from_str("go"),
            args,
            env: EnvMap::new(),
            cwd: Some(probe.root.clone()),
            reason: String::from_str("Detected go.mod"),
        },
    );
}

/// A letter in lower case, where it is one of the 26 capital letters of
/// ASCII, else the character itself.
pub open spec fn ascii_lowered(c: char) -> char {
    if 0x41 <= c as u32 <= 0x5A {
        ((c as u32 + 0x20) as u8) as char
    } else {
        c
    }
}

/// Whether a file extension is `csproj`, in capital or small letters.
pub open spec fn is_csproj(extension: Seq<char>) -> bool {
    extension.len() == "csproj"@.len() && forall|i: int|
        0 <= i < extension.len() ==> ascii_lowered(#[trigger] extension[i]) == ascii_lowered(
            "csproj"@[i],
        )
}

/// Whether an entry of the walk is a C# project file.
pub open spec fn is_project_file(entry: WalkedEntry) -> bool {
    entry.is_file && entry.extension is Some && is_csproj(entry.extension->0@)
}

/// The position of the first C# project file at or after `from`, or the
/// number of entries.
pub open spec fn first_project_file(walked: Seq<WalkedEntry>, from: int) -> int
    decreases walked.len() - from,
{
    if 0 <= from < walked.len() && !is_project_file(walked[from]) {
        first_project_file(walked, from + 1)
    } else {
        from
    }
}

/// The suggestion for a .NET project in the directory `dir`.
pub open spec fn dotnet_suggestion(dir: Seq<char>) -> RunSuggestionView {
    suggestion(".net"@, "dotnet"@, seq!["run"@], dir, "Detected .csproj file"@)
}

fn lower_ascii(c: char) -> (r: char)
    ensures
        r == ascii_lowered(c),
{
    let n: u32 = c as u32;
    if 0x41 <= n && n <= 0x5A {
        ((n + 0x20) as u8) as char
    } else {
        c
    }
}

/// Tells whether a file extension is `csproj`, in capital or small letters.
pub fn extension_is_csproj(extension: &str) -> (r: bool)
    ensures
        r == is_csproj(extension@),
{
    let text = chars_of(extension);
    let wanted = chars_of("csproj");
    if text.len() != wanted.len() {
        return false;
    }
    let mut i: usize = 0;
    while i < text.len()
        invariant
            i <= text@.len(),
            text@ == extension@,
            wanted@ == "csproj"@,
            text@.len() == wanted@.len(),
            forall|k: int|
                0 <= k < i ==> ascii_lowered(#[trigger] text@[k]) == ascii_lowered(wanted@[k]),
        decreases text@.len() - i,
    {
        if lower_ascii(text[i]) != lower_ascii(wanted[i]) {
            return false;
        }
        i += 1;
    }
    true
}

/// The list after the entries of the walk were searched for a C# project
/// file: the directory of the first one, where it has one, runs the project.
pub open spec fn with_dotnet(list: Seq<RunSuggestionView>, probe: ProjectProbe) -> Seq<
    RunSuggestionView,
> {
    let at = first_project_file(probe.walked@, 0);
    if 0 <= at < probe.walked@.len() && probe.walked@[at].parent is Some {
        with_unique(list, dotnet_suggestion(probe.walked@[at].parent->0@))
    } else {
        list
    }
}

/// Looks for a C# project file among the entries of the walk.
pub fn detect_dotnet(probe: &ProjectProbe, suggestions: &mut Vec<RunSuggestion>)
    ensures
        final(suggestions).deep_view() == with_dotnet(old(suggestions).deep_view(), *probe),
{
    let mut i: usize = 0;
    while i < probe.walked.len()
        invariant
            i <= probe.walked@.len(),
            *suggestions == *old(suggestions),
            first_project_file(probe.walked@, 0) == first_project_file(probe.walked@, i as int),
        decreases probe.walked@.len() - i,
    {
        let entry = &probe.walked[i];
        let found = entry.is_file && match &entry.extension {
            Some(extension) => extension_is_csproj(extension.as_str()),
            None => false,
        };
        if found {
            match &entry.parent {
                Some(dir) => {
                    let mut args: Vec<String> = Vec::new();
                    args.push(String::from_str("run"));
                    assert(args.deep_view() =~= seq!["run"@]);
                    push_unique(
                        suggestions,
                        RunSuggestion {
                            language: String::from_str(".net"),
                            command: String::from_str("dotnet"),
                            args,
                            env: EnvMap::new(),
                            cwd: Some(dir.clone()),
                            reason: String::from_str("Detected .csproj file"),
                        },
                    );
                },
                None => {},
            }
            return;
        }
        i += 1;
    }
}

/// The suggestion for a project with a makefile.
pub open spec fn make_suggestion(root: Seq<char>) -> RunSuggestionView {
    suggestion("c"@, "make"@, Seq::empty(), root, "Detected Makefile"@)
}

/// The suggestion for a project built with CMake.
pub open spec fn cmake_suggestion(root: Seq<char>) -> RunSuggestionView {
    suggestion("c"@, "cmake"@, seq!["--build"@, "build"@], root, "Detected CMakeLists.txt"@)
}

/// The list after the build files of a C project were looked for.
pub open spec fn with_c_like(list: Seq<RunSuggestionView>, probe: ProjectProbe) -> Seq<
    RunSuggestionView,
> {
    let first = if probe.has_makefile {
        with_unique(list, make_suggestion(probe.root@))
    } else {
        list
    };
    if probe.has_cmake_lists {
        with_unique(first, cmake_suggestion(probe.root@))
    } else {
        first
    }
}

/// Looks for a makefile and for a CMake project file.
pub fn detect_c_like(probe: &ProjectProbe, suggestions: &mut Vec<RunSuggestion>)
    ensures
        final(suggestions).deep_view() == with_c_like(old(suggestions).deep_view(), *probe),
{
    if probe.has_makefile {
        let args: Vec<String> = Vec::new();
        assert(args.deep_view() =~= Seq::<Seq<char>>::empty());
        push_unique(
            suggestions,
            RunSuggestion {
                language: String::from_str("c"),
                command: String::from_str("make"),
                args,
                env: EnvMap::new(),
                cwd: Some(probe.root.clone()),
                reason: String::from_str("Detected Makefile"),
            },
        );
    }
    if probe.has_cmake_lists {
        let mut args: Vec<String> = Vec::new();
        args.push(String::from_str("--build"));
        args.push(String::from_str("build"));
        assert(args.deep_view() =~= seq!["--build"@, "build"@]);
        push_unique(
            suggestions,
            RunSuggestion {
                language: String::from_str("c"),
                command: String::from_str("cmake"),
                args,
                env: EnvMap::new(),
                cwd: Some(probe.root.clone()),
                reason: String::from_str("Detected CMakeLists.txt"),
            },
        );
    }
}

/// The ways to run a project, for given answers of its package description
/// and its project description: what the package description, the Python
/// files, the Gradle wrapper, the Cargo manifest, the Go module file, a C#
/// project file and the build files of a C project give, in this order.
pub open spec fn project_runs(
    probe: ProjectProbe,
    has_dev: bool,
    has_start: bool,
    described: Option<Seq<char>>,
) -> Seq<RunSuggestionView> {
    with_c_like(
        with_dotnet(
            with_go(
                with_rust(
                    with_gradle(
                        with_python(
                            with_node(Seq::empty(), probe.root@, has_dev, has_start),
                            probe,
                            described,
                        ),
                        probe,
                    ),
                    probe,
                ),
                probe,
            ),
            probe,
        ),
        probe,
    )
}

/// Suggests ways to run the project in a directory. A path at which nothing
/// exists, or no directory, is refused. What the two descriptions say is
/// left to the libraries that read them.
pub fn detect_project_runs(exists: bool, is_dir: bool, probe: &ProjectProbe) -> (r: Result<
    Vec<RunSuggestion>,
    String,
>)
    ensures
        !exists ==> r is Err && r->Err_0@ == "Path does not exist"@,
        exists && !is_dir ==> r is Err && r->Err_0@ == "Path must point to a directory"@,
        exists && is_dir ==> r is Ok && exists|
            has_dev: bool,
            has_start: bool,
            described: Option<Seq<char>>,
        |
            r->Ok_0.deep_view() == project_runs(*probe, has_dev, has_start, described),
{
    if !exists {
        return Err(String::from_str("Path does not exist"));
    }
    if !is_dir {
        return Err(String::from_str("Path must point to a directory"));
    }
    let mut suggestions: Vec<RunSuggestion> = Vec::new();
    assert(suggestions.deep_view() =~= Seq::<RunSuggestionView>::empty());
    detect_node(probe, &mut suggestions);
    let ghost (has_dev, has_start) = choose|has_dev: bool, has_start: bool|
        suggestions.deep_view() == with_node(Seq::empty(), probe.root@, has_dev, has_start);
    let ghost after_node = suggestions.deep_view();
    detect_python(probe, &mut suggestions);
    let ghost described = choose|described: Option<Seq<char>>|
        suggestions.deep_view() == with_python(after_node, *probe, described);
    detect_gradle(probe, &mut suggestions);
    detect_rust(probe, &mut suggestions);
    detect_go(probe, &mut suggestions);
    detect_dotnet(probe, &mut suggestions);
    detect_c_like(probe, &mut suggestions);
    assert(suggestions.deep_view() == project_runs(*probe, has_dev, has_start, described));
    Ok(suggestions)
}

} // verus!
