//! The command that sets up a new project: what it asks for, and the files
//! that it writes.

use crate::plain::plain_template;
use crate::package::{binary_name, crate_name, package_name_to_binary_name, package_name_to_crate_name};
use crate::targets::{selected_targets, targets_at, AVAILABLE_TARGETS, DEFAULT_TARGETS};
use crate::text::owned;
use crate::template::{render, Context, ContextView, RenderError};
use vstd::prelude::*;

verus! {

/// Creates a new project with pre-configured boilerplate.
#[derive(Debug, Clone)]
pub struct NewCommand {
    /// The path where the crate will be created.
    pub path: String,
    /// The name of the package.
    pub name: Option<String>,
    /// All targets the crate will be compiled for.
    pub targets: Option<Vec<String>>,
    /// Whether to take the default targets.
    pub enable_default_targets: bool,
    /// Whether to take all available targets.
    pub enable_all_targets: bool,
    /// Whether to enable the generation of TypeScript definitions.
    pub type_def: bool,
    /// Whether to generate preconfigured GitHub actions in the crate's folder.
    pub enable_github_actions: bool,
}

/// What a [`NewCommand`] stands for in contracts.
pub struct NewCommandView {
    pub path: Seq<char>,
    pub name: Option<Seq<char>>,
    pub targets: Option<Seq<Seq<char>>>,
    pub enable_default_targets: bool,
    pub enable_all_targets: bool,
    pub type_def: bool,
    pub enable_github_actions: bool,
}

impl View for NewCommand {
    type V = NewCommandView;

    open spec fn view(&self) -> NewCommandView {
        NewCommandView {
            path: self.path@,
            name: self.name.deep_view(),
            targets: self.targets.deep_view(),
            enable_default_targets: self.enable_default_targets,
            enable_all_targets: self.enable_all_targets,
            type_def: self.type_def,
            enable_github_actions: self.enable_github_actions,
        }
    }
}

/// A file to write: where, and what.
#[derive(Debug, Clone)]
pub struct OutputFile {
    pub path: String,
    pub content: String,
}

/// What an [`OutputFile`] stands for in contracts.
pub struct OutputFileView {
    pub path: Seq<char>,
    pub content: Seq<char>,
}

impl View for OutputFile {
    type V = OutputFileView;

    open spec fn view(&self) -> OutputFileView {
        OutputFileView { path: self.path@, content: self.content@ }
    }
}

impl NewCommandView {
    /// Whether the targets have to be chosen by hand: none were given, and
    /// neither the default ones nor all of them were asked for.
    pub open spec fn asks_targets(self) -> bool {
        self.targets is None && !self.enable_default_targets && !self.enable_all_targets
    }

    /// The targets once `selected`, positions among the available targets,
    /// has come in as the choice made by hand.
    ///
    /// Targets that were given stay. Else the default targets are taken where
    /// they were asked for, else all available targets where those were asked
    /// for, else the chosen ones. An empty choice leaves the targets open.
    pub open spec fn targets_after(self, selected: Seq<usize>) -> Option<Seq<Seq<char>>> {
        if self.targets is Some {
            self.targets
        } else if self.enable_default_targets {
            Some(DEFAULT_TARGETS.deep_view())
        } else if self.enable_all_targets {
            Some(AVAILABLE_TARGETS.deep_view())
        } else if selected.len() > 0 {
            Some(targets_at(selected))
        } else {
            None
        }
    }

    /// The path of the file `file_name` of the project.
    pub open spec fn file_path(self, file_name: Seq<char>) -> Seq<char> {
        self.path + seq!['/'] + file_name
    }
}

/// The values that the template of `Cargo.toml` refers to, for a package
/// called `name`.
pub open spec fn cargo_toml_values(name: Seq<char>) -> ContextView {
    ContextView {
        texts: seq![("name"@, crate_name(name)), ("license"@, "MIT"@)],
        numbers: seq![
            ("napi_version"@, 2i64),
            ("napi_derive_version"@, 2i64),
            ("napi_build_version"@, 1i64),
        ],
        lists: seq![],
    }
}

/// The values that the template of `package.json` refers to, for a package
/// called `name` that is built for `targets`.
pub open spec fn package_json_values(name: Seq<char>, targets: Seq<Seq<char>>) -> ContextView {
    ContextView {
        texts: seq![
            ("name"@, name),
            ("binary_name"@, binary_name(name)),
            ("license"@, "MIT"@),
            ("min_node_version"@, "10"@),
        ],
        numbers: seq![],
        lists: seq![("targets"@, targets)],
    }
}

/// Builds the values that the template of `Cargo.toml` refers to.
pub fn cargo_toml_context(name: &str) -> (context: Context)
    ensures
        context@ == cargo_toml_values(name@),
{
    let mut texts: Vec<(String, String)> = Vec::new();
    texts.push(("name".to_owned(), package_name_to_crate_name(name)));
    texts.push(("license".to_owned(), "MIT".to_owned()));
    let mut numbers: Vec<(String, i64)> = Vec::new();
    numbers.push(("napi_version".to_owned(), 2));
    numbers.push(("napi_derive_version".to_owned(), 2));
    numbers.push(("napi_build_version".to_owned(), 1));
    let context = Context { texts, numbers, lists: Vec::new() };
    proof {
        assert(context@.texts =~= cargo_toml_values(name@).texts);
        assert(context@.numbers =~= cargo_toml_values(name@).numbers);
        assert(context@.lists =~= cargo_toml_values(name@).lists);
    }
    context
}

/// Builds the values that the template of `package.json` refers to.
pub fn package_json_context(name: &str, targets: &Vec<String>) -> (context: Context)
    ensures
        context@ == package_json_values(name@, targets.deep_view()),
{
    let mut texts: Vec<(String, String)> = Vec::new();
    texts.push(("name".to_owned(), name.to_owned()));
    texts.push(("binary_name".to_owned(), package_name_to_binary_name(name)));
    texts.push(("license".to_owned(), "MIT".to_owned()));
    texts.push(("min_node_version".to_owned(), "10".to_owned()));
    let mut lists: Vec<(String, Vec<String>)> = Vec::new();
    lists.push(("targets".to_owned(), targets.clone()));
    let context = Context { texts, numbers: Vec::new(), lists };
    proof {
        assert(context@.texts =~= package_json_values(name@, targets.deep_view()).texts);
        assert(context@.numbers =~= package_json_values(name@, targets.deep_view()).numbers);
        assert(context@.lists =~= package_json_values(name@, targets.deep_view()).lists);
    }
    context
}

impl NewCommand {
    /// The answer that is offered when the package's name is asked for: the
    /// project's path. `None` where the name is known and nothing is asked.
    pub fn name_prompt(&self) -> (default: Option<String>)
        ensures
            default.deep_view() == if self@.name is None {
                Some(self@.path)
            } else {
                None
            },
    {
        match &self.name {
            Some(_) => None,
            None => Some(self.path.clone()),
        }
    }

    /// Takes `answer` as the package's name, unless the name is known.
    pub fn fetch_name(&mut self, answer: String)
        ensures
            final(self)@ == (NewCommandView {
                name: if old(self)@.name is Some {
                    old(self)@.name
                } else {
                    Some(answer@)
                },
                ..old(self)@
            }),
    {
        if self.name.is_none() {
            self.name = Some(answer);
        }
    }

    /// Whether the targets have to be chosen by hand.
    pub fn asks_targets(&self) -> (asks: bool)
        ensures
            asks == self@.asks_targets(),
    {
        self.targets.is_none() && !self.enable_default_targets && !self.enable_all_targets
    }

    /// Settles the targets, with `selected` as the choice made by hand, and
    /// says whether they are settled: they are not after an empty choice,
    /// which has to be made again.
    ///
    /// `selected` holds positions among the available targets, and is looked
    /// at only where the targets have to be chosen by hand.
    pub fn fetch_targets(&mut self, selected: &Vec<usize>) -> (settled: bool)
        requires
            old(self)@.asks_targets() ==> forall|k: int|
                0 <= k < selected@.len() ==> selected@[k] < AVAILABLE_TARGETS@.len(),
        ensures
            final(self)@ == (NewCommandView {
                targets: old(self)@.targets_after(selected@),
                ..old(self)@
            }),
            settled == final(self)@.targets is Some,
    {
        if self.targets.is_some() {
            return true;
        }
        if self.enable_default_targets {
            self.targets = Some(owned(&DEFAULT_TARGETS));
        } else if self.enable_all_targets {
            self.targets = Some(owned(&AVAILABLE_TARGETS));
        } else if selected.len() > 0 {
            self.targets = Some(selected_targets(selected));
        } else {
            return false;
        }
        true
    }

    /// The path of the file `file_name` of the project.
    pub fn file_path(&self, file_name: &str) -> (path: String)
        ensures
            path@ == self@.file_path(file_name@),
    {
        let mut path = self.path.clone();
        path.append("/");
        path.append(file_name);
        proof {
            reveal_strlit("/");
            assert("/"@ == seq!['/']);
        }
        path
    }

    /// The file `file_name` of the project with the text of `rendering` as
    /// its content, or the error of `rendering`.
    pub fn rendered_file(&self, file_name: &str, rendering: Result<String, RenderError>) -> (outcome:
        Result<OutputFile, RenderError>)
        ensures
            match rendering {
                Ok(text) => outcome matches Ok(file) && file@ == (OutputFileView {
                    path: self@.file_path(file_name@),
                    content: text@,
                }),
                Err(error) => outcome == Err::<OutputFile, _>(error),
            },
    {
        match rendering {
            Ok(content) => Ok(OutputFile { path: self.file_path(file_name), content }),
            Err(error) => Err(error),
        }
    }

    /// The project's `Cargo.toml`, rendered from `template` for a package
    /// called `name`. A template that is not plain is refused.
    pub fn cargo_toml(&self, template: &str, name: &str) -> (outcome: Result<
        OutputFile,
        RenderError,
    >)
        ensures
            match outcome {
                Ok(file) => {
                    &&& plain_template(template@)
                    &&& file@.path == self@.file_path("Cargo.toml"@)
                    &&& Some(file@.content) == cargo_toml_values(name@).rendered(
                        "Cargo.toml"@,
                        template@,
                    )
                },
                Err(RenderError::NotPlain) => !plain_template(template@),
                Err(RenderError::Engine(_)) => {
                    &&& plain_template(template@)
                    &&& cargo_toml_values(name@).rendered("Cargo.toml"@, template@) is None
                },
            },
    {
        let file_name = "Cargo.toml";
        let context = cargo_toml_context(name);
        self.rendered_file(file_name, render(file_name, template, &context))
    }

    /// The project's two source files, `src/lib.rs` and then `build.rs`, with
    /// the given contents.
    pub fn lib_files(&self, lib_rs: &str, build_rs: &str) -> (files: Vec<OutputFile>)
        ensures
            files@.len() == 2,
            files@[0]@.path == self@.file_path("src/lib.rs"@),
            files@[0]@.content == lib_rs@,
            files@[1]@.path == self@.file_path("build.rs"@),
            files@[1]@.content == build_rs@,
    {
        let mut files: Vec<OutputFile> = Vec::new();
        files.push(OutputFile { path: self.file_path("src/lib.rs"), content: lib_rs.to_owned() });
        files.push(OutputFile { path: self.file_path("build.rs"), content: build_rs.to_owned() });
        files
    }

    /// The project's `package.json`, rendered from `template` for a package
    /// called `name` that is built for `targets`. A template that is not
    /// plain is refused.
    pub fn package_json(&self, template: &str, name: &str, targets: &Vec<String>) -> (outcome:
        Result<OutputFile, RenderError>)
        ensures
            match outcome {
                Ok(file) => {
                    &&& plain_template(template@)
                    &&& file@.path == self@.file_path("package.json"@)
                    &&& Some(file@.content) == package_json_values(
                        name@,
                        targets.deep_view(),
                    ).rendered("package.json"@, template@)
                },
                Err(RenderError::NotPlain) => !plain_template(template@),
                Err(RenderError::Engine(_)) => {
                    &&& plain_template(template@)
                    &&& package_json_values(name@, targets.deep_view()).rendered(
                        "package.json"@,
                        template@,
                    ) is None
                },
            },
    {
        let file_name = "package.json";
        let context = package_json_context(name, targets);
        self.rendered_file(file_name, render(file_name, template, &context))
    }
}

} // verus!
