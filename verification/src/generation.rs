//! The course of generating the test files: what to do next, given what happened last.
//!
//! A [`Generation`] never touches the outside world. It asks for one [`Action`] at a time and is
//! told the outcome in an [`Event`].
use crate::error::GenerationError;
use crate::generator::{kind_outcome, kind_ready, GeneratorModel, TestGenerator};
use crate::items::{FfiItems, FfiItemsModel, ItemKind};
use crate::outside::{
    join_path, joined_path, parse_file, path_with_extension, separator_free, syntax_tree,
    with_extension,
};
use crate::skipping::texts;
use std::path::PathBuf;
use vstd::prelude::*;

verus! {

/// One of the two files that make up a test suite.
#[derive(Clone, Copy, Debug, PartialEq, Eq, Structural)]
pub enum TestSide {
    /// The Rust side of the tests.
    Rust,
    /// The C side of the tests.
    C,
}

impl TestSide {
    /// The name of the template for this side.
    pub open spec fn template(self) -> Seq<char> {
        match self {
            TestSide::Rust => "Rust"@,
            TestSide::C => "C"@,
        }
    }

    /// The name of the template for this side, as errors give it.
    pub fn template_name(self) -> (r: &'static str)
        ensures
            r@ == self.template(),
    {
        match self {
            TestSide::Rust => "Rust",
            TestSide::C => "C",
        }
    }

    /// The extension of the file for this side.
    pub open spec fn file_extension(self) -> Seq<char> {
        match self {
            TestSide::Rust => "rs"@,
            TestSide::C => "c"@,
        }
    }

    /// The extension of the file for this side.
    pub fn extension(self) -> (r: &'static str)
        ensures
            r@ == self.file_extension(),
            separator_free(r@),
    {
        proof {
            reveal_strlit("rs");
            reveal_strlit("c");
        }
        match self {
            TestSide::Rust => "rs",
            TestSide::C => "c",
        }
    }
}

/// What has to be done next.
pub enum Action {
    /// Expand the macros of the crate at this path.
    Expand(PathBuf),
    /// Collect the items that this syntax tree declares.
    Collect(syn::File),
    /// Print these lines to the standard error stream.
    Report(Vec<String>),
    /// Find the default output directory.
    FindOutDir,
    /// Create the file at this path, empty.
    Create(PathBuf),
    /// Render the template of this side for the remaining items.
    Render(TestSide),
    /// Write this text to the file that was created last.
    Write(String),
    /// Stop, with this result.
    Finish(Result<PathBuf, GenerationError>),
}

/// What came of the last action.
#[derive(Debug)]
pub enum Event {
    /// The expanded source, or why there is none.
    Expanded(Result<String, String>),
    /// The items that were found.
    Collected(FfiItems),
    /// The lines have been printed.
    Reported,
    /// The default output directory.
    OutDirFound(PathBuf),
    /// Whether the file was created.
    Created(Result<(), std::io::Error>),
    /// The rendered text, or why there is none.
    Rendered(Result<String, String>),
    /// Whether the text was written.
    Written(Result<(), std::io::Error>),
}

/// Which action is under way.
#[derive(Clone, Copy, Debug, PartialEq, Eq, Structural)]
pub enum Stage {
    Expanding,
    Collecting,
    Reporting(ItemKind),
    Locating,
    Creating(TestSide),
    Rendering(TestSide),
    Writing(TestSide),
    Finished,
}

/// A run of the generator.
pub struct Generation {
    crate_path: PathBuf,
    file_path: PathBuf,
    output: Option<PathBuf>,
    ffi_items: FfiItems,
    stage: Stage,
}

/// The state of a run.
#[verifier::ext_equal]
pub ghost struct GenerationModel {
    pub crate_path: PathBuf,
    pub file_path: PathBuf,
    pub output: Option<PathBuf>,
    pub ffi_items: FfiItemsModel,
    pub stage: Stage,
}

impl View for Generation {
    type V = GenerationModel;

    closed spec fn view(&self) -> GenerationModel {
        GenerationModel {
            crate_path: self.crate_path,
            file_path: self.file_path,
            output: self.output,
            ffi_items: self.ffi_items@,
            stage: self.stage,
        }
    }
}

impl GenerationModel {
    /// The beginning of a run.
    pub open spec fn start(crate_path: PathBuf, file_path: PathBuf) -> GenerationModel {
        GenerationModel {
            crate_path,
            file_path,
            output: None,
            ffi_items: FfiItemsModel::empty(),
            stage: Stage::Expanding,
        }
    }

    /// The path of the output files is known once they are being made.
    pub open spec fn well_formed(self) -> bool {
        (self.stage is Creating || self.stage is Rendering || self.stage is Writing)
            ==> self.output is Some
    }

    /// `event` is the outcome of the action that is under way, and the items that are filtered
    /// next can be put to the skip rules.
    pub open spec fn expects(self, generator: GeneratorModel, event: Event) -> bool {
        match event {
            Event::Expanded(_) => self.stage is Expanding,
            Event::Collected(items) => self.stage is Collecting && kind_ready(
                generator.skips,
                items@,
                ItemKind::Alias,
            ),
            Event::Reported => match self.stage {
                Stage::Reporting(kind) => match kind.successor() {
                    Some(next) => kind_ready(generator.skips, self.ffi_items, next),
                    None => true,
                },
                _ => false,
            },
            Event::OutDirFound(_) => self.stage is Locating,
            Event::Created(_) => self.stage is Creating,
            Event::Rendered(_) => self.stage is Rendering,
            Event::Written(_) => self.stage is Writing,
        }
    }

    /// The same run in another stage.
    pub open spec fn at(self, stage: Stage) -> GenerationModel {
        GenerationModel { stage, ..self }
    }

    /// The path of the output file for a side.
    pub open spec fn output_for(self, side: TestSide) -> PathBuf {
        path_with_extension(self.output->0, side.file_extension())
    }

    /// Of one kind, the items that are not skipped stay, and the others are reported.
    pub open spec fn reports(
        self,
        generator: GeneratorModel,
        items: FfiItemsModel,
        kind: ItemKind,
        after: GenerationModel,
        action: Action,
    ) -> bool {
        &&& after == (GenerationModel {
            ffi_items: after.ffi_items,
            stage: Stage::Reporting(kind),
            ..self
        })
        &&& match action {
            Action::Report(lines) => exists|marks: Seq<bool>| #[trigger]
                kind_outcome(generator, items, kind, marks, after.ffi_items, texts(lines@)),
            _ => false,
        }
    }

    /// With the output directory known, the Rust file is created first.
    pub open spec fn locates(
        self,
        directory: PathBuf,
        after: GenerationModel,
        action: Action,
    ) -> bool {
        &&& after == (GenerationModel {
            output: Some(joined_path(directory, self.file_path)),
            stage: Stage::Creating(TestSide::Rust),
            ..self
        })
        &&& action == Action::Create(after.output_for(TestSide::Rust))
    }

    /// The run ends with an error.
    pub open spec fn fails(
        self,
        error: GenerationError,
        after: GenerationModel,
        action: Action,
    ) -> bool {
        &&& after == self.at(Stage::Finished)
        &&& action == Action::Finish(Err(error))
    }

    /// When `event` comes in, the run goes on as `after` and asks for `action`.
    pub open spec fn steps(
        self,
        generator: GeneratorModel,
        event: Event,
        after: GenerationModel,
        action: Action,
    ) -> bool {
        match (event, self.stage) {
            (Event::Expanded(Ok(source)), _) => {
                match syntax_tree(source@) {
                    Ok(tree) => {
                        &&& after == self.at(Stage::Collecting)
                        &&& action == Action::Collect(tree)
                    },
                    Err(reason) => {
                        &&& after == self.at(Stage::Finished)
                        &&& action matches Action::Finish(
                            Err(GenerationError::RustSyntax(text, message)),
                        ) && text == source && message@ == reason
                    },
                }
            },
            (Event::Expanded(Err(reason)), _) => self.fails(
                GenerationError::MacroExpansion(self.crate_path, reason),
                after,
                action,
            ),
            (Event::Collected(items), _) => self.reports(
                generator,
                items@,
                ItemKind::Alias,
                after,
                action,
            ),
            (Event::Reported, Stage::Reporting(kind)) => {
                match (kind.successor(), generator.out_dir) {
                    (Some(next), _) => self.reports(
                        generator,
                        self.ffi_items,
                        next,
                        after,
                        action,
                    ),
                    (None, Some(directory)) => self.locates(directory, after, action),
                    (None, None) => {
                        &&& after == self.at(Stage::Locating)
                        &&& action == Action::FindOutDir
                    },
                }
            },
            (Event::OutDirFound(directory), _) => self.locates(directory, after, action),
            (Event::Created(Ok(_)), Stage::Creating(side)) => {
                &&& after == self.at(Stage::Rendering(side))
                &&& action == Action::Render(side)
            },
            (Event::Rendered(Ok(text)), Stage::Rendering(side)) => {
                &&& after == self.at(Stage::Writing(side))
                &&& action == Action::Write(text)
            },
            (Event::Rendered(Err(reason)), Stage::Rendering(side)) => {
                &&& after == self.at(Stage::Finished)
                &&& action matches Action::Finish(
                    Err(GenerationError::TemplateRender(template, message)),
                ) && template@ == side.template() && message == reason
            },
            (Event::Written(Ok(_)), Stage::Writing(TestSide::Rust)) => {
                &&& after == self.at(Stage::Creating(TestSide::C))
                &&& action == Action::Create(self.output_for(TestSide::C))
            },
            (Event::Written(Ok(_)), Stage::Writing(TestSide::C)) => {
                &&& after == self.at(Stage::Finished)
                &&& action == Action::Finish(Ok(self.output->0))
            },
            (Event::Created(Err(error)), _) => self.fails(
                GenerationError::OsError(error),
                after,
                action,
            ),
            (Event::Written(Err(error)), _) => self.fails(
                GenerationError::OsError(error),
                after,
                action,
            ),
            _ => false,
        }
    }
}

/// The path of the output file for a side: the extension of `output` is that of the side.
pub fn side_path(output: &PathBuf, side: TestSide) -> (r: PathBuf)
    ensures
        r == path_with_extension(*output, side.file_extension()),
{
    with_extension(output, side.extension())
}

/// Takes up the result of parsing the expanded source: an error is reported with the source.
pub fn parsed_crate(source: String, parsed: Result<syn::File, String>) -> (r: Result<
    syn::File,
    GenerationError,
>)
    ensures
        r == match parsed {
            Ok(tree) => Ok::<syn::File, GenerationError>(tree),
            Err(reason) => Err(GenerationError::RustSyntax(source, reason)),
        },
{
    match parsed {
        Ok(tree) => Ok(tree),
        Err(reason) => Err(GenerationError::RustSyntax(source, reason)),
    }
}

/// Parses the expanded source of a crate.
pub fn parse_crate(source: String) -> (r: Result<syn::File, GenerationError>)
    ensures
        (match syntax_tree(source@) {
            Ok(tree) => r == Ok::<syn::File, GenerationError>(tree),
            Err(reason) => r matches Err(GenerationError::RustSyntax(s, text)) && s == source
                && text@ == reason,
        }),
{
    let parsed = parse_file(source.as_str());
    parsed_crate(source, parsed)
}

impl TestGenerator {
    /// Generates the Rust and C testing files.
    ///
    /// Returns the run, and its first action; [`Generation::advance`] gives the others. The last
    /// action gives the path of the generated files, with the extension that `output_file_path`
    /// has in place of their own.
    pub fn generate_files(&mut self, crate_path: PathBuf, output_file_path: PathBuf) -> (r: (
        Generation,
        Action,
    ))
        ensures
            *final(self) == *old(self),
            r.0@ == GenerationModel::start(crate_path, output_file_path),
            r.0@.well_formed(),
            r.1 == Action::Expand(crate_path),
    {
        let action = Action::Expand(crate_path.clone());
        let generation = Generation {
            crate_path,
            file_path: output_file_path,
            output: None,
            ffi_items: FfiItems::new(),
            stage: Stage::Expanding,
        };
        (generation, action)
    }
}

impl Generation {
    /// The items that tests are generated for.
    pub fn ffi_items(&self) -> (r: &FfiItems)
        ensures
            r@ == self@.ffi_items,
    {
        &self.ffi_items
    }

    /// The action that is under way.
    pub fn stage(&self) -> (r: Stage)
        ensures
            r == self@.stage,
    {
        self.stage
    }

    /// Ends the run with an error.
    fn fail(&mut self, error: GenerationError) -> (action: Action)
        ensures
            old(self)@.fails(error, final(self)@, action),
    {
        self.stage = Stage::Finished;
        Action::Finish(Err(error))
    }

    /// Takes up the syntax tree of the expanded crate, or why there is none.
    pub fn take_tree(&mut self, parsed: Result<syn::File, GenerationError>) -> (action: Action)
        ensures
            (match parsed {
                Ok(tree) => final(self)@ == old(self)@.at(Stage::Collecting) && action
                    == Action::Collect(tree),
                Err(error) => old(self)@.fails(error, final(self)@, action),
            }),
    {
        match parsed {
            Ok(tree) => {
                self.stage = Stage::Collecting;
                Action::Collect(tree)
            },
            Err(error) => self.fail(error),
        }
    }

    /// Takes the skipped items of one kind out.
    fn report(&mut self, generator: &TestGenerator, kind: ItemKind) -> (action: Action)
        requires
            kind_ready(generator@.skips, old(self)@.ffi_items, kind),
        ensures
            old(self)@.reports(generator@, old(self)@.ffi_items, kind, final(self)@, action),
    {
        let lines = generator.filter_ffi_items(kind, &mut self.ffi_items);
        self.stage = Stage::Reporting(kind);
        let ghost said = texts(lines@);
        let action = Action::Report(lines);
        assert(texts(action->Report_0@) == said);
        action
    }

    /// Goes on after the items of `kind` have been reported.
    fn after_report(&mut self, generator: &TestGenerator, kind: ItemKind) -> (action: Action)
        requires
            old(self)@.stage == Stage::Reporting(kind),
            old(self)@.expects(generator@, Event::Reported),
        ensures
            old(self)@.steps(generator@, Event::Reported, final(self)@, action),
    {
        match kind.next() {
            Some(next) => self.report(generator, next),
            None => {
                match &generator.out_dir {
                    Some(directory) => self.locate(directory.clone()),
                    None => {
                        self.stage = Stage::Locating;
                        Action::FindOutDir
                    },
                }
            },
        }
    }

    /// Starts on the Rust file, in `directory`.
    fn locate(&mut self, directory: PathBuf) -> (action: Action)
        ensures
            old(self)@.locates(directory, final(self)@, action),
    {
        let output = join_path(&directory, &self.file_path);
        let file = side_path(&output, TestSide::Rust);
        self.output = Some(output);
        self.stage = Stage::Creating(TestSide::Rust);
        Action::Create(file)
    }

    /// Takes up the outcome of the last action, and says what to do next.
    pub fn advance(&mut self, generator: &TestGenerator, event: Event) -> (action: Action)
        requires
            old(self)@.well_formed(),
            old(self)@.expects(generator@, event),
        ensures
            final(self)@.well_formed(),
            old(self)@.steps(generator@, event, final(self)@, action),
    {
        match event {
            Event::Expanded(Err(reason)) => {
                let crate_path = self.crate_path.clone();
                self.fail(GenerationError::MacroExpansion(crate_path, reason))
            },
            Event::Expanded(Ok(source)) => {
                let parsed = parse_crate(source);
                self.take_tree(parsed)
            },
            Event::Collected(items) => {
                self.ffi_items = items;
                self.report(generator, ItemKind::Alias)
            },
            Event::Reported => {
                let kind = self.reported_kind();
                self.after_report(generator, kind)
            },
            Event::OutDirFound(directory) => self.locate(directory),
            Event::Created(Err(error)) => self.fail(GenerationError::OsError(error)),
            Event::Created(Ok(_)) => {
                let side = self.side();
                self.stage = Stage::Rendering(side);
                Action::Render(side)
            },
            Event::Rendered(Err(reason)) => {
                let template = self.side().template_name().to_string();
                self.fail(GenerationError::TemplateRender(template, reason))
            },
            Event::Rendered(Ok(text)) => {
                let side = self.side();
                self.stage = Stage::Writing(side);
                Action::Write(text)
            },
            Event::Written(Err(error)) => self.fail(GenerationError::OsError(error)),
            Event::Written(Ok(_)) => {
                match self.side() {
                    TestSide::Rust => {
                        let file = side_path(self.output.as_ref().unwrap(), TestSide::C);
                        self.stage = Stage::Creating(TestSide::C);
                        Action::Create(file)
                    },
                    TestSide::C => {
                        let output = self.output.as_ref().unwrap().clone();
                        self.stage = Stage::Finished;
                        Action::Finish(Ok(output))
                    },
                }
            },
        }
    }

    /// The kind of item that was reported last; aliases before any was.
    fn reported_kind(&self) -> (r: ItemKind)
        ensures
            (match self@.stage {
                Stage::Reporting(kind) => r == kind,
                _ => r == ItemKind::Alias,
            }),
    {
        match self.stage {
            Stage::Reporting(kind) => kind,
            _ => ItemKind::Alias,
        }
    }

    /// The side that is being made; the Rust side before any file is.
    fn side(&self) -> (r: TestSide)
        ensures
            (match self@.stage {
                Stage::Creating(side) => r == side,
                Stage::Rendering(side) => r == side,
                Stage::Writing(side) => r == side,
                _ => r == TestSide::Rust,
            }),
    {
        match self.stage {
            Stage::Creating(side) => side,
            Stage::Rendering(side) => side,
            Stage::Writing(side) => side,
            _ => TestSide::Rust,
        }
    }
}

} // verus!
