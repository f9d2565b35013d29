use crate::exercise::{exercise_path, join, join_spec, parse_identifier, Exercise};
use crate::templates::{
    context_bindings, no_bindings, readme_context, test_context, README_TEMPLATE, TEST_TEMPLATE,
};
use vstd::prelude::*;

verus! {

/// Name of the README file written into an exercise directory.
pub const README_FILE: &'static str = "README.md";

/// Name of the test stub written into an exercise directory.
pub const TEST_FILE: &'static str = "test.rkt";

/// The filesystem operation that failed.
#[derive(Clone, Copy, Debug, PartialEq, Eq, Structural)]
pub enum Operation {
    Inspect,
    CreateDir,
    WriteFile,
}

/// Why generating an exercise failed.
#[derive(Debug, PartialEq, Eq)]
pub enum GenerationError {
    /// The root directory does not exist.
    RootNotFound(String),
    /// The exercise directory is already there.
    ExerciseAlreadyExists(String),
    /// The identifier is not `<chapter>-<exercise>`.
    MalformedIdentifier(String),
    /// A filesystem operation on `path` failed.
    IoFailure { operation: Operation, path: String, cause: String },
    /// The named template could not be rendered.
    TemplateFailure { template: String, cause: String },
}

/// What a `GenerationError` says, as plain sequences.
pub enum ErrorView {
    RootNotFound(Seq<char>),
    ExerciseAlreadyExists(Seq<char>),
    MalformedIdentifier(Seq<char>),
    IoFailure(Operation, Seq<char>, Seq<char>),
    TemplateFailure(Seq<char>, Seq<char>),
}

impl View for GenerationError {
    type V = ErrorView;

    open spec fn view(&self) -> ErrorView {
        match self {
            GenerationError::RootNotFound(p) => ErrorView::RootNotFound(p@),
            GenerationError::ExerciseAlreadyExists(p) => ErrorView::ExerciseAlreadyExists(p@),
            GenerationError::MalformedIdentifier(s) => ErrorView::MalformedIdentifier(s@),
            GenerationError::IoFailure { operation, path, cause } => ErrorView::IoFailure(
                *operation,
                path@,
                cause@,
            ),
            GenerationError::TemplateFailure { template, cause } => ErrorView::TemplateFailure(
                template@,
                cause@,
            ),
        }
    }
}

/// What the caller must do next for a generation in progress.
#[derive(Debug)]
pub enum Action {
    /// Find out whether the root directory exists; answer with `Event::Found`.
    CheckRoot(String),
    /// Find out whether the exercise directory exists; answer with `Event::Found`.
    CheckExercise(String),
    /// Create this directory and every missing parent; answer with `Event::Done`.
    CreateDir(String),
    /// Render the named template with this context; answer with `Event::Rendered`.
    Render(String, tera::Context),
    /// Write the text (second) to the file (first); answer with `Event::Done`.
    WriteFile(String, String),
    /// The generation is over, with this outcome.
    Finish(Result<(), GenerationError>),
}

pub enum ActionView {
    CheckRoot(Seq<char>),
    CheckExercise(Seq<char>),
    CreateDir(Seq<char>),
    Render(Seq<char>, Map<Seq<char>, Seq<char>>),
    WriteFile(Seq<char>, Seq<char>),
    Finish(Result<(), ErrorView>),
}

impl View for Action {
    type V = ActionView;

    open spec fn view(&self) -> ActionView {
        match self {
            Action::CheckRoot(p) => ActionView::CheckRoot(p@),
            Action::CheckExercise(p) => ActionView::CheckExercise(p@),
            Action::CreateDir(p) => ActionView::CreateDir(p@),
            Action::Render(n, c) => ActionView::Render(n@, context_bindings(*c)),
            Action::WriteFile(p, t) => ActionView::WriteFile(p@, t@),
            Action::Finish(Ok(())) => ActionView::Finish(Ok(())),
            Action::Finish(Err(e)) => ActionView::Finish(Err(e@)),
        }
    }
}

/// The caller's answer to the last action.
#[derive(Debug)]
pub enum Event {
    /// Whether the path that was checked exists.
    Found(bool),
    /// The directory was created, or the file written.
    Done,
    /// The text that the template rendered to.
    Rendered(String),
    /// The operation failed, for this reason.
    Failed(String),
}

pub enum EventView {
    Found(bool),
    Done,
    Rendered(Seq<char>),
    Failed(Seq<char>),
}

impl View for Event {
    type V = EventView;

    open spec fn view(&self) -> EventView {
        match self {
            Event::Found(b) => EventView::Found(*b),
            Event::Done => EventView::Done,
            Event::Rendered(t) => EventView::Rendered(t@),
            Event::Failed(c) => EventView::Failed(c@),
        }
    }
}

/// How far a generation has come: each stage waits for the answer to one action.
#[derive(Clone, Copy, Debug, PartialEq, Eq, Structural)]
pub enum Stage {
    CheckingRoot,
    CheckingExercise,
    CreatingDir,
    RenderingReadme,
    WritingReadme,
    RenderingTest,
    WritingTest,
    Finished,
}

pub open spec fn is_check(stage: Stage) -> bool {
    stage == Stage::CheckingRoot || stage == Stage::CheckingExercise
}

pub open spec fn is_render(stage: Stage) -> bool {
    stage == Stage::RenderingReadme || stage == Stage::RenderingTest
}

/// Whether `event` is an answer that a generation in `stage` waits for: a check is
/// answered by `Found`, a rendering by `Rendered`, other work by `Done`, and any of
/// them may fail.
pub open spec fn awaits_spec(stage: Stage, event: EventView) -> bool {
    &&& stage != Stage::Finished
    &&& match event {
        EventView::Found(_) => is_check(stage),
        EventView::Rendered(_) => is_render(stage),
        EventView::Done => !is_check(stage) && !is_render(stage),
        EventView::Failed(_) => true,
    }
}

/// The directory of the exercise that `number` names under `root`.
pub open spec fn target_dir(root: Seq<char>, number: Seq<char>) -> Seq<char> {
    match parse_identifier(number) {
        Some((chapter, exercise)) => exercise_path(root, chapter, exercise),
        None => arbitrary(),
    }
}

/// The bindings the README of the exercise that `number` names is rendered with.
pub open spec fn readme_bindings(number: Seq<char>) -> Map<Seq<char>, Seq<char>> {
    match parse_identifier(number) {
        Some((chapter, exercise)) => map!["chapter"@ => chapter, "exercise"@ => exercise],
        None => arbitrary(),
    }
}

pub open spec fn finish_with(e: ErrorView) -> (Stage, ActionView) {
    (Stage::Finished, ActionView::Finish(Err(e)))
}

/// The next stage and action of the generation of `number` under `root`, in `stage`,
/// on `event`.
pub open spec fn transition(root: Seq<char>, number: Seq<char>, stage: Stage, event: EventView) -> (
    Stage,
    ActionView,
) {
    let dir = target_dir(root, number);
    let readme = join_spec(dir, README_FILE@);
    let stub = join_spec(dir, TEST_FILE@);
    match (stage, event) {
        (Stage::CheckingRoot, EventView::Found(true)) => match parse_identifier(number) {
            Some(_) => (Stage::CheckingExercise, ActionView::CheckExercise(dir)),
            None => finish_with(ErrorView::MalformedIdentifier(number)),
        },
        (Stage::CheckingRoot, EventView::Found(false)) => finish_with(ErrorView::RootNotFound(root)),
        (Stage::CheckingRoot, EventView::Failed(c)) => finish_with(
            ErrorView::IoFailure(Operation::Inspect, root, c),
        ),
        (Stage::CheckingExercise, EventView::Found(true)) => finish_with(
            ErrorView::ExerciseAlreadyExists(dir),
        ),
        (Stage::CheckingExercise, EventView::Found(false)) => (
            Stage::CreatingDir,
            ActionView::CreateDir(dir),
        ),
        (Stage::CheckingExercise, EventView::Failed(c)) => finish_with(
            ErrorView::IoFailure(Operation::Inspect, dir, c),
        ),
        (Stage::CreatingDir, EventView::Done) => (
            Stage::RenderingReadme,
            ActionView::Render(README_TEMPLATE@, readme_bindings(number)),
        ),
        (Stage::CreatingDir, EventView::Failed(c)) => finish_with(
            ErrorView::IoFailure(Operation::CreateDir, dir, c),
        ),
        (Stage::RenderingReadme, EventView::Rendered(text)) => (
            Stage::WritingReadme,
            ActionView::WriteFile(readme, text),
        ),
        (Stage::RenderingReadme, EventView::Failed(c)) => finish_with(
            ErrorView::TemplateFailure(README_TEMPLATE@, c),
        ),
        (Stage::WritingReadme, EventView::Done) => (
            Stage::RenderingTest,
            ActionView::Render(TEST_TEMPLATE@, no_bindings()),
        ),
        (Stage::WritingReadme, EventView::Failed(c)) => finish_with(
            ErrorView::IoFailure(Operation::WriteFile, readme, c),
        ),
        (Stage::RenderingTest, EventView::Rendered(text)) => (
            Stage::WritingTest,
            ActionView::WriteFile(stub, text),
        ),
        (Stage::RenderingTest, EventView::Failed(c)) => finish_with(
            ErrorView::TemplateFailure(TEST_TEMPLATE@, c),
        ),
        (Stage::WritingTest, EventView::Done) => (Stage::Finished, ActionView::Finish(Ok(()))),
        (Stage::WritingTest, EventView::Failed(c)) => finish_with(
            ErrorView::IoFailure(Operation::WriteFile, stub, c),
        ),
        _ => arbitrary(),
    }
}

/// The generation of one exercise, driven one action at a time: the caller performs
/// each action and hands back what came of it.
pub struct Generation {
    root: String,
    number: String,
    stage: Stage,
    exercise: Option<Exercise>,
}

impl Generation {
    pub closed spec fn root_spec(&self) -> Seq<char> {
        self.root@
    }

    pub closed spec fn number_spec(&self) -> Seq<char> {
        self.number@
    }

    pub closed spec fn stage_spec(&self) -> Stage {
        self.stage
    }

    /// Past the identifier check, the identifier is well formed and the exercise is
    /// the one it names.
    pub closed spec fn wf(&self) -> bool {
        match self.stage {
            Stage::CheckingRoot | Stage::Finished => true,
            _ => {
                &&& parse_identifier(self.number@) matches Some((c, x))
                &&& self.exercise matches Some(e)
                &&& e.chapter_spec() == c
                &&& e.exercise_spec() == x
                &&& e.path_spec() == exercise_path(self.root@, c, x)
            },
        }
    }

    /// Starts generating the exercise `number` (`<chapter>-<exercise>`) under `root`;
    /// the first action is to check that `root` exists.
    pub fn start(root: &str, number: &str) -> (r: (Generation, Action))
        ensures
            r.0.wf(),
            r.0.root_spec() == root@,
            r.0.number_spec() == number@,
            r.0.stage_spec() == Stage::CheckingRoot,
            r.1@ == ActionView::CheckRoot(root@),
    {
        let g = Generation {
            root: String::from_str(root),
            number: String::from_str(number),
            stage: Stage::CheckingRoot,
            exercise: None,
        };
        (g, Action::CheckRoot(String::from_str(root)))
    }

    pub fn stage(&self) -> (r: Stage)
        ensures
            r == self.stage_spec(),
    {
        self.stage
    }

    pub fn is_finished(&self) -> (r: bool)
        ensures
            r == (self.stage_spec() == Stage::Finished),
    {
        self.stage == Stage::Finished
    }

    /// Whether `event` is an answer this generation waits for.
    pub fn awaits(&self, event: &Event) -> (r: bool)
        ensures
            r == awaits_spec(self.stage_spec(), event@),
    {
        if self.stage == Stage::Finished {
            return false;
        }
        let checking = self.stage == Stage::CheckingRoot || self.stage == Stage::CheckingExercise;
        let rendering = self.stage == Stage::RenderingReadme || self.stage == Stage::RenderingTest;
        match event {
            Event::Found(_) => checking,
            Event::Rendered(_) => rendering,
            Event::Done => !checking && !rendering,
            Event::Failed(_) => true,
        }
    }

    fn exercise_ref(&self) -> (r: &Exercise)
        requires
            self.exercise is Some,
        ensures
            self.exercise == Some(*r),
    {
        match &self.exercise {
            Some(e) => e,
            None => unreached(),
        }
    }

    fn finish(&mut self, e: GenerationError) -> (r: Action)
        ensures
            final(self).stage_spec() == Stage::Finished,
            final(self).root_spec() == old(self).root_spec(),
            final(self).number_spec() == old(self).number_spec(),
            r@ == ActionView::Finish(Err(e@)),
    {
        self.stage = Stage::Finished;
        Action::Finish(Err(e))
    }

    /// Moves the generation on by `event`, the answer to the last action.
    pub fn step(&mut self, event: Event) -> (r: Action)
        requires
            old(self).wf(),
            awaits_spec(old(self).stage_spec(), event@),
        ensures
            final(self).wf(),
            final(self).root_spec() == old(self).root_spec(),
            final(self).number_spec() == old(self).number_spec(),
            (final(self).stage_spec(), r@) == transition(
                old(self).root_spec(),
                old(self).number_spec(),
                old(self).stage_spec(),
                event@,
            ),
    {
        match self.stage {
            Stage::CheckingRoot => match event {
                Event::Found(true) => match Exercise::new(self.root.as_str(), self.number.as_str()) {
                    Ok(e) => {
                        let dir = String::from_str(e.path());
                        self.exercise = Some(e);
                        self.stage = Stage::CheckingExercise;
                        Action::CheckExercise(dir)
                    },
                    Err(malformed) => self.finish(malformed),
                },
                Event::Found(false) => {
                    let p = self.root.clone();
                    self.finish(GenerationError::RootNotFound(p))
                },
                Event::Failed(cause) => {
                    let path = self.root.clone();
                    self.finish(GenerationError::IoFailure { operation: Operation::Inspect, path, cause })
                },
                _ => unreached(),
            },
            Stage::CheckingExercise => {
                let dir = String::from_str(self.exercise_ref().path());
                match event {
                    Event::Found(true) => self.finish(GenerationError::ExerciseAlreadyExists(dir)),
                    Event::Found(false) => {
                        self.stage = Stage::CreatingDir;
                        Action::CreateDir(dir)
                    },
                    Event::Failed(cause) => self.finish(
                        GenerationError::IoFailure { operation: Operation::Inspect, path: dir, cause },
                    ),
                    _ => unreached(),
                }
            },
            Stage::CreatingDir => match event {
                Event::Done => {
                    let e = self.exercise_ref();
                    let context = readme_context(e.chapter(), e.exercise());
                    self.stage = Stage::RenderingReadme;
                    Action::Render(String::from_str(README_TEMPLATE), context)
                },
                Event::Failed(cause) => {
                    let dir = String::from_str(self.exercise_ref().path());
                    self.finish(GenerationError::IoFailure { operation: Operation::CreateDir, path: dir, cause })
                },
                _ => unreached(),
            },
            Stage::RenderingReadme => match event {
                Event::Rendered(text) => {
                    let file = join(self.exercise_ref().path(), README_FILE);
                    self.stage = Stage::WritingReadme;
                    Action::WriteFile(file, text)
                },
                Event::Failed(cause) => {
                    let template = String::from_str(README_TEMPLATE);
                    self.finish(GenerationError::TemplateFailure { template, cause })
                },
                _ => unreached(),
            },
            Stage::WritingReadme => match event {
                Event::Done => {
                    self.stage = Stage::RenderingTest;
                    Action::Render(String::from_str(TEST_TEMPLATE), test_context())
                },
                Event::Failed(cause) => {
                    let file = join(self.exercise_ref().path(), README_FILE);
                    self.finish(GenerationError::IoFailure { operation: Operation::WriteFile, path: file, cause })
                },
                _ => unreached(),
            },
            Stage::RenderingTest => match event {
                Event::Rendered(text) => {
                    let file = join(self.exercise_ref().path(), TEST_FILE);
                    self.stage = Stage::WritingTest;
                    Action::WriteFile(file, text)
                },
                Event::Failed(cause) => {
                    let template = String::from_str(TEST_TEMPLATE);
                    self.finish(GenerationError::TemplateFailure { template, cause })
                },
                _ => unreached(),
            },
            Stage::WritingTest => match event {
                Event::Done => {
                    self.stage = Stage::Finished;
                    Action::Finish(Ok(()))
                },
                Event::Failed(cause) => {
                    let file = join(self.exercise_ref().path(), TEST_FILE);
                    self.finish(GenerationError::IoFailure { operation: Operation::WriteFile, path: file, cause })
                },
                _ => unreached(),
            },
            Stage::Finished => unreached(),
        }
    }
}

} // verus!

verus! {

pub open spec fn operation_word(op: Operation) -> Seq<char> {
    match op {
        Operation::Inspect => "inspect"@,
        Operation::CreateDir => "create directory"@,
        Operation::WriteFile => "write file"@,
    }
}

/// The text shown to a user for an error.
pub open spec fn message_spec(e: ErrorView) -> Seq<char> {
    match e {
        ErrorView::RootNotFound(p) => "Path provided ("@ + p + ") doesn't exist"@,
        ErrorView::ExerciseAlreadyExists(p) => "Exercise "@ + p + " already exists"@,
        ErrorView::MalformedIdentifier(s) => "Malformed exercise identifier "@ + s
            + ", expected <chapter>-<exercise>"@,
        ErrorView::IoFailure(op, p, c) => "Failed to "@ + operation_word(op) + " "@ + p + ": "@ + c,
        ErrorView::TemplateFailure(n, c) => "Failed to render template "@ + n + ": "@ + c,
    }
}

impl Operation {
    pub fn word(&self) -> (r: &'static str)
        ensures
            r@ == operation_word(*self),
    {
        match self {
            Operation::Inspect => "inspect",
            Operation::CreateDir => "create directory",
            Operation::WriteFile => "write file",
        }
    }
}

impl GenerationError {
    /// The text shown to a user for this error.
    pub fn message(&self) -> (r: String)
        ensures
            r@ == message_spec(self@),
    {
        match self {
            GenerationError::RootNotFound(p) => String::from_str("Path provided (").concat(
                p.as_str(),
            ).concat(") doesn't exist"),
            GenerationError::ExerciseAlreadyExists(p) => String::from_str("Exercise ").concat(
                p.as_str(),
            ).concat(" already exists"),
            GenerationError::MalformedIdentifier(s) => String::from_str(
                "Malformed exercise identifier ",
            ).concat(s.as_str()).concat(", expected <chapter>-<exercise>"),
            GenerationError::IoFailure { operation, path, cause } => String::from_str(
                "Failed to ",
            ).concat(operation.word()).concat(" ").concat(path.as_str()).concat(": ").concat(
                cause.as_str(),
            ),
            GenerationError::TemplateFailure { template, cause } => String::from_str(
                "Failed to render template ",
            ).concat(template.as_str()).concat(": ").concat(cause.as_str()),
        }
    }
}

/// Running an exercise's test suite failed.
#[derive(Debug, PartialEq, Eq)]
pub struct TestingError {}

impl TestingError {
    /// The text shown to a user for this error.
    pub fn message(&self) -> (r: String)
        ensures
            r@ == "Failed to run test suite"@,
    {
        String::from_str("Failed to run test suite")
    }
}

} // verus!
