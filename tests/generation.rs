use sicpgen::exercise::{join, split_dashes};
use sicpgen::templates::{readme_context, test_context};
use sicpgen::{Action, Event, Exercise, Generation, GenerationError, Operation, Stage, TestingError};
use std::collections::{BTreeMap, BTreeSet};
use tera::{Tera, Value};

/// An in-memory stand-in for the filesystem the generation acts on.
struct MemoryFs {
    dirs: BTreeSet<String>,
    files: BTreeMap<String, String>,
    created: usize,
    written: usize,
}

impl MemoryFs {
    fn with_root(root: &str) -> MemoryFs {
        let mut dirs = BTreeSet::new();
        dirs.insert(root.to_string());
        MemoryFs { dirs, files: BTreeMap::new(), created: 0, written: 0 }
    }

    fn contains(&self, path: &str) -> bool {
        self.dirs.contains(path) || self.files.contains_key(path)
    }

    fn create_dir_all(&mut self, path: &str) {
        for (i, c) in path.char_indices() {
            if c == '/' && i > 0 {
                self.dirs.insert(path[..i].to_string());
            }
        }
        self.dirs.insert(path.to_string());
        self.created += 1;
    }
}

fn templates() -> Tera {
    let mut tera = Tera::default();
    tera.add_raw_template("readme.md.tpl", "# Chapter {{ chapter }}, exercise {{ exercise }}\n")
        .unwrap();
    tera.add_raw_template("test.rkt.tpl", "#lang racket\n(require rackunit)\n").unwrap();
    tera
}

fn run(fs: &mut MemoryFs, tera: &Tera, root: &str, number: &str) -> Result<(), GenerationError> {
    let (mut generation, mut action) = Generation::start(root, number);
    loop {
        let event = match action {
            Action::CheckRoot(p) | Action::CheckExercise(p) => Event::Found(fs.contains(&p)),
            Action::CreateDir(p) => {
                fs.create_dir_all(&p);
                Event::Done
            }
            Action::Render(name, context) => match tera.render(&name, &context) {
                Ok(text) => Event::Rendered(text),
                Err(e) => Event::Failed(e.to_string()),
            },
            Action::WriteFile(p, text) => {
                fs.files.insert(p, text);
                fs.written += 1;
                Event::Done
            }
            Action::Finish(result) => return result,
        };
        assert!(generation.awaits(&event));
        action = generation.step(event);
    }
}

#[test]
fn test_generate_exercise() {
    let mut fs = MemoryFs::with_root("/tmp/root");
    run(&mut fs, &templates(), "/tmp/root", "1-1").unwrap();

    let exercise_root = join(&join("/tmp/root", "chapter-1"), "exercise-1");
    assert_eq!(fs.contains(&exercise_root), true);
    assert_eq!(fs.contains(&join(&exercise_root, "README.md")), true);
    assert_eq!(fs.contains(&join(&exercise_root, "test.rkt")), true);
}

#[test]
fn happy_path_creates_both_files_and_succeeds() {
    let mut fs = MemoryFs::with_root("root");
    assert_eq!(run(&mut fs, &templates(), "root", "1-1"), Ok(()));
    assert!(fs.dirs.contains("root/chapter-1"));
    assert!(fs.dirs.contains("root/chapter-1/exercise-1"));
    assert_eq!(fs.files.len(), 2);
    assert_eq!(
        fs.files.get("root/chapter-1/exercise-1/test.rkt").map(|s| s.as_str()),
        Some("#lang racket\n(require rackunit)\n")
    );
}

#[test]
fn second_generation_is_rejected_without_writes() {
    let tera = templates();
    let mut fs = MemoryFs::with_root("root");
    run(&mut fs, &tera, "root", "1-1").unwrap();
    let files_before = fs.files.clone();
    let (created, written) = (fs.created, fs.written);

    let second = run(&mut fs, &tera, "root", "1-1");
    assert_eq!(
        second,
        Err(GenerationError::ExerciseAlreadyExists("root/chapter-1/exercise-1".to_string()))
    );
    assert_eq!(fs.files, files_before);
    assert_eq!((fs.created, fs.written), (created, written));
}

#[test]
fn missing_root_is_rejected_and_nothing_is_created() {
    let mut fs = MemoryFs::with_root("elsewhere");
    let r = run(&mut fs, &templates(), "missing", "1-1");
    assert_eq!(r, Err(GenerationError::RootNotFound("missing".to_string())));
    assert_eq!((fs.created, fs.written), (0, 0));
    assert_eq!(fs.dirs.len(), 1);
}

#[test]
fn missing_root_wins_over_malformed_identifier() {
    let mut fs = MemoryFs::with_root("elsewhere");
    let r = run(&mut fs, &templates(), "missing", "abc");
    assert_eq!(r, Err(GenerationError::RootNotFound("missing".to_string())));
}

#[test]
fn path_derivation_under_plain_root() {
    let e = Exercise::new("root", "3-12").unwrap();
    assert_eq!(e.chapter(), "3");
    assert_eq!(e.exercise(), "12");
    assert_eq!(e.path(), "root/chapter-3/exercise-12");
}

#[test]
fn path_derivation_alphanumeric_pieces() {
    let e = Exercise::new("/home/me/sicp", "a2-b7x").unwrap();
    assert_eq!(e.path(), "/home/me/sicp/chapter-a2/exercise-b7x");
}

#[test]
fn path_derivation_root_with_trailing_slash_or_empty() {
    assert_eq!(Exercise::new("root/", "1-2").unwrap().path(), "root/chapter-1/exercise-2");
    assert_eq!(Exercise::new("", "1-2").unwrap().path(), "chapter-1/exercise-2");
    assert_eq!(Exercise::new("/", "1-2").unwrap().path(), "/chapter-1/exercise-2");
}

#[test]
fn readme_holds_chapter_and_exercise() {
    let mut fs = MemoryFs::with_root("root");
    run(&mut fs, &templates(), "root", "2-7").unwrap();
    let readme = fs.files.get("root/chapter-2/exercise-7/README.md").unwrap();
    assert_eq!(readme, "# Chapter 2, exercise 7\n");
    assert!(readme.contains("2") && readme.contains("7"));
}

#[test]
fn readme_context_binds_exactly_chapter_and_exercise() {
    let context = readme_context("4", "19");
    assert_eq!(context.get("chapter"), Some(&Value::String("4".to_string())));
    assert_eq!(context.get("exercise"), Some(&Value::String("19".to_string())));
    assert_eq!(context.into_json(), serde_json_object(&[("chapter", "4"), ("exercise", "19")]));
}

#[test]
fn test_context_is_empty() {
    assert_eq!(test_context().into_json(), serde_json_object(&[]));
}

fn serde_json_object(pairs: &[(&str, &str)]) -> Value {
    let mut map = tera::Map::new();
    for (k, v) in pairs {
        map.insert(k.to_string(), Value::String(v.to_string()));
    }
    Value::Object(map)
}

#[test]
fn identifier_without_separator_is_malformed() {
    let mut fs = MemoryFs::with_root("root");
    let r = run(&mut fs, &templates(), "root", "abc");
    assert_eq!(r, Err(GenerationError::MalformedIdentifier("abc".to_string())));
    assert_eq!((fs.created, fs.written), (0, 0));
}

#[test]
fn identifier_with_too_many_pieces_is_malformed() {
    let mut fs = MemoryFs::with_root("root");
    let r = run(&mut fs, &templates(), "root", "1-2-3");
    assert_eq!(r, Err(GenerationError::MalformedIdentifier("1-2-3".to_string())));
    assert_eq!((fs.created, fs.written), (0, 0));
}

#[test]
fn identifier_with_empty_piece_is_malformed() {
    for bad in ["1-", "-1", "", "-", "abc", "1-2-3"] {
        match Exercise::new("root", bad) {
            Err(e) => assert_eq!(e, GenerationError::MalformedIdentifier(bad.to_string())),
            Ok(_) => panic!("{} was accepted", bad),
        }
    }
}

#[test]
fn test_stub_always_succeeds() {
    assert_eq!(sicpgen::test("root", "1-1"), Ok(()));
    assert_eq!(sicpgen::test("", "not an identifier"), Ok(()));
}

#[test]
fn missing_readme_template_is_a_template_failure() {
    let mut fs = MemoryFs::with_root("root");
    let r = run(&mut fs, &Tera::default(), "root", "1-1");
    assert!(matches!(r, Err(GenerationError::TemplateFailure { ref template, .. }) if template == "readme.md.tpl"));
    assert!(fs.dirs.contains("root/chapter-1/exercise-1"));
    assert_eq!(fs.written, 0);
}

#[test]
fn missing_test_template_is_a_template_failure() {
    let mut tera = Tera::default();
    tera.add_raw_template("readme.md.tpl", "{{ chapter }}").unwrap();
    let mut fs = MemoryFs::with_root("root");
    let r = run(&mut fs, &tera, "root", "1-1");
    assert!(matches!(r, Err(GenerationError::TemplateFailure { ref template, .. }) if template == "test.rkt.tpl"));
    assert_eq!(fs.written, 1);
}

#[test]
fn readme_template_with_unknown_variable_fails() {
    let mut tera = templates();
    tera.add_raw_template("readme.md.tpl", "{{ title }}").unwrap();
    let mut fs = MemoryFs::with_root("root");
    let r = run(&mut fs, &tera, "root", "1-1");
    assert!(matches!(r, Err(GenerationError::TemplateFailure { ref template, .. }) if template == "readme.md.tpl"));
}

#[test]
fn failed_directory_creation_is_an_io_failure() {
    let tera = templates();
    let (mut g, a) = Generation::start("root", "1-1");
    assert!(matches!(a, Action::CheckRoot(ref p) if p == "root"));
    let a = g.step(Event::Found(true));
    assert!(matches!(a, Action::CheckExercise(ref p) if p == "root/chapter-1/exercise-1"));
    let a = g.step(Event::Found(false));
    assert!(matches!(a, Action::CreateDir(ref p) if p == "root/chapter-1/exercise-1"));
    assert_eq!(g.stage(), Stage::CreatingDir);
    let a = g.step(Event::Failed("permission denied".to_string()));
    match a {
        Action::Finish(Err(e)) => assert_eq!(
            e,
            GenerationError::IoFailure {
                operation: Operation::CreateDir,
                path: "root/chapter-1/exercise-1".to_string(),
                cause: "permission denied".to_string(),
            }
        ),
        other => panic!("unexpected action {:?}", other),
    }
    assert!(g.is_finished());
}

#[test]
fn failed_write_is_an_io_failure_on_that_file() {
    let mut g = Generation::start("r", "1-1").0;
    g.step(Event::Found(true));
    g.step(Event::Found(false));
    let a = g.step(Event::Done);
    assert!(matches!(a, Action::Render(ref n, _) if n == "readme.md.tpl"));
    let a = g.step(Event::Rendered("text".to_string()));
    assert!(matches!(a, Action::WriteFile(ref p, ref t) if p == "r/chapter-1/exercise-1/README.md" && t == "text"));
    let a = g.step(Event::Failed("disk full".to_string()));
    match a {
        Action::Finish(Err(e)) => assert_eq!(
            e.message(),
            "Failed to write file r/chapter-1/exercise-1/README.md: disk full"
        ),
        other => panic!("unexpected action {:?}", other),
    }
}

#[test]
fn failed_check_is_an_io_failure() {
    let mut g = Generation::start("r", "1-1").0;
    let a = g.step(Event::Failed("denied".to_string()));
    assert!(matches!(a, Action::Finish(Err(GenerationError::IoFailure { operation: Operation::Inspect, .. }))));
}

#[test]
fn render_requests_name_template_and_bindings() {
    let (mut g, _) = Generation::start("r", "3-9");
    g.step(Event::Found(true));
    g.step(Event::Found(false));
    match g.step(Event::Done) {
        Action::Render(name, context) => {
            assert_eq!(name, "readme.md.tpl");
            assert_eq!(context.into_json(), serde_json_object(&[("chapter", "3"), ("exercise", "9")]));
        }
        other => panic!("unexpected action {:?}", other),
    }
    assert_eq!(g.stage(), Stage::RenderingReadme);
    g.step(Event::Rendered("readme".to_string()));
    match g.step(Event::Done) {
        Action::Render(name, context) => {
            assert_eq!(name, "test.rkt.tpl");
            assert_eq!(context.into_json(), serde_json_object(&[]));
        }
        other => panic!("unexpected action {:?}", other),
    }
    assert!(!g.awaits(&Event::Done));
    assert!(g.awaits(&Event::Rendered(String::new())));
}

#[test]
fn awaits_matches_the_pending_action() {
    let (g, _) = Generation::start("r", "1-1");
    assert!(g.awaits(&Event::Found(true)));
    assert!(g.awaits(&Event::Failed("x".to_string())));
    assert!(!g.awaits(&Event::Done));
}

#[test]
fn error_messages() {
    assert_eq!(
        GenerationError::RootNotFound("/nope".to_string()).message(),
        "Path provided (/nope) doesn't exist"
    );
    assert_eq!(
        GenerationError::ExerciseAlreadyExists("r/chapter-1/exercise-1".to_string()).message(),
        "Exercise r/chapter-1/exercise-1 already exists"
    );
    assert_eq!(
        GenerationError::MalformedIdentifier("abc".to_string()).message(),
        "Malformed exercise identifier abc, expected <chapter>-<exercise>"
    );
    assert_eq!(
        GenerationError::TemplateFailure {
            template: "readme.md.tpl".to_string(),
            cause: "unknown template".to_string(),
        }
        .message(),
        "Failed to render template readme.md.tpl: unknown template"
    );
    assert_eq!(TestingError {}.message(), "Failed to run test suite");
}

#[test]
fn exercise_description() {
    assert_eq!(Exercise::new("r", "1-2").unwrap().describe(), "chapter 1 exercise 2");
}

#[test]
fn join_inserts_one_separator() {
    assert_eq!(join("a", "b"), "a/b");
    assert_eq!(join("a/", "b"), "a/b");
    assert_eq!(join("", "b"), "b");
}

#[test]
fn split_dashes_keeps_empty_pieces() {
    assert_eq!(split_dashes("1-2-3"), vec!["1", "2", "3"]);
    assert_eq!(split_dashes("abc"), vec!["abc"]);
    assert_eq!(split_dashes(""), vec![""]);
    assert_eq!(split_dashes("-"), vec!["", ""]);
}
