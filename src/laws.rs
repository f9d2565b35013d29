use crate::exercise::{exercise_path, join_spec, parse_identifier, split_on};
use crate::generation::{
    finish_with, target_dir, transition, ActionView, ErrorView, EventView, Stage, README_FILE,
    TEST_FILE,
};
use crate::templates::{no_bindings, README_TEMPLATE, TEST_TEMPLATE};
use vstd::prelude::*;

verus! {

/// Whether every character of `s` is an ASCII letter or digit.
pub open spec fn is_alphanumeric(s: Seq<char>) -> bool {
    forall|i: int|
        0 <= i < s.len() ==> {
            let c = #[trigger] s[i];
            ('a' <= c <= 'z') || ('A' <= c <= 'Z') || ('0' <= c <= '9')
        }
}

/// How many times `c` occurs in `s`.
pub open spec fn occurrences(s: Seq<char>, c: char) -> nat
    decreases s.len(),
{
    if s.len() == 0 {
        0
    } else {
        occurrences(s.drop_last(), c) + if s.last() == c { 1nat } else { 0nat }
    }
}

/// Splitting on `sep` gives one piece more than there are separators.
pub proof fn lemma_split_count(s: Seq<char>, sep: char)
    ensures
        split_on(s, sep).len() == occurrences(s, sep) + 1,
    decreases s.len(),
{
    if s.len() > 0 {
        lemma_split_count(s.drop_last(), sep);
    }
}

/// Appending text free of `sep` extends the last piece and adds none.
pub proof fn lemma_split_append_plain(a: Seq<char>, b: Seq<char>, sep: char)
    requires
        forall|i: int| 0 <= i < b.len() ==> b[i] != sep,
    ensures
        split_on(a + b, sep) == split_on(a, sep).update(
            split_on(a, sep).len() - 1,
            split_on(a, sep).last() + b,
        ),
    decreases b.len(),
{
    crate::exercise::lemma_split_on_nonempty(a, sep);
    if b.len() == 0 {
        assert(a + b =~= a);
        assert(split_on(a, sep).last() + b =~= split_on(a, sep).last());
        assert(split_on(a, sep).update(split_on(a, sep).len() - 1, split_on(a, sep).last())
            =~= split_on(a, sep));
    } else {
        let b0 = b.drop_last();
        lemma_split_append_plain(a, b0, sep);
        assert((a + b).drop_last() =~= a + b0);
        assert((a + b).last() == b.last());
        assert(b.last() != sep) by {
            assert(b[b.len() - 1] != sep);
        }
        let s = split_on(a, sep);
        let prev = split_on(a + b0, sep);
        assert(prev == s.update(s.len() - 1, s.last() + b0));
        assert(prev.len() == s.len());
        assert(prev.last() == s.last() + b0);
        assert(split_on(a + b, sep) == prev.update(prev.len() - 1, prev.last().push(b.last())));
        assert(prev.last().push(b.last()) =~= s.last() + b);
        assert(split_on(a, sep).last() + b0 + seq![b.last()] =~= split_on(a, sep).last() + b);
        assert(split_on(a + b, sep) =~= split_on(a, sep).update(
            split_on(a, sep).len() - 1,
            split_on(a, sep).last() + b,
        ));
    }
}

/// An identifier with no `-`, or with more than one, is malformed: once the root is
/// found the generation stops with `MalformedIdentifier`, before anything is created.
pub proof fn malformed_identifier_creates_nothing(
    root: Seq<char>,
    number: Seq<char>,
)
    requires
        occurrences(number, '-') != 1,
    ensures
        parse_identifier(number) is None,
        transition(root, number, Stage::CheckingRoot, EventView::Found(true))
            == finish_with(ErrorView::MalformedIdentifier(number)),
{
    lemma_split_count(number, '-');
}

/// For an alphanumeric chapter and exercise, the identifier `<chapter>-<exercise>`
/// names exactly them, and their directory is `<root>/chapter-<chapter>/exercise-<exercise>`.
pub proof fn path_derivation(root: Seq<char>, chapter: Seq<char>, exercise: Seq<char>)
    requires
        chapter.len() > 0,
        exercise.len() > 0,
        is_alphanumeric(chapter),
        is_alphanumeric(exercise),
    ensures
        parse_identifier(chapter + seq!['-'] + exercise) == Some((chapter, exercise)),
        target_dir(root, chapter + seq!['-'] + exercise) == exercise_path(root, chapter, exercise),
        root.len() > 0 && root.last() != '/' ==> exercise_path(root, chapter, exercise) == root
            + seq!['/'] + "chapter-"@ + chapter + seq!['/'] + "exercise-"@ + exercise,
{
    let empty = Seq::<char>::empty();
    assert(forall|i: int| 0 <= i < chapter.len() ==> chapter[i] != '-' && chapter[i] != '/');
    assert(forall|i: int| 0 <= i < exercise.len() ==> exercise[i] != '-');
    lemma_split_append_plain(empty, chapter, '-');
    assert(empty + chapter =~= chapter);
    assert(split_on(chapter, '-') =~= seq![chapter]);
    let head = chapter + seq!['-'];
    assert(head.drop_last() =~= chapter);
    assert(split_on(head, '-') =~= seq![chapter, empty]);
    lemma_split_append_plain(head, exercise, '-');
    assert(empty + exercise =~= exercise);
    assert(split_on(head + exercise, '-') =~= seq![chapter, exercise]);
    reveal_strlit("chapter-");
    reveal_strlit("exercise-");
    let c = "chapter-"@ + chapter;
    let first = join_spec(root, c);
    assert(c.last() == chapter.last());
    if root.len() > 0 && root.last() != '/' {
        assert(first.last() == chapter.last());
        assert(chapter.last() != '/') by {
            assert(chapter[chapter.len() - 1] != '/');
        }
        assert(join_spec(first, "exercise-"@ + exercise) =~= root + seq!['/'] + "chapter-"@
            + chapter + seq!['/'] + "exercise-"@ + exercise);
    }
}

/// A root that does not exist ends the generation with `RootNotFound`, before
/// anything is created.
pub proof fn missing_root_rejected(root: Seq<char>, number: Seq<char>)
    ensures
        transition(root, number, Stage::CheckingRoot, EventView::Found(false))
            == finish_with(ErrorView::RootNotFound(root)),
{
}

/// With a well-formed identifier and an existing root, the generation checks and
/// creates the exercise directory, renders the README with the chapter and exercise
/// and writes what came of it, then renders the test stub with no bindings and writes
/// that, and succeeds.
pub proof fn generation_happy_path(
    root: Seq<char>,
    number: Seq<char>,
    readme_text: Seq<char>,
    test_text: Seq<char>,
)
    requires
        parse_identifier(number) is Some,
    ensures
        ({
            let dir = target_dir(root, number);
            let (chapter, exercise) = parse_identifier(number)->0;
            &&& transition(root, number, Stage::CheckingRoot, EventView::Found(true))
                == (Stage::CheckingExercise, ActionView::CheckExercise(dir))
            &&& transition(root, number, Stage::CheckingExercise, EventView::Found(false))
                == (Stage::CreatingDir, ActionView::CreateDir(dir))
            &&& transition(root, number, Stage::CreatingDir, EventView::Done) == (
                Stage::RenderingReadme,
                ActionView::Render(
                    README_TEMPLATE@,
                    map!["chapter"@ => chapter, "exercise"@ => exercise],
                ),
            )
            &&& transition(root, number, Stage::RenderingReadme, EventView::Rendered(readme_text))
                == (Stage::WritingReadme, ActionView::WriteFile(
                join_spec(dir, README_FILE@),
                readme_text,
            ))
            &&& transition(root, number, Stage::WritingReadme, EventView::Done) == (
                Stage::RenderingTest,
                ActionView::Render(TEST_TEMPLATE@, no_bindings()),
            )
            &&& transition(root, number, Stage::RenderingTest, EventView::Rendered(test_text))
                == (Stage::WritingTest, ActionView::WriteFile(join_spec(dir, TEST_FILE@), test_text))
            &&& transition(root, number, Stage::WritingTest, EventView::Done) == (
                Stage::Finished,
                ActionView::Finish(Ok(())),
            )
        }),
{
}

/// The directory that a successful generation creates is the one a second generation
/// of the same identifier under the same root checks; found there, it ends that second
/// generation with `ExerciseAlreadyExists` before anything is created or written.
pub proof fn existing_exercise_rejected(
    root: Seq<char>,
    number: Seq<char>,
)
    requires
        parse_identifier(number) is Some,
    ensures
        transition(root, number, Stage::CheckingExercise, EventView::Found(false))
            == (Stage::CreatingDir, ActionView::CreateDir(target_dir(root, number))),
        transition(root, number, Stage::CheckingRoot, EventView::Found(true)) == (
            Stage::CheckingExercise,
            ActionView::CheckExercise(target_dir(root, number)),
        ),
        transition(root, number, Stage::CheckingExercise, EventView::Found(true))
            == finish_with(ErrorView::ExerciseAlreadyExists(target_dir(root, number))),
{
}

} // verus!
