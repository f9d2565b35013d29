use crate::generation::{ErrorView, GenerationError};
use itertools::Itertools;
use vstd::prelude::*;

verus! {

/// The pieces of `s` between occurrences of `sep`, in order; there is always at least one.
pub open spec fn split_on(s: Seq<char>, sep: char) -> Seq<Seq<char>>
    decreases s.len(),
{
    if s.len() == 0 {
        seq![Seq::<char>::empty()]
    } else {
        let prev = split_on(s.drop_last(), sep);
        if s.last() == sep {
            prev.push(Seq::<char>::empty())
        } else {
            prev.update(prev.len() - 1, prev.last().push(s.last()))
        }
    }
}

pub proof fn lemma_split_on_nonempty(s: Seq<char>, sep: char)
    ensures
        split_on(s, sep).len() >= 1,
    decreases s.len(),
{
    if s.len() > 0 {
        lemma_split_on_nonempty(s.drop_last(), sep);
    }
}

/// The chapter and exercise named by an identifier `<chapter>-<exercise>`: exactly two
/// non-empty pieces around a single `-`.
pub open spec fn parse_identifier(s: Seq<char>) -> Option<(Seq<char>, Seq<char>)> {
    let parts = split_on(s, '-');
    if parts.len() == 2 && parts[0].len() > 0 && parts[1].len() > 0 {
        Some((parts[0], parts[1]))
    } else {
        None
    }
}

/// `base` joined with the relative component `part`, with one `/` between them unless
/// `base` is empty or already ends in `/`.
pub open spec fn join_spec(base: Seq<char>, part: Seq<char>) -> Seq<char> {
    if base.len() == 0 || base.last() == '/' {
        base + part
    } else {
        base + seq!['/'] + part
    }
}

/// Where the exercise `exercise` of chapter `chapter` lives under `root`.
pub open spec fn exercise_path(root: Seq<char>, chapter: Seq<char>, exercise: Seq<char>) -> Seq<char> {
    join_spec(join_spec(root, "chapter-"@ + chapter), "exercise-"@ + exercise)
}

/// Joins the relative component `part` onto the path `base`, as `Path::join` does.
pub fn join(base: &str, part: &str) -> (r: String)
    ensures
        r@ == join_spec(base@, part@),
{
    let mut r = String::from_str(base);
    let n = base.unicode_len();
    if n > 0 && base.get_char(n - 1) != '/' {
        r.append("/");
        proof {
            reveal_strlit("/");
        }
    }
    r.append(part);
    r
}

/// Relies on itertools::Itertools::collect_tuple: it gives a pair exactly when the
/// iterator yields two items, and then those two, in order.
#[verifier::external_body]
fn pair_of(parts: Vec<String>) -> (r: Option<(String, String)>)
    ensures
        r is Some <==> parts@.len() == 2,
        r matches Some((a, b)) ==> a@ == parts@[0]@ && b@ == parts@[1]@,
{
    parts.into_iter().collect_tuple()
}

/// The pieces of `s` between the `-` characters.
pub fn split_dashes(s: &str) -> (r: Vec<String>)
    ensures
        r@.len() == split_on(s@, '-').len(),
        forall|i: int| 0 <= i < r@.len() ==> #[trigger] r@[i]@ == split_on(s@, '-')[i],
{
    let n = s.unicode_len();
    let mut done: Vec<String> = Vec::new();
    let mut start: usize = 0;
    let mut i: usize = 0;
    assert(s@.take(0) =~= Seq::<char>::empty());
    assert(done@.map_values(|d: String| d@).push(s@.subrange(0, 0)) =~= seq![Seq::<char>::empty()]);
    while i < n
        invariant
            n == s@.len(),
            start <= i <= n,
            split_on(s@.take(i as int), '-') =~= done@.map_values(|d: String| d@).push(
                s@.subrange(start as int, i as int),
            ),
        decreases n - i,
    {
        let c = s.get_char(i);
        let ghost before = s@.take(i as int);
        assert(s@.take(i + 1).drop_last() =~= before);
        if c == '-' {
            let piece = s.substring_char(start, i);
            done.push(String::from_str(piece));
            start = i + 1;
            assert(s@.subrange(start as int, i + 1) =~= Seq::<char>::empty());
        } else {
            assert(s@.subrange(start as int, i + 1) =~= s@.subrange(start as int, i as int).push(c));
        }
        i = i + 1;
    }
    let last = s.substring_char(start, n);
    done.push(String::from_str(last));
    assert(s@.take(n as int) =~= s@);
    assert(done@.map_values(|d: String| d@) =~= split_on(s@, '-'));
    done
}

/// One exercise: its chapter, its number within the chapter, and the directory it lives in.
pub struct Exercise {
    chapter: String,
    exercise: String,
    path: String,
}

impl Exercise {
    pub closed spec fn chapter_spec(&self) -> Seq<char> {
        self.chapter@
    }

    pub closed spec fn exercise_spec(&self) -> Seq<char> {
        self.exercise@
    }

    pub closed spec fn path_spec(&self) -> Seq<char> {
        self.path@
    }

    /// The exercise named by `number` (`<chapter>-<exercise>`) under `root`, or
    /// `MalformedIdentifier` when `number` is not two non-empty pieces around one `-`.
    pub fn new(root: &str, number: &str) -> (r: Result<Exercise, GenerationError>)
        ensures
            r is Ok <==> parse_identifier(number@) is Some,
            r matches Err(e) ==> e@ == ErrorView::MalformedIdentifier(number@),
            r matches Ok(e) ==> {
                let (c, x) = parse_identifier(number@)->0;
                &&& e.chapter_spec() == c
                &&& e.exercise_spec() == x
                &&& e.path_spec() == exercise_path(root@, c, x)
            },
    {
        let parts = split_dashes(number);
        match pair_of(parts) {
            Some((chapter, exercise)) => {
                if chapter.as_str().unicode_len() == 0 || exercise.as_str().unicode_len() == 0 {
                    return Err(GenerationError::MalformedIdentifier(String::from_str(number)));
                }
                let chapter_dir = String::from_str("chapter-").concat(chapter.as_str());
                let exercise_dir = String::from_str("exercise-").concat(exercise.as_str());
                let path = join(join(root, chapter_dir.as_str()).as_str(), exercise_dir.as_str());
                Ok(Exercise { chapter, exercise, path })
            },
            None => Err(GenerationError::MalformedIdentifier(String::from_str(number))),
        }
    }

    /// A short description: `chapter <chapter> exercise <exercise>`.
    pub fn describe(&self) -> (r: String)
        ensures
            r@ == "chapter "@ + self.chapter_spec() + " exercise "@ + self.exercise_spec(),
    {
        String::from_str("chapter ").concat(self.chapter.as_str()).concat(" exercise ").concat(
            self.exercise.as_str(),
        )
    }

    pub fn chapter(&self) -> (r: &str)
        ensures
            r@ == self.chapter_spec(),
    {
        self.chapter.as_str()
    }

    pub fn exercise(&self) -> (r: &str)
        ensures
            r@ == self.exercise_spec(),
    {
        self.exercise.as_str()
    }

    pub fn path(&self) -> (r: &str)
        ensures
            r@ == self.path_spec(),
    {
        self.path.as_str()
    }
}

} // verus!
