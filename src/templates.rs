use vstd::prelude::*;

verus! {

#[verifier::external_type_specification]
#[verifier::external_body]
pub struct ExContext(tera::Context);

/// The string bindings that a rendering context holds, by name.
pub uninterp spec fn context_bindings(c: tera::Context) -> Map<Seq<char>, Seq<char>>;

/// No bindings at all.
pub open spec fn no_bindings() -> Map<Seq<char>, Seq<char>> {
    Map::empty()
}

/// Name of the template that the README is rendered from.
pub const README_TEMPLATE: &'static str = "readme.md.tpl";

/// Name of the template that the test stub is rendered from.
pub const TEST_TEMPLATE: &'static str = "test.rkt.tpl";

/// Relies on tera::Context::new: a context with no bindings.
#[verifier::external_body]
fn empty_context() -> (r: tera::Context)
    ensures
        context_bindings(r).dom() == Set::<Seq<char>>::empty(),
{
    tera::Context::new()
}

/// Relies on tera::Context::insert: binds `key` to the string `value`, replacing an
/// earlier binding of `key` (a string always serializes).
#[verifier::external_body]
fn bind(context: &mut tera::Context, key: &str, value: &str)
    ensures
        context_bindings(*final(context)) == context_bindings(*old(context)).insert(key@, value@),
{
    context.insert(key, value)
}

/// The context the README template is rendered with: `chapter` and `exercise`, nothing else.
pub fn readme_context(chapter: &str, exercise: &str) -> (r: tera::Context)
    ensures
        context_bindings(r) == map!["chapter"@ => chapter@, "exercise"@ => exercise@],
{
    let mut context = empty_context();
    bind(&mut context, "chapter", chapter);
    bind(&mut context, "exercise", exercise);
    proof {
        assert(context_bindings(context) =~= map!["chapter"@ => chapter@, "exercise"@ => exercise@]);
    }
    context
}

/// The context the test stub template is rendered with: no bindings at all.
pub fn test_context() -> (r: tera::Context)
    ensures
        context_bindings(r) == no_bindings(),
{
    let context = empty_context();
    proof {
        assert(context_bindings(context) =~= no_bindings());
    }
    context
}

} // verus!
