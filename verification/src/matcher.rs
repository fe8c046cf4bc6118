//! The ignore filter: gitignore-style rules compiled into a matcher.
//!
//! The matcher itself is the `ignore` crate's compiled `Gitignore`. Its
//! state is modelled by the root it was built for and the rule lines handed
//! to its builder, in order; whether a path is ignored is a pure function of
//! that state, the queried path, and the directory flag. Matching semantics
//! stay with the outside crate and are left uninterpreted here.

use vstd::prelude::*;
use vstd::string::*;

use crate::errors::Errors;
use crate::paths::{is_under, rel_of, strip_all};

verus! {

#[verifier::external_type_specification]
#[verifier::external_body]
pub struct ExGitignore(ignore::gitignore::Gitignore);

#[verifier::external_type_specification]
#[verifier::external_body]
pub struct ExGitignoreBuilder(ignore::gitignore::GitignoreBuilder);

/// The root directory the matcher was built for.
pub uninterp spec fn matcher_root(m: ignore::gitignore::Gitignore) -> Seq<char>;

/// The rule lines the matcher was compiled from, in order.
pub uninterp spec fn matcher_globs(m: ignore::gitignore::Gitignore) -> Seq<Seq<char>>;

/// The root directory a builder was created for.
pub uninterp spec fn builder_root(b: ignore::gitignore::GitignoreBuilder) -> Seq<char>;

/// The rule lines handed to a builder so far, in order.
pub uninterp spec fn builder_globs(b: ignore::gitignore::GitignoreBuilder) -> Seq<Seq<char>>;

/// Whether gitignore rules `globs`, compiled for `root`, ignore `path`.
pub uninterp spec fn gitignore_match(
    root: Seq<char>,
    globs: Seq<Seq<char>>,
    path: Seq<char>,
    is_dir: bool,
) -> bool;

/// Whether one gitignore rule line is acceptable: comment and blank lines
/// carry no rule but are accepted; anything else must parse as a glob.
/// On a builder with the default parsing options — the only kind this
/// module creates — acceptance depends on the line alone.
pub uninterp spec fn glob_line_ok(line: Seq<char>) -> bool;

/// Whether a sequence of accepted rule lines compiles into a matcher.
/// Compilation is deterministic in the lines.
pub uninterp spec fn globs_compile_ok(globs: Seq<Seq<char>>) -> bool;

/// Relies on ignore::gitignore::GitignoreBuilder::new: a fresh builder for
/// the given root holds no rule lines yet.
#[verifier::external_body]
fn new_ignore_builder(root: &str) -> (r: ignore::gitignore::GitignoreBuilder)
    ensures
        builder_root(r) == root@,
        builder_globs(r) == Seq::<Seq<char>>::empty(),
{
    ignore::gitignore::GitignoreBuilder::new(root)
}

/// Relies on ignore::gitignore::GitignoreBuilder::add_line: records one
/// gitignore rule line; it succeeds exactly when the line is acceptable,
/// and a line that cannot be parsed as a glob is refused.
#[verifier::external_body]
fn add_ignore_line(b: &mut ignore::gitignore::GitignoreBuilder, line: &str) -> (r: Result<
    (),
    Errors,
>)
    ensures
        r is Ok <==> glob_line_ok(line@),
        r is Ok ==> builder_root(*final(b)) == builder_root(*old(b)) && builder_globs(*final(b))
            == builder_globs(*old(b)).push(line@),
        r matches Err(e) ==> e is InvalidIgnoreRules,
{
    match b.add_line(None, line) {
        Ok(_) => Ok(()),
        Err(e) => Err(Errors::InvalidIgnoreRules(format!("{}", e))),
    }
}

/// Relies on ignore::gitignore::GitignoreBuilder::build: compiles the
/// recorded rule lines into a matcher for the builder's root; it succeeds
/// exactly when the recorded lines compile.
#[verifier::external_body]
fn build_ignore(b: &ignore::gitignore::GitignoreBuilder) -> (r: Result<
    ignore::gitignore::Gitignore,
    Errors,
>)
    ensures
        r is Ok <==> globs_compile_ok(builder_globs(*b)),
        r matches Ok(m) ==> matcher_root(m) == builder_root(*b) && matcher_globs(m)
            == builder_globs(*b),
        r matches Err(e) ==> e is InvalidIgnoreRules,
{
    match b.build() {
        Ok(m) => Ok(m),
        Err(e) => Err(Errors::InvalidIgnoreRules(format!("{}", e))),
    }
}

/// Relies on ignore::gitignore::Gitignore::matched: whether the compiled
/// rules ignore the path — a pure function of the matcher's root and rules,
/// the queried path, and the directory flag.
#[verifier::external_body]
fn matched_is_ignore(m: &ignore::gitignore::Gitignore, path: &str, is_dir: bool) -> (r: bool)
    ensures
        r == gitignore_match(matcher_root(*m), matcher_globs(*m), path@, is_dir),
{
    m.matched(path, is_dir).is_ignore()
}

/// Compiles gitignore rule lines into a matcher rooted at `root`.
///
/// An absent ignore file is an empty list of lines and yields a permissive
/// matcher; a line that cannot be compiled fails the whole build, since the
/// filter could not otherwise decide what to synchronize.
pub fn build_matcher(root: &str, lines: &Vec<String>) -> (r: Result<
    ignore::gitignore::Gitignore,
    Errors,
>)
    ensures
        r is Ok <==> (forall|k: int| 0 <= k < lines@.len() ==> glob_line_ok(lines@[k]@))
            && globs_compile_ok(lines.deep_view()),
        r matches Ok(m) ==> matcher_root(m) == root@ && matcher_globs(m) == lines.deep_view(),
        r matches Err(e) ==> e is InvalidIgnoreRules,
{
    let mut b = new_ignore_builder(root);
    let mut i: usize = 0;
    while i < lines.len()
        invariant
            0 <= i <= lines@.len(),
            builder_root(b) == root@,
            builder_globs(b) == lines.deep_view().take(i as int),
            forall|k: int| 0 <= k < i ==> glob_line_ok(lines@[k]@),
        decreases lines@.len() - i,
    {
        match add_ignore_line(&mut b, lines[i].as_str()) {
            Ok(()) => {},
            Err(e) => {
                return Err(e);
            },
        }
        proof {
            assert(lines.deep_view().take(i + 1) =~= lines.deep_view().take(i as int).push(
                lines@[i as int]@,
            ));
        }
        i += 1;
    }
    proof {
        assert(lines.deep_view().take(lines@.len() as int) =~= lines.deep_view());
    }
    build_ignore(&b)
}

/// Whether a relative name is excluded: it matches the rules itself, or one
/// of the directories it lies under does.
///
/// The parents are the prefixes that end just before a separator, queried
/// as directories — so a directory rule suppresses everything beneath that
/// directory.
pub open spec fn path_ignored(mroot: Seq<char>, globs: Seq<Seq<char>>, rel: Seq<char>) -> bool {
    ||| gitignore_match(mroot, globs, rel, false)
    ||| exists|i: int|
        0 <= i < rel.len() && rel[i] == '/' && gitignore_match(
            mroot,
            globs,
            rel.subrange(0, i),
            true,
        )
}

/// Whether the relative name `rel`, or any directory it lies under, is
/// excluded by the matcher.
fn rel_ignored(matcher: &ignore::gitignore::Gitignore, rel: &str) -> (r: bool)
    ensures
        r == path_ignored(matcher_root(*matcher), matcher_globs(*matcher), rel@),
{
    let ghost mroot = matcher_root(*matcher);
    let ghost globs = matcher_globs(*matcher);
    if matched_is_ignore(matcher, rel, false) {
        return true;
    }
    let k = rel.unicode_len();
    let mut j: usize = 0;
    while j < k
        invariant
            0 <= j <= k,
            k == rel@.len(),
            mroot == matcher_root(*matcher),
            globs == matcher_globs(*matcher),
            !gitignore_match(mroot, globs, rel@, false),
            forall|t: int|
                0 <= t < j && rel@[t] == '/' ==> !gitignore_match(
                    mroot,
                    globs,
                    rel@.subrange(0, t),
                    true,
                ),
        decreases k - j,
    {
        if rel.get_char(j) == '/' {
            let parent = rel.substring_char(0, j);
            if matched_is_ignore(matcher, parent, true) {
                proof {
                    assert(rel@[j as int] == '/' && gitignore_match(
                        mroot,
                        globs,
                        rel@.subrange(0, j as int),
                        true,
                    ));
                }
                return true;
            }
        }
        j += 1;
    }
    false
}

/// Whether any path of the event batch is ignored by the matcher.
///
/// All paths are normalized against `root` first: any path outside the root
/// fails the whole batch with a prefix-stripping failure, exactly as in
/// [`strip_all`]. Only then is each relative name queried; the batch is ignored
/// when any name, or a directory it lies under, matches the rules.
pub fn is_ignored(matcher: &ignore::gitignore::Gitignore, root: &str, paths: &Vec<String>) -> (r:
    Result<bool, Errors>)
    ensures
        r is Err <==> (exists|i: int| 0 <= i < paths@.len() && !is_under(root@, paths@[i]@)),
        r is Err ==> r == Result::<bool, Errors>::Err(Errors::FailedStripPrefix),
        r == Ok::<bool, Errors>(true) <==> (forall|i: int|
            0 <= i < paths@.len() ==> is_under(root@, paths@[i]@)) && (exists|i: int|
            0 <= i < paths@.len() && path_ignored(
                matcher_root(*matcher),
                matcher_globs(*matcher),
                rel_of(root@, paths@[i]@),
            )),
        r == Ok::<bool, Errors>(false) <==> (forall|i: int|
            0 <= i < paths@.len() ==> is_under(root@, paths@[i]@) && !path_ignored(
                matcher_root(*matcher),
                matcher_globs(*matcher),
                rel_of(root@, paths@[i]@),
            )),
{
    let ghost mroot = matcher_root(*matcher);
    let ghost globs = matcher_globs(*matcher);
    let pairs = match strip_all(root, paths) {
        Ok(pairs) => pairs,
        Err(e) => {
            return Err(e);
        },
    };
    let mut i: usize = 0;
    while i < pairs.len()
        invariant
            0 <= i <= pairs@.len(),
            pairs@.len() == paths@.len(),
            mroot == matcher_root(*matcher),
            globs == matcher_globs(*matcher),
            forall|k: int| 0 <= k < paths@.len() ==> is_under(root@, paths@[k]@),
            forall|k: int|
                0 <= k < pairs@.len() ==> pairs@[k].relative@ == rel_of(root@, paths@[k]@),
            forall|k: int| 0 <= k < i ==> !path_ignored(mroot, globs, rel_of(root@, paths@[k]@)),
        decreases pairs@.len() - i,
    {
        if rel_ignored(matcher, pairs[i].relative.as_str()) {
            return Ok(true);
        }
        i += 1;
    }
    Ok(false)
}

} // verus!
