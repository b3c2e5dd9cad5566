//! Finding the auxiliary runtime that the extractor may call on.

use vstd::prelude::*;

verus! {

/// The name of the configuration value that overrides the location.
pub const OVERRIDE_KEY: &'static str = "BUN_PATH";

/// The file name of the auxiliary runtime beside the running executable.
pub const AUXILIARY_RUNTIME: &'static str = "aux-runtime";

/// The path without its last component, as `std::path` reads paths; `None`
/// where there is nothing to take away.
pub uninterp spec fn parent_text(path: Seq<char>) -> Option<Seq<char>>;

/// `name` adjoined to the path `base`, as `std::path` reads paths.
pub uninterp spec fn joined_text(base: Seq<char>, name: Seq<char>) -> Seq<char>;

/// Calls `std::path::Path::parent` on `path` read as a path.
///
/// Trusted: whether there is a parent, and which, depends on the text of
/// the path alone; [`parent_text`] names it.
#[verifier::external_body]
pub(crate) fn parent_of(path: &str) -> (parent: Option<String>)
    ensures
        match parent {
            Some(dir) => parent_text(path@) == Some(dir@),
            None => parent_text(path@) is None,
        },
{
    match std::path::Path::new(path).parent() {
        Some(dir) => Some(dir.to_string_lossy().into_owned()),
        None => None,
    }
}

/// Calls `std::path::Path::join` on `base` read as a path.
///
/// Trusted: the joined path depends on the two texts alone;
/// [`joined_text`] names it.
#[verifier::external_body]
pub(crate) fn join_path(base: &str, name: &str) -> (path: String)
    ensures
        path@ == joined_text(base@, name@),
{
    std::path::Path::new(base).join(name).to_string_lossy().into_owned()
}

/// The content of a text that may be absent.
pub open spec fn option_text(value: Option<String>) -> Option<Seq<char>> {
    match value {
        Some(text) => Some(text@),
        None => None,
    }
}

/// The directory that holds the running executable; empty where the
/// executable's path is unknown or has no parent.
pub open spec fn base_directory(current_exe: Option<Seq<char>>) -> Seq<char> {
    match current_exe {
        Some(exe) => match parent_text(exe) {
            Some(dir) => dir,
            None => Seq::empty(),
        },
        None => Seq::empty(),
    }
}

/// An override counts only where one is given and it is not empty.
pub open spec fn override_given(override_value: Option<Seq<char>>) -> bool {
    override_value matches Some(path) && path.len() > 0
}

/// Where a helper called `name` is looked for: at the override where one
/// counts, as it is; in every other case beside the running executable.
pub open spec fn resolved_path(
    override_value: Option<Seq<char>>,
    current_exe: Option<Seq<char>>,
    name: Seq<char>,
) -> Seq<char> {
    if override_given(override_value) {
        override_value->0
    } else {
        joined_text(base_directory(current_exe), name)
    }
}

/// Whether the override counts: it is given and not empty.
pub fn override_wins(override_value: &Option<String>) -> (wins: bool)
    ensures
        wins == override_given(option_text(*override_value)),
{
    match override_value {
        Some(given) => !given.as_str().is_empty(),
        None => false,
    }
}

/// The directory to look in, given the parent of the executable's path
/// where it has one: that parent, or the empty path.
pub fn directory_or_empty(parent: Option<String>) -> (directory: String)
    ensures
        directory@ == match parent {
            Some(dir) => dir@,
            None => Seq::<char>::empty(),
        },
{
    match parent {
        Some(dir) => dir,
        None => String::new(),
    }
}

/// The override where one counts, as it is; the fallback where none is
/// given or the one given is empty.
pub fn prefer_override(override_value: Option<String>, fallback: String) -> (path: String)
    ensures
        path@ == if override_given(option_text(override_value)) {
            override_value->0@
        } else {
            fallback@
        },
{
    if override_wins(&override_value) {
        match override_value {
            Some(given) => given,
            None => fallback,
        }
    } else {
        fallback
    }
}

/// The place of a helper called `name` beside the running executable.
pub fn beside_executable(current_exe: Option<String>, name: &str) -> (path: String)
    ensures
        path@ == joined_text(base_directory(option_text(current_exe)), name@),
{
    let parent = match current_exe {
        Some(exe) => parent_of(exe.as_str()),
        None => None,
    };
    let directory = directory_or_empty(parent);
    join_path(directory.as_str(), name)
}

/// Resolves the place of a helper called `name`. It never fails: an
/// override that is not empty is taken as it is, whether or not anything
/// exists there; without one, or with an empty one, the helper is placed
/// beside the running executable, or under its bare name where that
/// executable is unknown.
pub fn resolve_helper_path(
    override_value: Option<String>,
    current_exe: Option<String>,
    name: &str,
) -> (path: String)
    ensures
        path@ == resolved_path(option_text(override_value), option_text(current_exe), name@),
{
    prefer_override(override_value, beside_executable(current_exe, name))
}

/// Resolves the place of the auxiliary runtime from the override, where
/// one is configured, and the path of the running executable, where it is
/// known.
pub fn resolve_auxiliary_path(override_value: Option<String>, current_exe: Option<String>) -> (path:
    String)
    ensures
        path@ == resolved_path(
            option_text(override_value),
            option_text(current_exe),
            AUXILIARY_RUNTIME@,
        ),
{
    resolve_helper_path(override_value, current_exe, AUXILIARY_RUNTIME)
}

/// Resolution has an answer in every case. An override that is not empty
/// wins wherever the running executable is; an empty one counts as none.
pub proof fn lemma_resolution_cases(
    override_value: Option<Seq<char>>,
    current_exe: Option<Seq<char>>,
    name: Seq<char>,
)
    ensures
        override_value is Some && override_value->0.len() > 0 ==> resolved_path(
            override_value,
            current_exe,
            name,
        ) == override_value->0,
        override_value is Some && override_value->0.len() == 0 ==> resolved_path(
            override_value,
            current_exe,
            name,
        ) == resolved_path(None, current_exe, name),
        current_exe is Some && parent_text(current_exe->0) is Some ==> resolved_path(
            None,
            current_exe,
            name,
        ) == joined_text(parent_text(current_exe->0)->0, name),
        current_exe is Some && parent_text(current_exe->0) is None ==> resolved_path(
            None,
            current_exe,
            name,
        ) == joined_text(Seq::empty(), name),
        current_exe is None ==> resolved_path(None, current_exe, name) == joined_text(
            Seq::empty(),
            name,
        ),
{
}

} // verus!
