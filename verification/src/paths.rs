//! Where relative paths are anchored, and which module file is opened.

use vstd::prelude::*;
use crate::error::HostError;
use crate::symbols::Core;

verus! {

/// The first position at or after `from` whose directory holds the data
/// directory. Position 0 is the executable's own directory, each next one is
/// the parent of the one before, and the last is the filesystem root.
pub open spec fn anchor_from(has_sentinel: Seq<bool>, from: int) -> Option<int>
    decreases has_sentinel.len() - from,
{
    if from < 0 || from >= has_sentinel.len() {
        None
    } else if has_sentinel[from] {
        Some(from)
    } else {
        anchor_from(has_sentinel, from + 1)
    }
}

/// How many levels above the executable's directory the anchor lies.
pub open spec fn anchor_depth(has_sentinel: Seq<bool>) -> Option<int> {
    anchor_from(has_sentinel, 0)
}

/// The nearest ancestor that holds the data directory, or the error of a
/// search that reached the root without one.
pub open spec fn anchor_result(has_sentinel: Seq<bool>) -> Result<usize, HostError> {
    match anchor_depth(has_sentinel) {
        Some(depth) => Ok(depth as usize),
        None => Err(HostError::PathResolution),
    }
}

/// `anchor_from` finds the nearest marked position, and finds none only
/// where none is marked.
pub proof fn lemma_anchor_from(has_sentinel: Seq<bool>, from: int)
    requires
        0 <= from,
    ensures
        match anchor_from(has_sentinel, from) {
            Some(depth) => from <= depth < has_sentinel.len() && has_sentinel[depth] && forall|
                j: int,
            | from <= j < depth ==> !has_sentinel[j],
            None => forall|j: int| from <= j < has_sentinel.len() ==> !has_sentinel[j],
        },
    decreases has_sentinel.len() - from,
{
    if from < has_sentinel.len() && !has_sentinel[from] {
        lemma_anchor_from(has_sentinel, from + 1);
    }
}

/// The anchor is the nearest ancestor with the data directory: it has one,
/// no nearer ancestor has, and the search fails exactly where no ancestor
/// has one.
pub proof fn lemma_anchor_is_nearest(has_sentinel: Seq<bool>)
    ensures
        match anchor_depth(has_sentinel) {
            Some(depth) => 0 <= depth < has_sentinel.len() && has_sentinel[depth] && forall|
                j: int,
            | 0 <= j < depth ==> !has_sentinel[j],
            None => forall|j: int| 0 <= j < has_sentinel.len() ==> !has_sentinel[j],
        },
{
    lemma_anchor_from(has_sentinel, 0);
}

/// Picks the directory that anchors relative paths. `has_sentinel[i]` says
/// whether the `i`-th ancestor of the executable's directory (itself at 0,
/// the root last) holds the data directory.
pub fn find_anchor(has_sentinel: &Vec<bool>) -> (r: Result<usize, HostError>)
    ensures
        r == anchor_result(has_sentinel@),
        r is Ok <==> exists|j: int| 0 <= j < has_sentinel.len() && has_sentinel[j],
        r is Ok ==> r->Ok_0 < has_sentinel.len() && has_sentinel[r->Ok_0 as int] && forall|j: int|
            0 <= j < r->Ok_0 ==> !has_sentinel[j],
        r is Err ==> r->Err_0 == HostError::PathResolution,
{
    let mut i: usize = 0;
    while i < has_sentinel.len()
        invariant
            i <= has_sentinel.len(),
            anchor_depth(has_sentinel@) == anchor_from(has_sentinel@, i as int),
            forall|j: int| 0 <= j < i ==> !has_sentinel[j],
        decreases has_sentinel.len() - i,
    {
        if has_sentinel[i] {
            return Ok(i);
        }
        i += 1;
    }
    Err(HostError::PathResolution)
}

/// The directory of the module file that is opened when no file is named.
pub open spec fn default_directory() -> Seq<char> {
    "../retrovert-core/target/debug/"@
}

/// The module's library name, without what a platform adds to it.
pub open spec fn module_stem() -> Seq<char> {
    "rv_core"@
}

/// `stem` between a prefix and a suffix.
pub open spec fn framed(prefix: Seq<char>, stem: Seq<char>, suffix: Seq<char>) -> Seq<char> {
    prefix + stem + suffix
}

/// `file` is `stem` with some text before it and some after it.
pub open spec fn is_platform_name(file: Seq<char>, stem: Seq<char>) -> bool {
    exists|prefix: Seq<char>, suffix: Seq<char>| file == #[trigger] framed(prefix, stem, suffix)
}

/// `path` is the default directory followed by a platform's file name for
/// the module.
pub open spec fn is_default_path(path: Seq<char>) -> bool {
    exists|file: Seq<char>| #[trigger]
        is_platform_name(file, module_stem()) && path == default_directory() + file
}

/// The path that is opened: the named file, else the platform's file in the
/// default directory.
pub open spec fn selected_path(core_filename: Option<String>, platform_file: Seq<char>) -> Seq<
    char,
> {
    match core_filename {
        Some(name) => name@,
        None => default_directory() + platform_file,
    }
}

/// Calls `libloading::library_filename`, which puts the platform's library
/// prefix before the given name and the platform's library suffix after it.
/// Both depend on the build target, so the contract says only that the name
/// stands, unchanged, between some prefix and some suffix.
#[verifier::external_body]
fn platform_library_name(stem: &str) -> (file: String)
    ensures
        is_platform_name(file@, stem@),
{
    libloading::library_filename(stem).to_string_lossy().into_owned()
}

/// Chooses the module file from the caller's override and the platform's
/// file name for the module.
pub fn choose_module_path(core_filename: &Option<String>, platform_file: &str) -> (path: String)
    ensures
        path@ == selected_path(*core_filename, platform_file@),
{
    match core_filename {
        Some(name) => name.clone(),
        None => String::from_str("../retrovert-core/target/debug/").concat(platform_file),
    }
}

impl Core {
    /// The path of the module file to open: `core_filename` where it is
    /// given, else the module's library under the default directory, named
    /// as the platform names its libraries.
    pub fn load_core(core_filename: &Option<String>) -> (path: String)
        ensures
            core_filename is Some ==> path@ == core_filename->Some_0@,
            core_filename is None ==> is_default_path(path@),
    {
        match core_filename {
            Some(name) => name.clone(),
            None => {
                let file = platform_library_name("rv_core");
                let path = choose_module_path(core_filename, file.as_str());
                assert(is_platform_name(file@, module_stem()) && path@ == default_directory()
                    + file@);
                path
            },
        }
    }
}

} // verus!
