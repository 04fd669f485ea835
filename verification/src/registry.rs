use vstd::prelude::*;
use vstd::string::StrSliceExecFns;
use vstd::string::StringExecFns;

use crate::errors::Error;

verus! {

/// The directory under the operator's home where the tool keeps all of its
/// container registrations.
pub open spec fn tool_home_seq(home: Seq<char>) -> Seq<char> {
    home + "/.nuts"@
}

/// The registry directory under the tool home that holds one subdirectory per
/// registered container.
pub open spec fn registry_root_seq(tool_home: Seq<char>) -> Seq<char> {
    tool_home + "/container.d"@
}

/// The directory a named container lives in: a pure function of the tool home
/// and the name — the registry is structural, no mapping table exists.
pub open spec fn container_dir_seq(tool_home: Seq<char>, name: Seq<char>) -> Seq<char> {
    registry_root_seq(tool_home) + "/"@ + name
}

/// A name fit to stand as a single path segment: non-empty, free of
/// separators, and not a relative segment.
pub open spec fn is_simple_name(name: Seq<char>) -> bool {
    &&& name.len() > 0
    &&& (forall|i: int| 0 <= i < name.len() ==> name[i] != '/')
    &&& name != "."@
    &&& name != ".."@
}

/// Compute the tool home below the given home directory.
pub fn tool_home_path(home: &str) -> (p: String)
    ensures
        p@ == tool_home_seq(home@),
{
    let mut p = home.to_owned();
    p.append("/.nuts");
    p
}

/// Compute the registry root below the given tool home.
pub fn registry_root_path(tool_home: &str) -> (p: String)
    ensures
        p@ == registry_root_seq(tool_home@),
{
    let mut p = tool_home.to_owned();
    p.append("/container.d");
    p
}

/// Decide whether a name may stand as a container's path segment.
pub fn check_simple_name(name: &str) -> (ok: bool)
    ensures
        ok == is_simple_name(name@),
{
    proof {
        reveal_strlit(".");
        reveal_strlit("..");
    }
    let n = name.unicode_len();
    if n == 0 {
        return false;
    }
    let mut i: usize = 0;
    while i < n
        invariant
            i <= n,
            n == name@.len(),
            forall|j: int| 0 <= j < i ==> name@[j] != '/',
        decreases n - i,
    {
        if name.get_char(i) == '/' {
            return false;
        }
        i += 1;
    }
    if n == 1 && name.get_char(0) == '.' {
        proof {
            assert(name@ =~= "."@);
        }
        return false;
    }
    if n == 2 && name.get_char(0) == '.' && name.get_char(1) == '.' {
        proof {
            assert(name@ =~= ".."@);
        }
        return false;
    }
    true
}

/// Where the named container lives under the given tool home. The directory
/// is not created here: the registry establishes where a container lives, and
/// never whether one already exists there. Names that cannot stand as a
/// single path segment are rejected rather than allowed to escape the
/// registry.
pub fn container_dir_for(tool_home: &str, name: &str) -> (r: Result<String, Error>)
    ensures
        is_simple_name(name@) ==> (r matches Ok(p) && p@ == container_dir_seq(
            tool_home@,
            name@,
        )),
        !is_simple_name(name@) ==> r == Err::<String, Error>(Error::InvalidName),
{
    if !check_simple_name(name) {
        return Err(Error::InvalidName);
    }
    let mut p = registry_root_path(tool_home);
    p.append("/");
    p.append(name);
    proof {
        assert(p@ =~= container_dir_seq(tool_home@, name@));
    }
    Ok(p)
}

/// The directories that exist once an ensure step has run against the given
/// set of existing directories.
pub open spec fn dirs_after_ensure(dirs: Set<Seq<char>>, path: Seq<char>) -> Set<Seq<char>> {
    dirs.insert(path)
}

/// How many directories one ensure step creates: one when the path is absent,
/// none when it is already a directory.
pub open spec fn creations_for(dirs: Set<Seq<char>>, path: Seq<char>) -> nat {
    if dirs.contains(path) {
        0
    } else {
        1
    }
}

/// Decide whether a resolution step must create its directory: exactly when
/// the probe found no directory at the path.
pub fn dir_plan(already_dir: bool) -> (create: bool)
    ensures
        create <==> !already_dir,
{
    !already_dir
}

/// Law: resolving the tool home twice in one process yields the same path
/// both times — the path is a pure function of the home directory — and
/// creates the directory at most once: after the first resolution the
/// directory is present, so the second resolution plans no creation and
/// leaves the filesystem as the first left it.
pub proof fn lemma_tool_home_idempotent(dirs: Set<Seq<char>>, home: Seq<char>)
    ensures
        creations_for(dirs, tool_home_seq(home)) + creations_for(
            dirs_after_ensure(dirs, tool_home_seq(home)),
            tool_home_seq(home),
        ) <= 1,
        dirs_after_ensure(dirs_after_ensure(dirs, tool_home_seq(home)), tool_home_seq(home))
            =~= dirs_after_ensure(dirs, tool_home_seq(home)),
{
}

/// Law: under one tool home, distinct simple names are mapped to distinct
/// container directories.
pub proof fn lemma_container_dirs_distinct(tool_home: Seq<char>, n1: Seq<char>, n2: Seq<char>)
    requires
        is_simple_name(n1),
        is_simple_name(n2),
        n1 != n2,
    ensures
        container_dir_seq(tool_home, n1) != container_dir_seq(tool_home, n2),
{
    let p = registry_root_seq(tool_home) + "/"@;
    assert(container_dir_seq(tool_home, n1) == p + n1);
    assert(container_dir_seq(tool_home, n2) == p + n2);
    if p + n1 == p + n2 {
        assert(n1.len() == n2.len());
        assert forall|i: int| 0 <= i < n1.len() implies n1[i] == n2[i] by {
            assert((p + n1)[p.len() + i] == n1[i]);
            assert((p + n2)[p.len() + i] == n2[i]);
        }
        assert(n1 =~= n2);
    }
}

} // verus!
