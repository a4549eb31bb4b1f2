//! Socket names and the paths they stand for.
use vstd::prelude::*;
use vstd::string::*;

verus! {

/// The separator of path components. A name that starts with it is absolute.
pub const SEPARATOR: char = '/';

/// The base directory of every socket whose name is not absolute.
pub const SOCKET_PATH: &'static str = "/tmp";

/// Whether `name` is taken as it is: it starts with the separator.
pub open spec fn is_absolute(name: Seq<char>) -> bool {
    name.len() > 0 && name[0] == SEPARATOR
}

/// The path that `name` stands for under `base`.
pub open spec fn resolve_spec(base: Seq<char>, name: Seq<char>) -> Seq<char> {
    if is_absolute(name) {
        name
    } else {
        base + seq![SEPARATOR] + name
    }
}

/// The characters of [`SOCKET_PATH`].
pub open spec fn socket_path_spec() -> Seq<char> {
    seq!['/', 't', 'm', 'p']
}

/// The path that `name` stands for under the default base directory. The
/// listener, the client and the one-shot exchange all go by it, so that a
/// name means the same socket to each of them.
pub open spec fn full_path_spec(name: Seq<char>) -> Seq<char> {
    resolve_spec(socket_path_spec(), name)
}

/// A name under an absolute base stands for an absolute path, and
/// resolving a second time, under any base, changes nothing. So every path
/// to bind or dial under the default base is absolute, and a name that was
/// resolved under a base of the caller's own is bound and dialed as it is.
pub proof fn law_resolved_is_absolute(base: Seq<char>, other: Seq<char>, name: Seq<char>)
    requires
        is_absolute(base),
    ensures
        is_absolute(resolve_spec(base, name)),
        resolve_spec(other, resolve_spec(base, name)) == resolve_spec(base, name),
        full_path_spec(resolve_spec(base, name)) == resolve_spec(base, name),
        is_absolute(full_path_spec(name)),
        full_path_spec(full_path_spec(name)) == full_path_spec(name),
{
}

/// Turns a socket name into the path to bind or dial: an absolute name is
/// returned unchanged, any other is placed under `base`.
pub fn resolve(base: &str, name: &str) -> (path: String)
    ensures
        path@ == resolve_spec(base@, name@),
        is_absolute(name@) ==> path@ == name@,
        !is_absolute(name@) ==> path@ == base@ + seq![SEPARATOR] + name@,
{
    if !name.is_empty() && name.get_char(0) == SEPARATOR {
        String::from_str(name)
    } else {
        proof {
            reveal_strlit("/");
        }
        let mut path = String::from_str(base);
        path.append("/");
        path.append(name);
        assert("/"@ =~= seq![SEPARATOR]);
        path
    }
}

/// Resolves `path` under the default base directory, [`SOCKET_PATH`].
pub fn get_full_path(path: &str) -> (full: String)
    ensures
        full@ == full_path_spec(path@),
        is_absolute(path@) ==> full@ == path@,
        !is_absolute(path@) ==> full@ == socket_path_spec() + seq![SEPARATOR] + path@,
{
    proof {
        reveal_strlit("/tmp");
    }
    assert(SOCKET_PATH@ =~= socket_path_spec());
    resolve(SOCKET_PATH, path)
}

} // verus!
