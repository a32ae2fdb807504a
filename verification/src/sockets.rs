//! Where the sockets live: the environment variables that name them and the
//! fallbacks when they are unset.

use vstd::prelude::*;

use crate::text::{owned, push_char, push_str};

verus! {

/// The environment variables that locate the sockets, as plain values.
#[derive(Clone, Debug, Default, PartialEq, Eq)]
pub struct SocketEnvironment {
    /// `MENTCI_SOCKET`
    pub mentci_socket: Option<String>,
    /// `MENTCI_META_SOCKET`
    pub mentci_meta_socket: Option<String>,
    /// `MENTCI_EGUI_CONTROL_SOCKET`
    pub control_socket: Option<String>,
    /// `XDG_RUNTIME_DIR`
    pub runtime_directory: Option<String>,
}

/// `directory` joined with the relative file name `name`, as `Path::join`
/// does on Unix: a separator goes between them unless the directory is empty
/// or already ends in one.
pub open spec fn join_path(directory: Seq<char>, name: Seq<char>) -> Seq<char> {
    if directory.len() == 0 {
        name
    } else if directory.last() == '/' {
        directory + name
    } else {
        directory + seq!['/'] + name
    }
}

/// The socket path: the variable naming it, else `name` in the runtime
/// directory, else `fallback`.
pub open spec fn socket_path_spec(
    explicit: Option<Seq<char>>,
    runtime_directory: Option<Seq<char>>,
    name: Seq<char>,
    fallback: Seq<char>,
) -> Seq<char> {
    match explicit {
        Some(path) => path,
        None => match runtime_directory {
            Some(directory) => join_path(directory, name),
            None => fallback,
        },
    }
}

/// Law: a socket named in the environment wins whatever the runtime
/// directory; otherwise the file goes in the runtime directory, after a
/// separator unless the directory is empty or ends in one; otherwise the
/// fallback is used.
pub proof fn lemma_socket_path_choice(
    path: Seq<char>,
    runtime_directory: Option<Seq<char>>,
    name: Seq<char>,
    fallback: Seq<char>,
)
    ensures
        socket_path_spec(Some(path), runtime_directory, name, fallback) == path,
        socket_path_spec(None, None, name, fallback) == fallback,
        runtime_directory matches Some(d) ==> {
            let r = socket_path_spec(None, runtime_directory, name, fallback);
            &&& r.len() >= d.len() + name.len()
            &&& r.subrange(0, d.len() as int) == d
            &&& r.subrange(r.len() - name.len(), r.len() as int) == name
            &&& r.len() == d.len() + name.len() <==> (d.len() == 0 || d.last() == '/')
            &&& r.len() != d.len() + name.len() ==> r.len() == d.len() + name.len() + 1
                && r[d.len() as int] == '/'
        },
{
    if let Some(d) = runtime_directory {
        let r = socket_path_spec(None, runtime_directory, name, fallback);
        if d.len() == 0 {
            assert(r == name);
            assert(r.subrange(0, 0) =~= d);
            assert(r.subrange(r.len() - name.len(), r.len() as int) =~= name);
        } else if d.last() == '/' {
            assert(r == d + name);
            assert(r.subrange(0, d.len() as int) =~= d);
            assert(r.subrange(r.len() - name.len(), r.len() as int) =~= name);
        } else {
            assert(r == d + seq!['/'] + name);
            assert(r.subrange(0, d.len() as int) =~= d);
            assert(r.subrange(r.len() - name.len(), r.len() as int) =~= name);
        }
    }
}

pub open spec fn option_text(o: Option<String>) -> Option<Seq<char>> {
    match o {
        Some(s) => Some(s@),
        None => None,
    }
}

/// The path of the file `name` in `directory`.
pub fn join_path_of(directory: &str, name: &str) -> (path: String)
    ensures
        path@ == join_path(directory@, name@),
{
    let mut path = owned(directory);
    let directory_chars = crate::text::chars_of(directory);
    let n = directory_chars.len();
    if n > 0 && directory_chars[n - 1] != '/' {
        push_char(&mut path, '/');
    }
    push_str(&mut path, name);
    proof {
        if directory@.len() == 0 {
            assert(directory@ + name@ =~= name@);
        }
    }
    path
}

/// The socket path chosen from the environment.
pub fn socket_path(
    explicit: &Option<String>,
    runtime_directory: &Option<String>,
    name: &str,
    fallback: &str,
) -> (path: String)
    ensures
        path@ == socket_path_spec(
            option_text(*explicit),
            option_text(*runtime_directory),
            name@,
            fallback@,
        ),
{
    match explicit {
        Some(path) => path.clone(),
        None => match runtime_directory {
            Some(directory) => join_path_of(directory.as_str(), name),
            None => owned(fallback),
        },
    }
}

} // verus!
