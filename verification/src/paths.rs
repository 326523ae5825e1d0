//! Where the services live: every installed service has a directory of its
//! name under `~/.fgp/services`, and its daemon listens on `daemon.sock` in it.

use crate::text::appended;
use vstd::prelude::*;
use vstd::string::*;

verus! {

/// Whether a leading tilde of `input` stands for the home directory: it does
/// when a separator or nothing follows it.
pub open spec fn tilde_leads(input: Seq<char>) -> bool {
    &&& input.len() > 0
    &&& input[0] == '~'
    &&& (input.len() == 1 || input[1] == '/' || input[1] == '\\')
}

/// `input` with `home` in place of its first character.
pub open spec fn under_home(home: Seq<char>, input: Seq<char>) -> Seq<char> {
    home + input.skip(1)
}

/// The services directory below a given home directory.
pub open spec fn services_dir_under(home: Seq<char>) -> Seq<char> {
    home + "/.fgp/services"@
}

/// Whether `dir` is the services directory below some home directory. Where
/// no home directory is known the tilde stays, and stands in its place.
pub open spec fn is_services_dir(dir: Seq<char>) -> bool {
    exists|home: Seq<char>| dir == #[trigger] services_dir_under(home)
}

/// `part` adjoined to the path `base`, as Unix paths are joined: an absolute
/// `part` replaces `base`, and a separator is put between the two unless
/// `base` is empty or already ends in one.
pub open spec fn joined(base: Seq<char>, part: Seq<char>) -> Seq<char> {
    if part.len() > 0 && part[0] == '/' {
        part
    } else if base.len() > 0 && base.last() != '/' {
        base + "/"@ + part
    } else {
        base + part
    }
}

/// The socket of `service` when the services are kept in `dir`.
pub open spec fn socket_path(dir: Seq<char>, service: Seq<char>) -> Seq<char> {
    joined(joined(dir, service), "daemon.sock"@)
}

/// `shellexpand::tilde`. The text comes back unchanged, or, where a tilde
/// leads it and the home directory is known, with the home directory in place
/// of the tilde. Which home directory that is depends on the environment.
#[verifier::external_body]
pub(crate) fn expand_tilde(input: &str) -> (out: String)
    ensures
        out@ == input@ || (tilde_leads(input@) && exists|home: Seq<char>|
            out@ == #[trigger] under_home(home, input@)),
{
    shellexpand::tilde(input).into_owned()
}

/// The directory under which the services are installed.
pub fn fgp_services_dir() -> (dir: String)
    ensures
        is_services_dir(dir@),
{
    let dir = expand_tilde("~/.fgp/services");
    proof {
        reveal_strlit("~/.fgp/services");
        reveal_strlit("/.fgp/services");
        let input = "~/.fgp/services"@;
        if dir@ == input {
            assert(dir@ == services_dir_under(seq!['~']));
        } else {
            let home = choose|home: Seq<char>| dir@ == #[trigger] under_home(home, input);
            assert(dir@ == services_dir_under(home));
        }
    }
    dir
}

/// Adjoins `part` to the path `base`.
pub fn join_path(base: &str, part: &str) -> (path: String)
    ensures
        path@ == joined(base@, part@),
{
    let base_len = base.unicode_len();
    let part_len = part.unicode_len();
    if part_len > 0 && part.get_char(0) == '/' {
        part.to_owned()
    } else if base_len > 0 && base.get_char(base_len - 1) != '/' {
        let mut path = appended(base, "/");
        path.append(part);
        path
    } else {
        appended(base, part)
    }
}

/// The socket of `service` below the services directory `dir`.
pub fn socket_path_in(dir: &str, service: &str) -> (path: String)
    ensures
        path@ == socket_path(dir@, service@),
{
    let service_dir = join_path(dir, service);
    join_path(service_dir.as_str(), "daemon.sock")
}

/// The socket on which the daemon of `service` listens.
pub fn service_socket_path(service: &str) -> (path: String)
    ensures
        exists|dir: Seq<char>| is_services_dir(dir) && path@ == #[trigger] socket_path(dir, service@),
{
    let dir = fgp_services_dir();
    socket_path_in(dir.as_str(), service)
}

} // verus!
