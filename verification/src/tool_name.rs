//! The tool name grammar `fgp_<daemon>_<method>`: a daemon method is advertised
//! under a name in which the dots of the method become underscores, and a tool
//! name is read back by splitting at its first underscore.

use crate::text::{
    appended, find_char, first_index, has_prefix, lemma_first_index, lemma_first_index_is,
    lemma_substituted_one, replace_char, starts_with, substituted,
};
use vstd::prelude::*;
use vstd::string::*;

verus! {

/// A daemon and one of its methods, as named by a tool.
#[derive(Debug, PartialEq, Eq)]
pub struct ToolTarget {
    pub daemon: String,
    pub method: String,
}

impl View for ToolTarget {
    type V = (Seq<char>, Seq<char>);

    open spec fn view(&self) -> (Seq<char>, Seq<char>) {
        (self.daemon@, self.method@)
    }
}

/// The tool name under which `method` of `daemon` is advertised.
pub open spec fn encoded(daemon: Seq<char>, method: Seq<char>) -> Seq<char> {
    "fgp_"@ + daemon + "_"@ + substituted(method, '.', "_"@)
}

/// A tool name without its `fgp_` prefix; a name without the prefix is taken whole.
pub open spec fn tool_body(tool: Seq<char>) -> Seq<char> {
    if starts_with(tool, "fgp_"@) {
        tool.skip("fgp_"@.len() as int)
    } else {
        tool
    }
}

/// The daemon and the dotted method that a tool name stands for: the body is
/// split at its first underscore, and every underscore after it becomes a dot.
/// A body without an underscore names nothing.
pub open spec fn decoded(tool: Seq<char>) -> Option<(Seq<char>, Seq<char>)> {
    let body = tool_body(tool);
    let at = first_index(body, '_');
    if at < body.len() {
        Some((body.take(at), substituted(body.skip(at + 1), '_', "."@)))
    } else {
        None
    }
}

/// A tool name is well formed exactly when its body holds an underscore.
pub proof fn lemma_decoded_some_iff(tool: Seq<char>)
    ensures
        decoded(tool) is Some <==> tool_body(tool).contains('_'),
{
    lemma_first_index(tool_body(tool), '_');
}

/// Any name `fgp_<d>_<rest>` whose daemon part holds no underscore reads back
/// as that daemon and `rest` with its underscores turned into dots.
pub proof fn lemma_decoded_parts(daemon: Seq<char>, rest: Seq<char>)
    requires
        !daemon.contains('_'),
    ensures
        decoded("fgp_"@ + daemon + "_"@ + rest) == Some(
            (daemon, substituted(rest, '_', "."@)),
        ),
{
    reveal_strlit("fgp_");
    reveal_strlit("_");
    let tool = "fgp_"@ + daemon + "_"@ + rest;
    assert(tool.take(4) == "fgp_"@);
    let body = tool_body(tool);
    let at = daemon.len() as int;
    lemma_first_index_is(body, '_', at);
    assert(body.skip(at + 1) == rest);
}

/// Decoding an advertised name gives back the daemon, provided its name holds
/// no underscore, and the method with dots in place of its underscores; a
/// method without underscores comes back unchanged.
pub proof fn lemma_round_trip(daemon: Seq<char>, method: Seq<char>)
    requires
        !daemon.contains('_'),
    ensures
        decoded(encoded(daemon, method)) == Some((daemon, substituted(method, '_', "."@))),
        !method.contains('_') ==> decoded(encoded(daemon, method)) == Some((daemon, method)),
{
    reveal_strlit("_");
    reveal_strlit(".");
    let under = substituted(method, '.', "_"@);
    let dotted = substituted(method, '_', "."@);
    lemma_decoded_parts(daemon, under);
    assert("_"@ == seq!['_']);
    assert("."@ == seq!['.']);
    lemma_substituted_one(method, '.', '_');
    lemma_substituted_one(under, '_', '.');
    lemma_substituted_one(method, '_', '.');
}

/// A tool name `fgp_<d>_<rest>` without dots, whose daemon part holds no
/// underscore, is the name under which what it stands for is advertised:
/// encoding what was decoded gives the name back.
pub proof fn lemma_decode_then_encode(daemon: Seq<char>, rest: Seq<char>)
    requires
        !daemon.contains('_'),
        !rest.contains('.'),
    ensures
        match decoded("fgp_"@ + daemon + "_"@ + rest) {
            Some((d, m)) => encoded(d, m) == "fgp_"@ + daemon + "_"@ + rest,
            None => false,
        },
{
    reveal_strlit("_");
    reveal_strlit(".");
    lemma_decoded_parts(daemon, rest);
    let dotted = substituted(rest, '_', "."@);
    assert("_"@ == seq!['_']);
    assert("."@ == seq!['.']);
    lemma_substituted_one(rest, '_', '.');
    lemma_substituted_one(dotted, '.', '_');
}

/// Builds the tool name for `method` of `daemon`.
pub fn encode_tool_name(daemon: &str, method: &str) -> (name: String)
    ensures
        name@ == encoded(daemon@, method@),
{
    let mut name = appended("fgp_", daemon);
    name.append("_");
    let tail = replace_char(method, '.', "_");
    name.append(tail.as_str());
    name
}

/// Reads a tool name back into daemon and method.
pub fn decode_tool_name(tool: &str) -> (target: Option<ToolTarget>)
    ensures
        match target {
            Some(t) => decoded(tool@) == Some(t@),
            None => decoded(tool@) is None,
        },
{
    let total = tool.unicode_len();
    proof {
        reveal_strlit("fgp_");
    }
    let body = if has_prefix(tool, "fgp_") {
        tool.substring_char(4, total)
    } else {
        tool
    };
    let len = body.unicode_len();
    match find_char(body, '_') {
        Some(at) => {
            let daemon = body.substring_char(0, at).to_owned();
            let method = replace_char(body.substring_char(at + 1, len), '_', ".");
            Some(ToolTarget { daemon, method })
        },
        None => {
            proof {
                lemma_first_index(body@, '_');
            }
            None
        },
    }
}

} // verus!
