//! The command registry: the closed set of operations the tool offers and
//! the bidirectional mapping between a command's textual name and its
//! typed identity.

use vstd::prelude::*;
use vstd::string::StrSliceExecFns;
use vstd::string::StringExecFns;

verus! {

/// A top-level command for nitrocli.
#[derive(Clone, Copy, Debug, PartialEq, Eq, Structural)]
pub enum Command {
    Clear,
    Close,
    Open,
    Status,
}

/// The canonical lowercase name of a command.
pub open spec fn spec_name(c: Command) -> Seq<char> {
    match c {
        Command::Clear => "clear"@,
        Command::Close => "close"@,
        Command::Open => "open"@,
        Command::Status => "status"@,
    }
}

/// The synthetic program name handed to a command's sub-parser, so that
/// usage and help text show the full `nitrocli <command>` invocation.
pub open spec fn spec_invocation(c: Command) -> Seq<char> {
    "nitrocli "@ + spec_name(c)
}

/// The command, if any, whose canonical name is `s`.
pub open spec fn spec_parse(s: Seq<char>) -> Option<Command> {
    if s == "clear"@ {
        Some(Command::Clear)
    } else if s == "close"@ {
        Some(Command::Close)
    } else if s == "open"@ {
        Some(Command::Open)
    } else if s == "status"@ {
        Some(Command::Status)
    } else {
        None
    }
}

/// Character-by-character string equality.
fn str_eq(a: &str, b: &str) -> (r: bool)
    ensures
        r == (a@ == b@),
{
    let a_len = a.unicode_len();
    let b_len = b.unicode_len();
    if a_len != b_len {
        return false;
    }
    let mut i: usize = 0;
    while i < a_len
        invariant
            i <= a_len,
            a_len == a@.len(),
            a_len == b@.len(),
            forall|j: int| 0 <= j < i ==> a@[j] == b@[j],
        decreases a_len - i,
    {
        if a.get_char(i) != b.get_char(i) {
            return false;
        }
        i = i + 1;
    }
    proof {
        assert(a@ =~= b@);
    }
    true
}

impl Command {
    /// Resolve a command name: an exact, case-sensitive match against the
    /// four canonical names; anything else is not recognized.
    pub fn parse(s: &str) -> (r: Option<Command>)
        ensures
            r == spec_parse(s@),
    {
        if str_eq(s, "clear") {
            Some(Command::Clear)
        } else if str_eq(s, "close") {
            Some(Command::Close)
        } else if str_eq(s, "open") {
            Some(Command::Open)
        } else if str_eq(s, "status") {
            Some(Command::Status)
        } else {
            None
        }
    }

    /// The canonical name of this command, the inverse of `parse`.
    pub fn name(&self) -> (r: &'static str)
        ensures
            r@ == spec_name(*self),
    {
        match *self {
            Command::Clear => "clear",
            Command::Close => "close",
            Command::Open => "open",
            Command::Status => "status",
        }
    }

    /// The program name under which this command's sub-parser reports
    /// usage: the tool's name followed by the command's name.
    pub fn invocation(&self) -> (r: String)
        ensures
            r@ == spec_invocation(*self),
    {
        let mut s = String::from_str("nitrocli ");
        s.append(self.name());
        s
    }
}

/// Round trip: parsing a command's canonical name yields that command
/// back.
pub proof fn lemma_parse_name_round_trip(c: Command)
    ensures
        spec_parse(spec_name(c)) == Some(c),
{
    reveal_strlit("clear");
    reveal_strlit("close");
    reveal_strlit("open");
    reveal_strlit("status");
    assert("clear"@ != "close"@) by {
        assert("clear"@[2] != "close"@[2]);
    }
    assert("open"@ != "clear"@) by {
        assert("open"@.len() != "clear"@.len());
    }
    assert("open"@ != "close"@) by {
        assert("open"@.len() != "close"@.len());
    }
    assert("status"@ != "clear"@) by {
        assert("status"@.len() != "clear"@.len());
    }
    assert("status"@ != "close"@) by {
        assert("status"@.len() != "close"@.len());
    }
    assert("status"@ != "open"@) by {
        assert("status"@.len() != "open"@.len());
    }
}

/// A recognized name is exactly the name of the command it resolves to.
pub proof fn lemma_parse_sound(s: Seq<char>, c: Command)
    requires
        spec_parse(s) == Some(c),
    ensures
        s == spec_name(c),
{
}

/// A name outside the four canonical ones is not recognized.
pub proof fn lemma_parse_unrecognized(s: Seq<char>)
    requires
        s != "clear"@,
        s != "close"@,
        s != "open"@,
        s != "status"@,
    ensures
        spec_parse(s) is None,
{
}

/// Command resolution is total and pure: it is a function of the name
/// alone, so equal names always resolve to equal results.
pub proof fn lemma_parse_deterministic(s1: Seq<char>, s2: Seq<char>)
    requires
        s1 == s2,
    ensures
        spec_parse(s1) == spec_parse(s2),
{
}

} // verus!
