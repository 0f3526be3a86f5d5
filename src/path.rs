//! Joining of path components as plain text.
use vstd::prelude::*;

verus! {

/// The character that separates path components.
#[derive(Clone, Copy, Debug, PartialEq, Eq, Structural)]
pub enum Separator {
    /// `/`, as on Unix-like systems.
    Slash,
    /// `\`, as on Windows.
    Backslash,
}

impl Separator {
    pub open spec fn spec_char(self) -> char {
        match self {
            Separator::Slash => '/',
            Separator::Backslash => '\\',
        }
    }

    /// The separator as a character.
    pub fn as_char(self) -> (c: char)
        ensures
            c == self.spec_char(),
    {
        match self {
            Separator::Slash => '/',
            Separator::Backslash => '\\',
        }
    }
}

/// `base` followed by `segment`, with one separator between them: none is
/// added where `base` is empty or already ends with the separator. Nothing is
/// normalised.
pub open spec fn joined(base: Seq<char>, segment: Seq<char>, sep: char) -> Seq<char> {
    if base.len() == 0 {
        segment
    } else if base.last() == sep {
        base + segment
    } else {
        base + seq![sep] + segment
    }
}

/// Appends `segment` to the path `base`.
pub fn join(base: &str, segment: &str, sep: Separator) -> (r: String)
    ensures
        r@ == joined(base@, segment@, sep.spec_char()),
{
    let n = base.unicode_len();
    let mut r = String::from_str(base);
    if n > 0 && base.get_char(n - 1) != sep.as_char() {
        match sep {
            Separator::Slash => {
                let s = "/";
                proof {
                    reveal_strlit("/");
                }
                r.append(s);
            },
            Separator::Backslash => {
                let s = "\\";
                proof {
                    reveal_strlit("\\");
                }
                r.append(s);
            },
        }
    }
    r.append(segment);
    proof {
        if base@.len() > 0 && base@.last() != sep.spec_char() {
            assert(r@ =~= base@ + seq![sep.spec_char()] + segment@);
        }
    }
    r
}

} // verus!
