//! An invocation of `git`: its arguments and what it reads on standard
//! input. The library builds these values; running them is the caller's
//! part.

use vstd::prelude::*;
use vstd::string::*;
use crate::text::string_of;
use crate::number::{decimal, decimal_chars};

verus! {

/// One invocation of `git`.
#[derive(Debug, Clone)]
pub struct GitCommand {
    /// The arguments behind the program's name.
    pub args: Vec<String>,
    /// The text to feed to the process on standard input, if any.
    pub stdin: Option<String>,
}

/// The mathematical value of a `GitCommand`.
pub struct GitCommandView {
    pub args: Seq<Seq<char>>,
    pub stdin: Option<Seq<char>>,
}

impl View for GitCommand {
    type V = GitCommandView;

    open spec fn view(&self) -> GitCommandView {
        GitCommandView { args: self.args.deep_view(), stdin: self.stdin.deep_view() }
    }
}

/// The texts that the string slices of `words` hold.
pub open spec fn texts(words: Seq<&str>) -> Seq<Seq<char>> {
    words.map_values(|w: &str| w@)
}

/// Owned copies of `words`.
pub fn strings_of(words: Vec<&str>) -> (r: Vec<String>)
    ensures
        r.deep_view() == texts(words@),
{
    let mut r: Vec<String> = Vec::new();
    let mut i: usize = 0;
    while i < words.len()
        invariant
            i <= words.len(),
            r.len() == i,
            forall|j: int| 0 <= j < i ==> r@[j]@ == words@[j]@,
        decreases words.len() - i,
    {
        r.push(String::from_str(words[i]));
        i += 1;
    }
    assert(r.deep_view() =~= texts(words@));
    r
}

/// The argument `prefix` with the number `n` behind it, in base ten.
pub fn numbered(prefix: &str, n: usize) -> (r: String)
    ensures
        r@ == prefix@ + decimal(n as nat),
{
    let mut r = String::from_str(prefix);
    let digits = string_of(&decimal_chars(n as u64));
    r.append(digits.as_str());
    r
}

/// The argument `prefix` with `text` behind it.
pub fn prefixed(prefix: &str, text: &str) -> (r: String)
    ensures
        r@ == prefix@ + text@,
{
    let mut r = String::from_str(prefix);
    r.append(text);
    r
}

} // verus!
