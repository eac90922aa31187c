//! The token held by the contents of a credentials file.

use crate::addr::opt_view;
use crate::text::{trim, trimmed};
use vstd::prelude::*;
use vstd::string::*;

verus! {

/// The token in the contents of one file: the contents without surrounding
/// white space, where anything is left.
pub open spec fn token_in(content: Seq<char>) -> Option<Seq<char>> {
    if trimmed(content).len() == 0 {
        None
    } else {
        Some(trimmed(content))
    }
}

/// The token of the first of the contents that holds one.
pub open spec fn first_token_in(contents: Seq<Seq<char>>) -> Option<Seq<char>>
    decreases contents.len(),
{
    if contents.len() == 0 {
        None
    } else if token_in(contents[0]) is Some {
        token_in(contents[0])
    } else {
        first_token_in(contents.skip(1))
    }
}

/// Extracts the token from the contents of one file.
pub fn token_of(content: &str) -> (r: Option<String>)
    ensures
        opt_view(r) == token_in(content@),
{
    let t = trim(content);
    if t.is_empty() {
        None
    } else {
        Some(String::from_str(t))
    }
}

/// Extracts the token from the contents of the candidate files, taken in
/// order: the first file that holds a token decides.
pub fn first_token(contents: &Vec<String>) -> (r: Option<String>)
    ensures
        opt_view(r) == first_token_in(Seq::new(contents@.len(), |i: int| contents@[i]@)),
{
    let ghost all = Seq::new(contents@.len(), |i: int| contents@[i]@);
    let mut k: usize = 0;
    assert(all.skip(0) =~= all);
    while k < contents.len()
        invariant
            k <= contents@.len(),
            all == Seq::new(contents@.len(), |i: int| contents@[i]@),
            first_token_in(all) == first_token_in(all.skip(k as int)),
        decreases contents@.len() - k,
    {
        let found = token_of(contents[k].as_str());
        assert(all.skip(k as int)[0] == contents@[k as int]@);
        if found.is_some() {
            return found;
        }
        assert(all.skip(k as int).skip(1) =~= all.skip(k as int + 1));
        k += 1;
    }
    None
}

} // verus!
