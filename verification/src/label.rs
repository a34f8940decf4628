//! Lobby-name validation: 1 to 20 characters, all alphanumeric.
use vstd::prelude::*;
use vstd::string::StrSliceExecFns;

verus! {

/// What `char::is_alphanumeric` returns for a character.
pub uninterp spec fn is_alphanumeric(c: char) -> bool;

/// Relies on char::is_alphanumeric: whether a character counts as
/// alphanumeric depends on the character alone.
#[verifier::external_body]
fn check_alphanumeric(c: char) -> (r: bool)
    ensures
        r == is_alphanumeric(c),
{
    c.is_alphanumeric()
}

/// A lobby name is valid when it has 1 to 20 characters, all alphanumeric.
pub open spec fn valid_lobby_name(s: Seq<char>) -> bool {
    &&& 1 <= s.len() <= 20
    &&& forall|i: int| 0 <= i < s.len() ==> is_alphanumeric(#[trigger] s[i])
}

/// Decide `valid_lobby_name` for a name handed in by a caller.
pub fn check_lobby_name(s: &str) -> (r: bool)
    ensures
        r == valid_lobby_name(s@),
{
    let n: usize = s.unicode_len();
    if n < 1 || n > 20 {
        return false;
    }
    let mut i: usize = 0;
    while i < n
        invariant
            n == s@.len(),
            i <= n,
            1 <= n <= 20,
            forall|j: int| 0 <= j < i ==> is_alphanumeric(#[trigger] s@[j]),
        decreases n - i,
    {
        if !check_alphanumeric(s.get_char(i)) {
            return false;
        }
        i = i + 1;
    }
    true
}

} // verus!
