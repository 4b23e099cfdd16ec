//! A word, as often as it was asked for.

use vstd::prelude::*;
use vstd::string::StringExecFns;

verus! {

/// `word`, `times` times in a row.
pub open spec fn repeated(word: Seq<char>, times: nat) -> Seq<char>
    decreases times,
{
    if times == 0 {
        Seq::empty()
    } else {
        repeated(word, (times - 1) as nat) + word
    }
}

/// The word `Stuff`, `mul` times.
pub fn stuff(mul: u32) -> (text: String)
    ensures
        text@ == repeated("Stuff"@, mul as nat),
{
    let mut text = String::new();
    let mut i: u32 = 0;
    while i < mul
        invariant
            i <= mul,
            text@ == repeated("Stuff"@, i as nat),
        decreases mul - i,
    {
        text.append("Stuff");
        i += 1;
    }
    text
}

} // verus!
