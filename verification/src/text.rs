use vstd::prelude::*;
use vstd::string::*;

verus! {

/// The letters of `text`, one by one.
pub fn chars_of(text: &str) -> (letters: Vec<char>)
    ensures
        letters@ == text@,
{
    broadcast use group_string_axioms;

    let mut letters: Vec<char> = Vec::new();
    for letter in it: text.chars()
        invariant
            it.seq() == text@,
            letters@ == it.seq().take(it.index() as int),
    {
        letters.push(letter);
    }
    letters
}

/// A copy of `texts`, text by text.
pub fn clone_strings(texts: &Vec<String>) -> (copy: Vec<String>)
    ensures
        copy.deep_view() == texts.deep_view(),
{
    let mut copy: Vec<String> = Vec::new();
    let mut i: usize = 0;
    while i < texts.len()
        invariant
            i <= texts.len(),
            copy@.len() == i,
            forall|k: int| 0 <= k < i ==> copy@[k]@ == texts@[k]@,
        decreases texts.len() - i,
    {
        copy.push(texts[i].clone());
        i += 1;
    }
    assert(copy.deep_view() =~= texts.deep_view());
    copy
}

} // verus!
