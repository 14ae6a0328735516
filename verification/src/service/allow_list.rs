use vstd::prelude::*;
use crate::text::chars_of;

verus! {

/// `list[from..to]` is one entry of the comma-separated `list`: it holds no
/// comma, and a comma or an end of the list stands on either side of it.
pub open spec fn is_entry(list: Seq<char>, from: int, to: int) -> bool {
    &&& 0 <= from <= to <= list.len()
    &&& from == 0 || list[from - 1] == ','
    &&& to == list.len() || list[to] == ','
    &&& forall|k: int| from <= k < to ==> list[k] != ','
}

/// `email` is, letter for letter, one of the entries of the comma-separated
/// `list`. Upper and lower case differ, and blanks count.
pub open spec fn email_is_allowed(list: Seq<char>, email: Seq<char>) -> bool {
    exists|from: int, to: int| #[trigger]
        is_entry(list, from, to) && list.subrange(from, to) == email
}

/// Whether `list[from..to]` and `word` are the same letters.
fn span_equals(list: &Vec<char>, from: usize, to: usize, word: &Vec<char>) -> (same: bool)
    requires
        from <= to <= list.len(),
    ensures
        same == (list@.subrange(from as int, to as int) == word@),
{
    if to - from != word.len() {
        return false;
    }
    let mut k: usize = 0;
    while k < word.len()
        invariant
            from <= to <= list.len(),
            to - from == word.len(),
            k <= word.len(),
            forall|j: int| 0 <= j < k ==> list@[from + j] == word@[j],
        decreases word.len() - k,
    {
        if list[from + k] != word[k] {
            assert(list@.subrange(from as int, to as int)[k as int] != word@[k as int]);
            return false;
        }
        k += 1;
    }
    assert(list@.subrange(from as int, to as int) =~= word@);
    true
}

/// Tells whether `email` is on the comma-separated allow-list
/// `allowed_emails`: whether it equals one of the entries exactly.
pub fn is_allowed(allowed_emails: &str, email: &str) -> (allowed: bool)
    ensures
        allowed == email_is_allowed(allowed_emails@, email@),
{
    let list = chars_of(allowed_emails);
    let word = chars_of(email);
    let len = list.len();
    let mut from: usize = 0;
    let mut at: usize = 0;
    while at < len
        invariant
            len == list.len(),
            list@ == allowed_emails@,
            word@ == email@,
            from <= at <= len,
            from == 0 || list@[from - 1] == ',',
            forall|k: int| from <= k < at ==> list@[k] != ',',
            forall|a: int, b: int|
                a < from && #[trigger] is_entry(list@, a, b) ==> list@.subrange(a, b) != word@,
        decreases len - at,
    {
        if list[at] == ',' {
            if span_equals(&list, from, at, &word) {
                assert(is_entry(list@, from as int, at as int));
                return true;
            }
            assert forall|a: int, b: int|
                a < at + 1 && #[trigger] is_entry(list@, a, b) implies list@.subrange(a, b)
                != word@ by {
                if a >= from {
                    assert(a == from) by {
                        if a > from {
                            assert(list@[a - 1] == ',');
                        }
                    }
                    assert(b == at) by {
                        if b < at {
                            assert(list@[b] == ',');
                        }
                        if b > at {
                            assert(list@[at as int] != ',');
                        }
                    }
                }
            }
            from = at + 1;
        }
        at += 1;
    }
    if span_equals(&list, from, len, &word) {
        assert(is_entry(list@, from as int, len as int));
        return true;
    }
    assert forall|a: int, b: int| #[trigger] is_entry(list@, a, b) implies list@.subrange(a, b)
        != word@ by {
        if a >= from {
            assert(a == from) by {
                if a > from {
                    assert(list@[a - 1] == ',');
                }
            }
            assert(b == len) by {
                if b < len {
                    assert(list@[b] == ',');
                }
            }
        }
    }
    false
}

} // verus!
