//! Splitting a character sequence on `'.'` separators: the mathematical
//! model of the strict three-field version grammar, and the lemmas that
//! tie dot positions found by a scan to the resulting fields.

use vstd::prelude::*;

verus! {

/// How many `'.'` characters `s` holds.
pub open spec fn count_dots(s: Seq<char>) -> nat
    decreases s.len(),
{
    if s.len() == 0 {
        0
    } else {
        count_dots(s.drop_last()) + if s.last() == '.' {
            1nat
        } else {
            0nat
        }
    }
}

/// The fields of `s` split on `'.'`, in order, separators removed.
/// An empty sequence has one empty field; every `'.'` opens a new field.
pub open spec fn split_dots(s: Seq<char>) -> Seq<Seq<char>>
    decreases s.len(),
{
    if s.len() == 0 {
        seq![Seq::<char>::empty()]
    } else if s.last() == '.' {
        split_dots(s.drop_last()).push(Seq::<char>::empty())
    } else {
        let fields = split_dots(s.drop_last());
        fields.update(fields.len() - 1, fields.last().push(s.last()))
    }
}

/// Extending by one character changes the dot count exactly when the
/// character is a dot.
pub proof fn lemma_count_dots_push(s: Seq<char>, c: char)
    ensures
        count_dots(s.push(c)) == count_dots(s) + if c == '.' {
            1nat
        } else {
            0nat
        },
{
    assert(s.push(c).drop_last() =~= s);
}

/// There is always one field more than there are dots.
pub proof fn lemma_split_dots_len(s: Seq<char>)
    ensures
        split_dots(s).len() == count_dots(s) + 1,
    decreases s.len(),
{
    if s.len() > 0 {
        lemma_split_dots_len(s.drop_last());
    }
}

/// A sequence without dots is a single field: itself.
pub proof fn lemma_split_dots_no_dot(s: Seq<char>)
    requires
        forall|k: int| 0 <= k < s.len() ==> s[k] != '.',
    ensures
        split_dots(s) == seq![s],
    decreases s.len(),
{
    if s.len() == 0 {
        assert(split_dots(s) =~~= seq![s]);
    } else {
        lemma_split_dots_no_dot(s.drop_last());
        assert(split_dots(s.drop_last()).last().push(s.last()) =~= s);
        assert(split_dots(s) =~~= seq![s]);
    }
}

/// Splitting at the last dot: when `s[j]` is a dot and no dot follows it,
/// the fields of `s` are the fields before `j` plus the tail after `j`.
pub proof fn lemma_split_dots_last_dot(s: Seq<char>, j: int)
    requires
        0 <= j < s.len(),
        s[j] == '.',
        forall|k: int| j < k < s.len() ==> s[k] != '.',
    ensures
        split_dots(s) == split_dots(s.subrange(0, j)).push(s.subrange(j + 1, s.len() as int)),
    decreases s.len(),
{
    let n = s.len() as int;
    if j == n - 1 {
        assert(s.drop_last() =~= s.subrange(0, j));
        assert(s.subrange(j + 1, n) =~= Seq::<char>::empty());
    } else {
        let d = s.drop_last();
        lemma_split_dots_last_dot(d, j);
        assert(d.subrange(0, j) =~= s.subrange(0, j));
        assert(d.subrange(j + 1, n - 1) =~= s.subrange(j + 1, n - 1));
        let head = split_dots(s.subrange(0, j));
        lemma_split_dots_len(s.subrange(0, j));
        assert(split_dots(d) == head.push(s.subrange(j + 1, n - 1)));
        assert(s.subrange(j + 1, n - 1).push(s.last()) =~= s.subrange(j + 1, n));
        assert(split_dots(s) =~~= head.push(s.subrange(j + 1, n)));
    }
}

/// With exactly two dots, at `d1 < d2`, `s` splits into the three fields
/// around them.
pub proof fn lemma_split_dots_two_dots(s: Seq<char>, d1: int, d2: int)
    requires
        0 <= d1 < d2 < s.len(),
        s[d1] == '.',
        s[d2] == '.',
        forall|k: int| 0 <= k < s.len() && k != d1 && k != d2 ==> s[k] != '.',
    ensures
        split_dots(s) == seq![
            s.subrange(0, d1),
            s.subrange(d1 + 1, d2),
            s.subrange(d2 + 1, s.len() as int),
        ],
{
    let n = s.len() as int;
    lemma_split_dots_last_dot(s, d2);
    let head = s.subrange(0, d2);
    lemma_split_dots_last_dot(head, d1);
    assert(head.subrange(0, d1) =~= s.subrange(0, d1));
    assert(head.subrange(d1 + 1, d2) =~= s.subrange(d1 + 1, d2));
    lemma_split_dots_no_dot(s.subrange(0, d1));
    assert(split_dots(s) =~~= seq![
        s.subrange(0, d1),
        s.subrange(d1 + 1, d2),
        s.subrange(d2 + 1, n),
    ]);
}

} // verus!
