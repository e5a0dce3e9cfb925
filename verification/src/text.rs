//! Small helpers for building text.

use vstd::prelude::*;
use vstd::seq_lib::{to_multiset_insert, to_multiset_remove};
use vstd::std_specs::iter::IteratorSpec;

verus! {

/// The character that writes the decimal digit `d`.
pub open spec fn digit_char(d: int) -> char
    recommends
        0 <= d < 10,
{
    if d == 0 {
        '0'
    } else if d == 1 {
        '1'
    } else if d == 2 {
        '2'
    } else if d == 3 {
        '3'
    } else if d == 4 {
        '4'
    } else if d == 5 {
        '5'
    } else if d == 6 {
        '6'
    } else if d == 7 {
        '7'
    } else if d == 8 {
        '8'
    } else {
        '9'
    }
}

/// The decimal notation of `n`, without sign or leading zeros.
pub open spec fn decimal(n: nat) -> Seq<char>
    decreases n,
{
    if n < 10 {
        seq![digit_char(n as int)]
    } else {
        decimal(n / 10).push(digit_char((n % 10) as int))
    }
}

/// The one-character text of a decimal digit.
fn digit_str(d: u64) -> (s: &'static str)
    requires
        d < 10,
    ensures
        s@ == seq![digit_char(d as int)],
{
    if d == 0 {
        proof { reveal_strlit("0"); }
        assert("0"@ =~= seq!['0']);
        "0"
    } else if d == 1 {
        proof { reveal_strlit("1"); }
        assert("1"@ =~= seq!['1']);
        "1"
    } else if d == 2 {
        proof { reveal_strlit("2"); }
        assert("2"@ =~= seq!['2']);
        "2"
    } else if d == 3 {
        proof { reveal_strlit("3"); }
        assert("3"@ =~= seq!['3']);
        "3"
    } else if d == 4 {
        proof { reveal_strlit("4"); }
        assert("4"@ =~= seq!['4']);
        "4"
    } else if d == 5 {
        proof { reveal_strlit("5"); }
        assert("5"@ =~= seq!['5']);
        "5"
    } else if d == 6 {
        proof { reveal_strlit("6"); }
        assert("6"@ =~= seq!['6']);
        "6"
    } else if d == 7 {
        proof { reveal_strlit("7"); }
        assert("7"@ =~= seq!['7']);
        "7"
    } else if d == 8 {
        proof { reveal_strlit("8"); }
        assert("8"@ =~= seq!['8']);
        "8"
    } else {
        proof { reveal_strlit("9"); }
        assert("9"@ =~= seq!['9']);
        "9"
    }
}

/// Writes `n` in decimal.
pub fn decimal_string(n: u64) -> (s: String)
    ensures
        s@ == decimal(n as nat),
    decreases n,
{
    if n < 10 {
        digit_str(n).to_string()
    } else {
        let mut s = decimal_string(n / 10);
        s.append(digit_str(n % 10));
        assert(s@ =~= decimal((n / 10) as nat).push(digit_char((n % 10) as int)));
        s
    }
}

/// Joins two texts.
pub fn concat2(a: &str, b: &str) -> (s: String)
    ensures
        s@ == a@ + b@,
{
    let mut s = a.to_string();
    s.append(b);
    s
}

/// Joins three texts.
pub fn concat3(a: &str, b: &str, c: &str) -> (s: String)
    ensures
        s@ == a@ + b@ + c@,
{
    let mut s = a.to_string();
    s.append(b);
    s.append(c);
    s
}

/// Whether the text `a` comes before the text `b`: the order of a
/// dictionary, over the code points of the characters. A text comes after
/// each of its proper beginnings.
pub open spec fn precedes(a: Seq<char>, b: Seq<char>) -> bool
    decreases a.len(),
{
    if b.len() == 0 {
        false
    } else if a.len() == 0 {
        true
    } else if a[0] == b[0] {
        precedes(a.drop_first(), b.drop_first())
    } else {
        (a[0] as int) < (b[0] as int)
    }
}

/// Whether the texts stand in ascending order. Equal texts may follow each
/// other.
pub open spec fn ascending(texts: Seq<String>) -> bool {
    forall|i: int, j: int|
        0 <= i < j < texts.len() ==> !precedes(#[trigger] texts[j]@, #[trigger] texts[i]@)
}

/// No text comes before itself.
pub proof fn lemma_precedes_irreflexive(a: Seq<char>)
    ensures
        !precedes(a, a),
    decreases a.len(),
{
    if a.len() > 0 {
        lemma_precedes_irreflexive(a.drop_first());
    }
}

/// Of two different texts, one comes before the other.
pub proof fn lemma_precedes_total(a: Seq<char>, b: Seq<char>)
    ensures
        a == b || precedes(a, b) || precedes(b, a),
    decreases a.len(),
{
    if a.len() > 0 && b.len() > 0 {
        if a[0] == b[0] {
            lemma_precedes_total(a.drop_first(), b.drop_first());
            if a.drop_first() == b.drop_first() {
                assert(a =~= seq![a[0]] + a.drop_first());
                assert(b =~= seq![b[0]] + b.drop_first());
            }
        }
    } else if a.len() == 0 && b.len() == 0 {
        assert(a =~= b);
    }
}

/// What comes before a text comes before all that the text comes before.
pub proof fn lemma_precedes_transitive(a: Seq<char>, b: Seq<char>, c: Seq<char>)
    requires
        precedes(a, b),
        precedes(b, c),
    ensures
        precedes(a, c),
    decreases a.len(),
{
    if a.len() > 0 && a[0] == b[0] && b[0] == c[0] {
        lemma_precedes_transitive(a.drop_first(), b.drop_first(), c.drop_first());
    }
}

/// Whether the text `a` comes before the text `b`.
pub fn comes_before(a: &str, b: &str) -> (before: bool)
    ensures
        before == precedes(a@, b@),
{
    let mut left = a.chars();
    let mut right = b.chars();
    let ghost mut i: int = 0;
    loop
        invariant
            0 <= i <= a@.len(),
            i <= b@.len(),
            left.remaining() == a@.skip(i),
            right.remaining() == b@.skip(i),
            left.obeys_prophetic_iter_laws(),
            right.obeys_prophetic_iter_laws(),
            precedes(a@, b@) == precedes(a@.skip(i), b@.skip(i)),
        decreases a@.len() - i,
    {
        let ghost rest_a = a@.skip(i);
        let ghost rest_b = b@.skip(i);
        let y = right.next();
        let x = left.next();
        match y {
            None => {
                return false;
            },
            Some(d) => match x {
                None => {
                    return true;
                },
                Some(c) => {
                    if c != d {
                        return c < d;
                    }
                    proof {
                        assert(rest_a.drop_first() =~= a@.skip(i + 1));
                        assert(rest_b.drop_first() =~= b@.skip(i + 1));
                        i = i + 1;
                    }
                },
            },
        }
    }
}

/// Puts the texts in ascending order.
pub fn sort_texts(texts: &mut Vec<String>)
    ensures
        ascending(final(texts)@),
        final(texts)@.to_multiset() == old(texts)@.to_multiset(),
{
    let mut done: usize = 0;
    while done < texts.len()
        invariant
            done <= texts@.len(),
            ascending(texts@.take(done as int)),
            texts@.to_multiset() == old(texts)@.to_multiset(),
        decreases texts@.len() - done,
    {
        let ghost before = texts@;
        let moved = texts.remove(done);
        proof {
            to_multiset_remove(before, done as int);
        }
        let mut place: usize = 0;
        while place < done && !comes_before(moved.as_str(), texts[place].as_str())
            invariant
                place <= done < texts@.len() + 1,
                texts@ == before.remove(done as int),
                forall|k: int| 0 <= k < place ==> !precedes(moved@, #[trigger] texts@[k]@),
            decreases done - place,
        {
            place += 1;
        }
        let ghost without = texts@;
        texts.insert(place, moved);
        proof {
            to_multiset_insert(without, place as int, moved);
            before.to_multiset_ensures();
            assert(before.contains(before[done as int]));
            assert(texts@.to_multiset() =~= before.to_multiset());
            let sorted = texts@.take(done + 1);
            assert forall|i: int, j: int| 0 <= i < j < sorted.len() implies !precedes(
                #[trigger] sorted[j]@,
                #[trigger] sorted[i]@,
            ) by {
                let old_head = before.take(done as int);
                if j == place {
                    assert(sorted[i] == old_head[i]);
                } else if i == place {
                    assert(sorted[j] == old_head[j - 1]);
                    lemma_precedes_irreflexive(moved@);
                    assert(precedes(moved@, old_head[place as int]@));
                    if j - 1 > place {
                        assert(!precedes(old_head[j - 1]@, old_head[place as int]@));
                        lemma_precedes_total(moved@, old_head[j - 1]@);
                        if precedes(old_head[j - 1]@, moved@) {
                            lemma_precedes_transitive(
                                old_head[j - 1]@,
                                moved@,
                                old_head[place as int]@,
                            );
                        }
                    } else {
                        lemma_precedes_total(moved@, old_head[j - 1]@);
                        if precedes(old_head[j - 1]@, moved@) {
                            lemma_precedes_transitive(moved@, old_head[j - 1]@, moved@);
                        }
                    }
                } else {
                    let i0 = if i < place { i } else { i - 1 };
                    let j0 = if j < place { j } else { j - 1 };
                    assert(sorted[i] == old_head[i0]);
                    assert(sorted[j] == old_head[j0]);
                }
            }
        }
        done += 1;
    }
    proof {
        assert(texts@.take(done as int) =~= texts@);
    }
}

} // verus!
