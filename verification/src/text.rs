//! Decimal numerals and small helpers on strings.

use vstd::prelude::*;
use crate::string_map::string_views;

verus! {

/// The decimal digit that stands for `d`, for `d` from 0 to 9.
pub open spec fn decimal_digit(d: int) -> char {
    if d == 0 {
        '0'
    } else if d == 1 {
        '1'
    } else if d == 2 {
        '2'
    } else if d == 3 {
        '3'
    } else if d == 4 {
        '4'
    } else if d == 5 {
        '5'
    } else if d == 6 {
        '6'
    } else if d == 7 {
        '7'
    } else if d == 8 {
        '8'
    } else {
        '9'
    }
}

/// The decimal numeral of `n`, without leading zeros.
pub open spec fn decimal(n: nat) -> Seq<char>
    decreases n,
{
    if n < 10 {
        seq![decimal_digit(n as int)]
    } else {
        decimal(n / 10).push(decimal_digit((n % 10) as int))
    }
}

/// The one-character text of a digit.
fn digit_text(d: u64) -> (text: &'static str)
    requires
        d < 10,
    ensures
        text@ == seq![decimal_digit(d as int)],
{
    proof {
        reveal_strlit("0");
        reveal_strlit("1");
        reveal_strlit("2");
        reveal_strlit("3");
        reveal_strlit("4");
        reveal_strlit("5");
        reveal_strlit("6");
        reveal_strlit("7");
        reveal_strlit("8");
        reveal_strlit("9");
    }
    if d == 0 {
        "0"
    } else if d == 1 {
        "1"
    } else if d == 2 {
        "2"
    } else if d == 3 {
        "3"
    } else if d == 4 {
        "4"
    } else if d == 5 {
        "5"
    } else if d == 6 {
        "6"
    } else if d == 7 {
        "7"
    } else if d == 8 {
        "8"
    } else {
        "9"
    }
}

/// The decimal numeral of `n` as a string.
pub fn decimal_string(n: u64) -> (text: String)
    ensures
        text@ == decimal(n as nat),
    decreases n,
{
    if n < 10 {
        String::from_str(digit_text(n))
    } else {
        decimal_string(n / 10).concat(digit_text(n % 10))
    }
}

/// The decimal numeral of `i`, with a minus sign if `i` is negative.
pub open spec fn signed_decimal(i: int) -> Seq<char> {
    if i < 0 {
        "-"@ + decimal((-i) as nat)
    } else {
        decimal(i as nat)
    }
}

/// The decimal numeral of `i` as a string.
pub fn signed_decimal_string(i: i64) -> (text: String)
    ensures
        text@ == signed_decimal(i as int),
{
    if i < 0 {
        let magnitude: u64 = (-(i as i128)) as u64;
        String::from_str("-").concat(decimal_string(magnitude).as_str())
    } else {
        decimal_string(i as u64)
    }
}

/// A copy of `texts`.
pub fn copy_strings(texts: &Vec<String>) -> (copy: Vec<String>)
    ensures
        string_views(copy@) == string_views(texts@),
        copy@.len() == texts@.len(),
{
    let mut copy: Vec<String> = Vec::new();
    let mut i: usize = 0;
    while i < texts.len()
        invariant
            i <= texts@.len(),
            copy@.len() == i,
            forall|j: int| 0 <= j < i ==> copy@[j]@ == texts@[j]@,
        decreases texts@.len() - i,
    {
        copy.push(texts[i].clone());
        i += 1;
    }
    copy
}

/// Whether one of `texts` reads `needle`.
pub fn contains_string(texts: &Vec<String>, needle: &String) -> (found: bool)
    ensures
        found == string_views(texts@).contains(needle@),
{
    let mut i: usize = 0;
    while i < texts.len()
        invariant
            i <= texts@.len(),
            forall|j: int| 0 <= j < i ==> texts@[j]@ != needle@,
        decreases texts@.len() - i,
    {
        if texts[i] == *needle {
            assert(string_views(texts@)[i as int] == needle@);
            return true;
        }
        i += 1;
    }
    false
}

/// The test that a text is not `needle`.
pub open spec fn differs_from(needle: Seq<char>) -> spec_fn(Seq<char>) -> bool {
    |text: Seq<char>| text != needle
}

/// Filtering one element more either appends that element or changes
/// nothing.
pub proof fn lemma_filter_next<A>(s: Seq<A>, keep: spec_fn(A) -> bool, i: int)
    requires
        0 <= i < s.len(),
    ensures
        s.take(i + 1).filter(keep) == if keep(s[i]) {
            s.take(i).filter(keep).push(s[i])
        } else {
            s.take(i).filter(keep)
        },
{
    reveal(Seq::filter);
    assert(s.take(i + 1).drop_last() =~= s.take(i));
}

/// Filtering keeps only elements that were there, and keeps them distinct
/// if they were.
pub proof fn lemma_filter_keeps_distinct<A>(s: Seq<A>, keep: spec_fn(A) -> bool)
    ensures
        forall|x: A| #[trigger] s.filter(keep).contains(x) ==> s.contains(x),
        s.no_duplicates() ==> s.filter(keep).no_duplicates(),
    decreases s.len(),
{
    reveal(Seq::filter);
    if s.len() > 0 {
        let front = s.drop_last();
        let kept = front.filter(keep);
        lemma_filter_keeps_distinct(front, keep);
        assert forall|x: A| #[trigger] s.filter(keep).contains(x) implies s.contains(x) by {
            let i = choose|i: int| 0 <= i < s.filter(keep).len() && s.filter(keep)[i] == x;
            if i < kept.len() {
                assert(kept[i] == x);
                assert(kept.contains(x));
                let j = choose|j: int| 0 <= j < front.len() && front[j] == x;
                assert(s[j] == x);
            } else {
                assert(s[s.len() - 1] == x);
            }
        }
        if s.no_duplicates() {
            if keep(s.last()) {
                assert forall|i: int| 0 <= i < kept.len() implies kept[i] != s.last() by {
                    assert(kept.contains(kept[i]));
                    let j = choose|j: int| 0 <= j < front.len() && front[j] == kept[i];
                    assert(s[j] == kept[i]);
                }
            }
        }
    }
}

/// Removes every text that reads `needle`; the others keep their order.
pub fn remove_string(texts: &mut Vec<String>, needle: &String)
    ensures
        string_views(final(texts)@) == string_views(old(texts)@).filter(differs_from(needle@)),
{
    let ghost all = string_views(texts@);
    let mut kept: Vec<String> = Vec::new();
    let mut i: usize = 0;
    while i < texts.len()
        invariant
            i <= texts@.len(),
            all == string_views(texts@),
            string_views(kept@) == all.take(i as int).filter(differs_from(needle@)),
        decreases texts@.len() - i,
    {
        proof {
            lemma_filter_next(all, differs_from(needle@), i as int);
        }
        if texts[i] != *needle {
            kept.push(texts[i].clone());
        }
        i += 1;
    }
    assert(all.take(i as int) =~= all);
    *texts = kept;
}

} // verus!
