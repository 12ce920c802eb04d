//! Document handles: the text `doc-<n>` for a session number `n`.

use vstd::prelude::*;
use vstd::string::*;
use crate::decimal::{
    all_digits, canonical_digits, decimal, digit_value, digits_value, lemma_canonical_is_decimal,
    lemma_decimal_canonical, lemma_value_grows, push_decimal,
};

verus! {

/// The handle text of session number `n`.
pub open spec fn id_text(n: nat) -> Seq<char> {
    seq!['d', 'o', 'c', '-'] + decimal(n)
}

/// The session number that a handle text names, if it is the handle of one.
pub open spec fn id_number(s: Seq<char>) -> Option<u64> {
    if exists|n: u64| id_text(n as nat) == s {
        Some(choose|n: u64| id_text(n as nat) == s)
    } else {
        None
    }
}

/// What every handle text looks like: the prefix `doc-`, then the canonical digits of its number.
pub proof fn lemma_id_text_shape(n: nat)
    ensures
        id_text(n).len() >= 5,
        id_text(n)[0] == 'd',
        id_text(n)[1] == 'o',
        id_text(n)[2] == 'c',
        id_text(n)[3] == '-',
        id_text(n).skip(4) == decimal(n),
        canonical_digits(decimal(n)),
        digits_value(decimal(n)) == n,
{
    lemma_decimal_canonical(n);
    assert(id_text(n).skip(4) =~= decimal(n));
}

/// Distinct session numbers have distinct handles.
pub proof fn lemma_id_text_injective(a: nat, b: nat)
    ensures
        id_text(a) == id_text(b) <==> a == b,
{
    if id_text(a) == id_text(b) {
        lemma_id_text_shape(a);
        lemma_id_text_shape(b);
    }
}

/// A handle names exactly the number it was made from.
pub proof fn lemma_id_number_of_text(n: u64)
    ensures
        id_number(id_text(n as nat)) == Some(n),
{
    let s = id_text(n as nat);
    assert(id_text(n as nat) == s);
    let m = choose|m: u64| id_text(m as nat) == s;
    lemma_id_text_injective(m as nat, n as nat);
}

fn char_digit(c: char) -> (r: Option<u64>)
    ensures
        r matches Some(d) ==> d < 10 && digit_value(c) == Some(d as nat),
        r is None ==> digit_value(c) is None,
{
    if c == '0' { Some(0) }
    else if c == '1' { Some(1) }
    else if c == '2' { Some(2) }
    else if c == '3' { Some(3) }
    else if c == '4' { Some(4) }
    else if c == '5' { Some(5) }
    else if c == '6' { Some(6) }
    else if c == '7' { Some(7) }
    else if c == '8' { Some(8) }
    else if c == '9' { Some(9) }
    else { None }
}

/// The handle of session number `n`.
pub fn format_doc_id(n: u64) -> (s: String)
    ensures
        s@ == id_text(n as nat),
{
    proof { reveal_strlit("doc-"); }
    let mut s = String::from_str("doc-");
    push_decimal(&mut s, n);
    assert(seq!['d', 'o', 'c', '-'] =~= "doc-"@);
    s
}

/// The session number that a handle names; `None` for a text that is the handle of no number.
pub fn parse_doc_id(s: &str) -> (r: Option<u64>)
    ensures
        r == id_number(s@),
        r matches Some(n) ==> id_text(n as nat) == s@,
        r is None ==> forall|n: u64| id_text(n as nat) != s@,
{
    let len = s.unicode_len();
    if len < 5 || s.get_char(0) != 'd' || s.get_char(1) != 'o' || s.get_char(2) != 'c'
        || s.get_char(3) != '-' {
        assert forall|n: u64| id_text(n as nat) != s@ by {
            lemma_id_text_shape(n as nat);
        }
        return None;
    }
    if s.get_char(4) == '0' && len > 5 {
        assert forall|n: u64| id_text(n as nat) != s@ by {
            lemma_id_text_shape(n as nat);
            if id_text(n as nat) == s@ {
                assert(decimal(n as nat)[0] == s@[4]);
            }
        }
        return None;
    }
    let ghost ds = s@.skip(4);
    let mut acc: u64 = 0;
    let mut i: usize = 4;
    while i < len
        invariant
            4 <= i <= len,
            len == s@.len(),
            ds == s@.skip(4),
            s@[0] == 'd' && s@[1] == 'o' && s@[2] == 'c' && s@[3] == '-',
            ds[0] == '0' ==> len == 5,
            all_digits(ds.take(i - 4)),
            acc == digits_value(ds.take(i - 4)),
        decreases len - i,
    {
        let c = s.get_char(i);
        assert(c == ds[i - 4]);
        let d = char_digit(c);
        if d.is_none() {
            assert forall|n: u64| id_text(n as nat) != s@ by {
                lemma_id_text_shape(n as nat);
                if id_text(n as nat) == s@ {
                    assert(digit_value(ds[i - 4]) is Some);
                }
            }
            return None;
        }
        let dv = d.unwrap();
        let ghost prefix = ds.take(i - 4 + 1);
        assert(prefix.drop_last() =~= ds.take(i - 4));
        assert(prefix.last() == c);
        assert forall|k: int| 0 <= k < prefix.len() implies (#[trigger] digit_value(prefix[k])) is Some by {
            if k < prefix.len() - 1 {
                assert(prefix[k] == ds.take(i - 4)[k]);
            }
        }
        let next = acc.checked_mul(10);
        let next = match next {
            Some(m) => m.checked_add(dv),
            None => None,
        };
        match next {
            Some(v) => {
                acc = v;
                i = i + 1;
            },
            None => {
                assert forall|n: u64| id_text(n as nat) != s@ by {
                    lemma_id_text_shape(n as nat);
                    if id_text(n as nat) == s@ {
                        lemma_value_grows(ds, i - 4 + 1);
                    }
                }
                return None;
            },
        }
    }
    proof {
        assert(ds.take(i - 4) =~= ds);
        assert(canonical_digits(ds));
        lemma_canonical_is_decimal(ds);
        assert(id_text(acc as nat) =~= s@);
        lemma_id_number_of_text(acc);
    }
    Some(acc)
}

} // verus!
