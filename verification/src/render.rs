//! Rendering of plain values into path and query text: decimal numerals,
//! bool keywords, and comma-joined lists.

use vstd::prelude::*;

verus! {

use vstd::string::StringExecFns;

/// The character of one decimal digit.
pub open spec fn spec_digit(d: int) -> char
    recommends
        0 <= d < 10,
{
    if d == 0 {
        '0'
    } else if d == 1 {
        '1'
    } else if d == 2 {
        '2'
    } else if d == 3 {
        '3'
    } else if d == 4 {
        '4'
    } else if d == 5 {
        '5'
    } else if d == 6 {
        '6'
    } else if d == 7 {
        '7'
    } else if d == 8 {
        '8'
    } else {
        '9'
    }
}

/// The decimal numeral of `n`, most significant digit first, no leading
/// zeroes (a single `'0'` for zero).
pub open spec fn spec_udec(n: nat) -> Seq<char>
    decreases n,
{
    if n < 10 {
        seq![spec_digit(n as int)]
    } else {
        spec_udec(n / 10).push(spec_digit((n % 10) as int))
    }
}

/// The decimal numeral of `x`, with a leading `'-'` when negative.
pub open spec fn spec_idec(x: int) -> Seq<char> {
    if x >= 0 {
        spec_udec(x as nat)
    } else {
        seq!['-'] + spec_udec((-x) as nat)
    }
}

/// The keyword `true` or `false`.
pub open spec fn spec_bool_str(b: bool) -> Seq<char> {
    if b {
        "true"@
    } else {
        "false"@
    }
}

/// The one-character numeral of a single digit.
fn digit_str(d: u64) -> (r: &'static str)
    requires
        d < 10,
    ensures
        r@ == seq![spec_digit(d as int)],
{
    if d == 0 {
        proof {
            reveal_strlit("0");
            assert("0"@ =~= seq![spec_digit(0)]);
        }
        "0"
    } else if d == 1 {
        proof {
            reveal_strlit("1");
            assert("1"@ =~= seq![spec_digit(1)]);
        }
        "1"
    } else if d == 2 {
        proof {
            reveal_strlit("2");
            assert("2"@ =~= seq![spec_digit(2)]);
        }
        "2"
    } else if d == 3 {
        proof {
            reveal_strlit("3");
            assert("3"@ =~= seq![spec_digit(3)]);
        }
        "3"
    } else if d == 4 {
        proof {
            reveal_strlit("4");
            assert("4"@ =~= seq![spec_digit(4)]);
        }
        "4"
    } else if d == 5 {
        proof {
            reveal_strlit("5");
            assert("5"@ =~= seq![spec_digit(5)]);
        }
        "5"
    } else if d == 6 {
        proof {
            reveal_strlit("6");
            assert("6"@ =~= seq![spec_digit(6)]);
        }
        "6"
    } else if d == 7 {
        proof {
            reveal_strlit("7");
            assert("7"@ =~= seq![spec_digit(7)]);
        }
        "7"
    } else if d == 8 {
        proof {
            reveal_strlit("8");
            assert("8"@ =~= seq![spec_digit(8)]);
        }
        "8"
    } else {
        proof {
            reveal_strlit("9");
            assert("9"@ =~= seq![spec_digit(9)]);
        }
        "9"
    }
}

/// Render an unsigned number as its decimal numeral.
pub fn u64_to_dec(n: u64) -> (r: String)
    ensures
        r@ == spec_udec(n as nat),
    decreases n,
{
    if n < 10 {
        String::from_str(digit_str(n))
    } else {
        let mut s = u64_to_dec(n / 10);
        s.append(digit_str(n % 10));
        proof {
            assert(spec_udec(n as nat) =~= spec_udec((n as nat) / 10).push(
                spec_digit(((n as nat) % 10) as int),
            ));
            assert(s@ =~= spec_udec(n as nat));
        }
        s
    }
}

/// Render a machine-word count as its decimal numeral.
pub fn usize_to_dec(n: usize) -> (r: String)
    ensures
        r@ == spec_udec(n as nat),
{
    u64_to_dec(n as u64)
}

/// Render a signed number as its decimal numeral.
pub fn i64_to_dec(x: i64) -> (r: String)
    ensures
        r@ == spec_idec(x as int),
{
    if x >= 0 {
        u64_to_dec(x as u64)
    } else {
        let magnitude: u64 = ((-(x + 1)) as u64) + 1;
        let mut s = String::from_str("-");
        let digits = u64_to_dec(magnitude);
        s.append(digits.as_str());
        proof {
            reveal_strlit("-");
            assert("-"@ =~= seq!['-']);
        }
        s
    }
}

/// The keyword `true` or `false`.
pub fn bool_str(b: bool) -> (r: &'static str)
    ensures
        r@ == spec_bool_str(b),
{
    if b {
        "true"
    } else {
        "false"
    }
}

/// The items joined with a comma between neighbours.
pub open spec fn spec_join_comma(items: Seq<Seq<char>>) -> Seq<char>
    decreases items.len(),
{
    if items.len() == 0 {
        Seq::<char>::empty()
    } else if items.len() == 1 {
        items[0]
    } else {
        items[0] + ","@ + spec_join_comma(items.skip(1))
    }
}

/// Joining grows on the right: one more item appends a comma and the item.
proof fn lemma_join_comma_push(items: Seq<Seq<char>>, x: Seq<char>)
    requires
        items.len() >= 1,
    ensures
        spec_join_comma(items.push(x)) == spec_join_comma(items) + ","@ + x,
    decreases items.len(),
{
    if items.len() == 1 {
        assert(items.push(x).skip(1) =~= seq![x]);
        assert(spec_join_comma(seq![x]) == x);
        assert(spec_join_comma(items.push(x)) =~= spec_join_comma(items) + ","@ + x);
    } else {
        assert(items.push(x).skip(1) =~= items.skip(1).push(x));
        lemma_join_comma_push(items.skip(1), x);
        assert(spec_join_comma(items.push(x)) =~= spec_join_comma(items) + ","@ + x);
    }
}

/// Join the items with a comma between neighbours.
pub fn join_comma(items: &Vec<String>) -> (r: String)
    ensures
        r@ == spec_join_comma(items.deep_view()),
{
    let ghost dv = items.deep_view();
    if items.len() == 0 {
        return String::new();
    }
    let mut r = items[0].clone();
    proof {
        assert(dv.take(1) =~= seq![dv[0]]);
    }
    let mut i: usize = 1;
    while i < items.len()
        invariant
            1 <= i <= items@.len(),
            dv == items.deep_view(),
            dv.len() == items@.len(),
            r@ == spec_join_comma(dv.take(i as int)),
        decreases items@.len() - i,
    {
        r.append(",");
        r.append(items[i].as_str());
        proof {
            lemma_join_comma_push(dv.take(i as int), dv[i as int]);
            assert(dv.take(i as int).push(dv[i as int]) =~= dv.take(i + 1));
        }
        i = i + 1;
    }
    proof {
        assert(dv.take(dv.len() as int) =~= dv);
    }
    r
}

} // verus!
