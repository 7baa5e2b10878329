//! Text the core composes itself: decimal index labels for task rows and
//! the interleaved key/description spans of the controls strip.

use vstd::prelude::*;
use vstd::string::StringExecFns;

verus! {

/// The character of a single decimal digit.
pub open spec fn spec_digit(d: nat) -> char {
    if d == 0 {
        '0'
    } else if d == 1 {
        '1'
    } else if d == 2 {
        '2'
    } else if d == 3 {
        '3'
    } else if d == 4 {
        '4'
    } else if d == 5 {
        '5'
    } else if d == 6 {
        '6'
    } else if d == 7 {
        '7'
    } else if d == 8 {
        '8'
    } else {
        '9'
    }
}

/// The decimal digits of `n`, most significant first, without leading
/// zeros (a single `'0'` for zero itself).
pub open spec fn spec_decimal(n: nat) -> Seq<char>
    decreases n,
{
    if n < 10 {
        seq![spec_digit(n)]
    } else {
        spec_decimal(n / 10).push(spec_digit(n % 10))
    }
}

/// The one-character string of a single decimal digit.
fn digit_str(d: usize) -> (r: &'static str)
    requires
        d < 10,
    ensures
        r@ == seq![spec_digit(d as nat)],
{
    proof {
        reveal_strlit("0");
        reveal_strlit("1");
        reveal_strlit("2");
        reveal_strlit("3");
        reveal_strlit("4");
        reveal_strlit("5");
        reveal_strlit("6");
        reveal_strlit("7");
        reveal_strlit("8");
        reveal_strlit("9");
    }
    let r: &'static str = match d {
        0 => "0",
        1 => "1",
        2 => "2",
        3 => "3",
        4 => "4",
        5 => "5",
        6 => "6",
        7 => "7",
        8 => "8",
        _ => "9",
    };
    proof {
        assert(r@ =~= seq![spec_digit(d as nat)]);
    }
    r
}

/// Renders `n` in decimal.
pub fn decimal_string(n: usize) -> (r: String)
    ensures
        r@ == spec_decimal(n as nat),
    decreases n,
{
    if n < 10 {
        digit_str(n).to_owned()
    } else {
        let mut s = decimal_string(n / 10);
        s.append(digit_str(n % 10));
        proof {
            assert(s@ =~= spec_decimal(n as nat));
        }
        s
    }
}

/// One labeled span of the controls strip: the key, a dash, and what it
/// does, padded with a space on both sides.
pub open spec fn spec_key_span(key: Seq<char>, description: Seq<char>) -> Seq<char> {
    " "@ + key + " - "@ + description + " "@
}

/// Builds one labeled controls-strip span from a key and its description.
pub fn key_span(key: &str, description: &str) -> (r: String)
    ensures
        r@ == spec_key_span(key@, description@),
{
    let mut s = " ".to_owned();
    s.append(key);
    s.append(" - ");
    s.append(description);
    s.append(" ");
    proof {
        assert(s@ =~= spec_key_span(key@, description@));
    }
    s
}

/// Interleaves the labeled spans of the given key/description pairs with a
/// `"|"` separator span after each: the sequence the controls strip shows.
pub fn key_spans(pairs: &Vec<(String, String)>) -> (r: Vec<String>)
    ensures
        r@.len() == 2 * pairs@.len(),
        forall|i: int|
            0 <= i < pairs@.len() ==> #[trigger] r@[2 * i]@ == spec_key_span(
                pairs@[i].0@,
                pairs@[i].1@,
            ),
        forall|i: int| 0 <= i < pairs@.len() ==> #[trigger] r@[2 * i + 1]@ == "|"@,
{
    let mut r: Vec<String> = Vec::new();
    let mut k: usize = 0;
    while k < pairs.len()
        invariant
            k <= pairs@.len(),
            r@.len() == 2 * k,
            forall|i: int|
                0 <= i < k ==> #[trigger] r@[2 * i]@ == spec_key_span(pairs@[i].0@, pairs@[i].1@),
            forall|i: int| 0 <= i < k ==> #[trigger] r@[2 * i + 1]@ == "|"@,
        decreases pairs@.len() - k,
    {
        let span = key_span(pairs[k].0.as_str(), pairs[k].1.as_str());
        r.push(span);
        r.push("|".to_owned());
        k = k + 1;
    }
    r
}

} // verus!
