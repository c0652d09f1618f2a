//! Small verified string helpers shared across the library: digit
//! characters, comma joining, and decimal rendering of counters and ids.

use vstd::prelude::*;
use vstd::string::StringExecFns;

verus! {

/// The lower-case digit character for a value below 16.
pub open spec fn digit_char(n: int) -> char {
    if n == 0 {
        '0'
    } else if n == 1 {
        '1'
    } else if n == 2 {
        '2'
    } else if n == 3 {
        '3'
    } else if n == 4 {
        '4'
    } else if n == 5 {
        '5'
    } else if n == 6 {
        '6'
    } else if n == 7 {
        '7'
    } else if n == 8 {
        '8'
    } else if n == 9 {
        '9'
    } else if n == 10 {
        'a'
    } else if n == 11 {
        'b'
    } else if n == 12 {
        'c'
    } else if n == 13 {
        'd'
    } else if n == 14 {
        'e'
    } else {
        'f'
    }
}

/// A one-character string holding the lower-case digit for `n`.
pub(crate) fn digit_str(n: u8) -> (r: &'static str)
    requires
        n < 16,
    ensures
        r@ =~= seq![digit_char(n as int)],
{
    proof {
        reveal_strlit("0");
        reveal_strlit("1");
        reveal_strlit("2");
        reveal_strlit("3");
        reveal_strlit("4");
        reveal_strlit("5");
        reveal_strlit("6");
        reveal_strlit("7");
        reveal_strlit("8");
        reveal_strlit("9");
        reveal_strlit("a");
        reveal_strlit("b");
        reveal_strlit("c");
        reveal_strlit("d");
        reveal_strlit("e");
        reveal_strlit("f");
    }
    if n == 0 {
        "0"
    } else if n == 1 {
        "1"
    } else if n == 2 {
        "2"
    } else if n == 3 {
        "3"
    } else if n == 4 {
        "4"
    } else if n == 5 {
        "5"
    } else if n == 6 {
        "6"
    } else if n == 7 {
        "7"
    } else if n == 8 {
        "8"
    } else if n == 9 {
        "9"
    } else if n == 10 {
        "a"
    } else if n == 11 {
        "b"
    } else if n == 12 {
        "c"
    } else if n == 13 {
        "d"
    } else if n == 14 {
        "e"
    } else {
        "f"
    }
}

/// The views of a sequence of strings.
pub open spec fn spec_views(parts: Seq<String>) -> Seq<Seq<char>> {
    parts.map_values(|s: String| s@)
}

/// The parts joined with a single comma between consecutive parts.
pub open spec fn spec_join_comma(parts: Seq<Seq<char>>) -> Seq<char>
    decreases parts.len(),
{
    if parts.len() == 0 {
        Seq::<char>::empty()
    } else if parts.len() == 1 {
        parts[0]
    } else {
        spec_join_comma(parts.drop_last()) + seq![','] + parts.last()
    }
}

/// Join string parts with commas.
pub fn join_comma(parts: &Vec<String>) -> (r: String)
    ensures
        r@ == spec_join_comma(spec_views(parts@)),
{
    let mut out = String::new();
    let mut i: usize = 0;
    while i < parts.len()
        invariant
            i <= parts@.len(),
            out@ == spec_join_comma(spec_views(parts@).take(i as int)),
        decreases parts@.len() - i,
    {
        if i > 0 {
            proof {
                reveal_strlit(",");
            }
            out.append(",");
        }
        out.append(parts[i].as_str());
        proof {
            assert(spec_views(parts@).take(i + 1).drop_last() =~= spec_views(parts@).take(
                i as int,
            ));
            assert(spec_views(parts@).take(i + 1).last() == parts@[i as int]@);
        }
        i = i + 1;
    }
    proof {
        assert(spec_views(parts@).take(parts@.len() as int) =~= spec_views(parts@));
    }
    out
}

/// The decimal rendering of a number: most significant digit first, no
/// leading zeros (a single `'0'` for zero).
pub open spec fn spec_dec_digits(n: nat) -> Seq<char>
    decreases n,
{
    if n < 10 {
        seq![digit_char(n as int)]
    } else {
        spec_dec_digits(n / 10) + seq![digit_char((n % 10) as int)]
    }
}

/// Render a number in decimal.
pub fn u64_to_dec_string(n: u64) -> (r: String)
    ensures
        r@ == spec_dec_digits(n as nat),
    decreases n,
{
    if n < 10 {
        String::from_str(digit_str(n as u8))
    } else {
        let mut r = u64_to_dec_string(n / 10);
        r.append(digit_str((n % 10) as u8));
        r
    }
}

} // verus!
