//! Verified rendering of JSON fragments.
//!
//! The bridge emits small, fixed-shape JSON documents (discovery
//! configuration and login payloads). They are rendered directly as text:
//! string values are escaped for the quote, the backslash and the common
//! control characters, and everything else passes through unchanged.

use vstd::prelude::*;
use vstd::string::StrSliceExecFns;
use vstd::string::StringExecFns;
use crate::strutil::spec_views;

verus! {

/// The escaped rendering of one character inside a JSON string literal.
pub open spec fn spec_json_escape_char(c: char) -> Seq<char> {
    if c == '"' {
        "\\\""@
    } else if c == '\\' {
        "\\\\"@
    } else if c == '\n' {
        "\\n"@
    } else if c == '\r' {
        "\\r"@
    } else if c == '\t' {
        "\\t"@
    } else {
        seq![c]
    }
}

/// The escaped rendering of a whole string body.
pub open spec fn spec_json_escape(s: Seq<char>) -> Seq<char>
    decreases s.len(),
{
    if s.len() == 0 {
        Seq::<char>::empty()
    } else {
        spec_json_escape(s.drop_last()) + spec_json_escape_char(s.last())
    }
}

/// A JSON string literal: the escaped body between double quotes.
pub open spec fn spec_json_string(s: Seq<char>) -> Seq<char> {
    "\""@ + spec_json_escape(s) + "\""@
}

/// A JSON array of string literals.
pub open spec fn spec_json_string_array(items: Seq<Seq<char>>) -> Seq<char>
    decreases items.len(),
{
    if items.len() == 0 {
        "[]"@
    } else if items.len() == 1 {
        "["@ + spec_json_string(items[0]) + "]"@
    } else {
        spec_json_string_array(items.drop_last()).drop_last() + ","@ + spec_json_string(
            items.last(),
        ) + "]"@
    }
}

/// Escape a string body for use inside a JSON string literal.
pub fn json_escape(s: &str) -> (r: String)
    ensures
        r@ == spec_json_escape(s@),
{
    let n = s.unicode_len();
    let mut out = String::new();
    let mut i: usize = 0;
    while i < n
        invariant
            n == s@.len(),
            i <= n,
            out@ == spec_json_escape(s@.take(i as int)),
        decreases n - i,
    {
        let c = s.get_char(i);
        if c == '"' {
            out.append("\\\"");
        } else if c == '\\' {
            out.append("\\\\");
        } else if c == '\n' {
            out.append("\\n");
        } else if c == '\r' {
            out.append("\\r");
        } else if c == '\t' {
            out.append("\\t");
        } else {
            let piece = s.substring_char(i, i + 1);
            proof {
                assert(piece@ =~= seq![s@[i as int]]);
            }
            out.append(piece);
        }
        proof {
            assert(s@.take(i + 1).drop_last() =~= s@.take(i as int));
            assert(s@.take(i + 1).last() == s@[i as int]);
        }
        i = i + 1;
    }
    proof {
        assert(s@.take(s@.len() as int) =~= s@);
    }
    out
}

/// Render a JSON string literal for a value.
pub fn json_string(s: &str) -> (r: String)
    ensures
        r@ == spec_json_string(s@),
{
    let mut out = String::from_str("\"");
    let body = json_escape(s);
    out.append(body.as_str());
    out.append("\"");
    out
}

/// Render a JSON array of string literals.
pub fn json_string_array(items: &Vec<String>) -> (r: String)
    ensures
        r@ == spec_json_string_array(spec_views(items@)),
{
    if items.len() == 0 {
        return String::from_str("[]");
    }
    let mut out = String::from_str("[");
    let mut i: usize = 0;
    while i < items.len()
        invariant
            1 <= items@.len(),
            i <= items@.len(),
            i == 0 ==> out@ == "["@,
            i >= 1 ==> out@ + "]"@ == spec_json_string_array(spec_views(items@).take(i as int)),
        decreases items@.len() - i,
    {
        if i > 0 {
            out.append(",");
        }
        let piece = json_string(items[i].as_str());
        out.append(piece.as_str());
        proof {
            reveal_strlit("]");
            assert(spec_views(items@).take(i + 1).drop_last() =~= spec_views(items@).take(
                i as int,
            ));
            assert(spec_views(items@).take(i + 1).last() == items@[i as int]@);
            if i == 0 {
                assert(spec_json_string_array(spec_views(items@).take(1)) == "["@
                    + spec_json_string(items@[0]@) + "]"@);
                assert(out@ + "]"@ =~= "["@ + spec_json_string(items@[0]@) + "]"@);
            }
        }
        i = i + 1;
    }
    out.append("]");
    proof {
        assert(spec_views(items@).take(items@.len() as int) =~= spec_views(items@));
    }
    out
}

} // verus!
