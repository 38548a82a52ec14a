//! Building blocks of a span's text form: decimal numbers and UTF-8 text.

use vstd::prelude::*;
use vstd::string::StringExecFns;
use vstd::utf8::decode_utf8;
use vstd::utf8::valid_utf8;
use std::str::Utf8Error;
use crate::annotations::Entries;
use crate::annotations::entries_view;

verus! {

/// `std::str::Utf8Error`, the error of bytes that are not valid UTF-8.
#[verifier::external_type_specification]
#[verifier::external_body]
pub struct ExUtf8Error(Utf8Error);

/// `std::str::from_utf8` accepts exactly the byte strings that are valid
/// UTF-8, and hands back the text that they encode.
pub assume_specification[ std::str::from_utf8 ](bytes: &[u8]) -> (r: Result<&str, Utf8Error>)
    ensures
        r is Ok <==> valid_utf8(bytes@),
        r matches Ok(s) ==> s@ == decode_utf8(bytes@),
;

/// The character of a decimal digit.
pub open spec fn digit_char(d: nat) -> char
    recommends
        d < 10,
{
    seq!['0', '1', '2', '3', '4', '5', '6', '7', '8', '9'][d as int]
}

/// The decimal numeral of `n`, without leading zeros.
pub open spec fn decimal_digits(n: nat) -> Seq<char>
    decreases n,
{
    if n < 10 {
        seq![digit_char(n)]
    } else {
        decimal_digits(n / 10).push(digit_char(n % 10))
    }
}

fn digit_str(d: u64) -> (s: &'static str)
    requires
        d < 10,
    ensures
        s@ == seq![digit_char(d as nat)],
{
    proof {
        reveal_strlit("0");
        reveal_strlit("1");
        reveal_strlit("2");
        reveal_strlit("3");
        reveal_strlit("4");
        reveal_strlit("5");
        reveal_strlit("6");
        reveal_strlit("7");
        reveal_strlit("8");
        reveal_strlit("9");
    }
    let s = if d == 0 {
        "0"
    } else if d == 1 {
        "1"
    } else if d == 2 {
        "2"
    } else if d == 3 {
        "3"
    } else if d == 4 {
        "4"
    } else if d == 5 {
        "5"
    } else if d == 6 {
        "6"
    } else if d == 7 {
        "7"
    } else if d == 8 {
        "8"
    } else {
        "9"
    };
    assert(s@ =~= seq![digit_char(d as nat)]);
    s
}

/// Writes `n` as a decimal numeral.
pub fn decimal_string(n: u64) -> (s: String)
    ensures
        s@ == decimal_digits(n as nat),
    decreases n,
{
    if n < 10 {
        String::from_str(digit_str(n))
    } else {
        let mut s = decimal_string(n / 10);
        s.append(digit_str(n % 10));
        assert(s@ =~= decimal_digits((n / 10) as nat).push(digit_char((n % 10) as nat)));
        s
    }
}

/// Every key and every value is valid UTF-8.
pub open spec fn entries_utf8(s: Entries) -> bool {
    forall|i: int| 0 <= i < s.len() ==> valid_utf8((#[trigger] s[i]).0) && valid_utf8(s[i].1)
}

/// The annotations as text: an opening bracket, then the `key=value` pairs
/// in traversal order with a comma between one pair and the next. The
/// bracket is left open: without annotations the text is the bracket
/// alone.
pub open spec fn pairs_text(s: Entries) -> Seq<char>
    decreases s.len(),
{
    if s.len() == 0 {
        "["@
    } else {
        let before = pairs_text(s.drop_last());
        let lead = if s.len() == 1 {
            before
        } else {
            before + ","@
        };
        lead + decode_utf8(s.last().0) + "="@ + decode_utf8(s.last().1)
    }
}

/// Writes annotations as text, where all of them are valid UTF-8.
pub fn pairs_string(entries: &[(Vec<u8>, Vec<u8>)]) -> (r: Option<String>)
    ensures
        r is Some <==> entries_utf8(entries_view(entries@)),
        r matches Some(s) ==> s@ == pairs_text(entries_view(entries@)),
{
    let ghost all = entries_view(entries@);
    let mut out = String::from_str("[");
    let mut i: usize = 0;
    while i < entries.len()
        invariant
            i <= entries.len(),
            all == entries_view(entries@),
            entries_utf8(all.take(i as int)),
            out@ == pairs_text(all.take(i as int)),
        decreases entries.len() - i,
    {
        let ghost done = all.take(i as int);
        let ghost next = all.take(i + 1);
        assert(next.drop_last() =~= done);
        assert(next.last() == all[i as int]);
        let key = match std::str::from_utf8(entries[i].0.as_slice()) {
            Ok(key) => key,
            Err(_) => {
                assert(!valid_utf8(all[i as int].0));
                return None;
            },
        };
        let value = match std::str::from_utf8(entries[i].1.as_slice()) {
            Ok(value) => value,
            Err(_) => {
                assert(!valid_utf8(all[i as int].1));
                return None;
            },
        };
        if i > 0 {
            out.append(",");
        }
        out.append(key);
        out.append("=");
        out.append(value);
        assert forall|j: int| 0 <= j < next.len() implies valid_utf8((#[trigger] next[j]).0)
            && valid_utf8(next[j].1) by {
            if j < i {
                assert(next[j] == done[j]);
            }
        }
        i += 1;
    }
    assert(all.take(i as int) =~= all);
    Some(out)
}

} // verus!
