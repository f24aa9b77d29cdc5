//! Small text helpers: decimal rendering of exit codes and string
//! comparison, all verified.

use vstd::prelude::*;
use vstd::string::StrSliceExecFns;
use vstd::string::StringExecFns;

verus! {

/// The decimal digit character for `d`.
pub open spec fn digit_char(d: int) -> char {
    "0123456789"@[d]
}

/// The decimal digits of `n`, most significant first.
pub open spec fn dec_digits(n: nat) -> Seq<char>
    decreases n,
{
    if n < 10 {
        seq![digit_char(n as int)]
    } else {
        dec_digits(n / 10) + seq![digit_char((n % 10) as int)]
    }
}

/// Renders `n` in decimal.
pub fn u32_to_dec(n: u32) -> (r: String)
    ensures
        r@ == dec_digits(n as nat),
    decreases n,
{
    let digits = "0123456789";
    proof {
        reveal_strlit("0123456789");
    }
    if n < 10 {
        let piece = digits.substring_char(n as usize, n as usize + 1);
        proof {
            assert(piece@ =~= seq![digit_char(n as int)]);
        }
        String::from_str(piece)
    } else {
        let high = u32_to_dec(n / 10);
        let low = (n % 10) as usize;
        let piece = digits.substring_char(low, low + 1);
        proof {
            assert(piece@ =~= seq![digit_char((n % 10) as int)]);
        }
        high.concat(piece)
    }
}

/// The text that stands for a process exit code: its decimal value,
/// or `signal` where the process was ended by a signal and left none.
pub open spec fn exit_text(code: Option<i32>) -> Seq<char> {
    match code {
        None => "signal"@,
        Some(c) => if c >= 0 {
            dec_digits(c as nat)
        } else {
            "-"@ + dec_digits((-(c as int)) as nat)
        },
    }
}

/// Renders an exit code as `exit_text` describes.
pub fn exit_code_text(code: &Option<i32>) -> (r: String)
    ensures
        r@ == exit_text(*code),
{
    match code {
        None => String::from_str("signal"),
        Some(c) => {
            if *c >= 0 {
                u32_to_dec(*c as u32)
            } else {
                let magnitude = (-(*c as i64)) as u32;
                String::from_str("-").concat(u32_to_dec(magnitude).as_str())
            }
        },
    }
}

/// Whether two string slices hold the same characters.
pub fn str_eq(a: &str, b: &str) -> (r: bool)
    ensures
        r == (a@ == b@),
{
    let a_len = a.unicode_len();
    let b_len = b.unicode_len();
    if a_len != b_len {
        return false;
    }
    let mut i: usize = 0;
    while i < a_len
        invariant
            a_len == a@.len(),
            a_len == b@.len(),
            i <= a_len,
            forall|k: int| 0 <= k < i ==> a@[k] == b@[k],
        decreases a_len - i,
    {
        if a.get_char(i) != b.get_char(i) {
            return false;
        }
        i = i + 1;
    }
    proof {
        assert(a@ =~= b@);
    }
    true
}

} // verus!
