//! The command surface's plain values: fan settings, the node selector, and
//! the verified parsers that turn command-line text into them. Reading the
//! command line itself is the caller's business; these functions decide what
//! a given string means.

use vstd::prelude::*;
use vstd::string::StrSliceExecFns;

verus! {

/// The controller board's automatic fan regulation: enabled or disabled.
#[derive(Clone, Copy, Debug, PartialEq, Eq, Structural)]
pub enum FanMode {
    Disabled,
    Enabled,
}

impl FanMode {
    /// The value written into the fan-mode control file, and the mode's
    /// display form.
    pub fn label(&self) -> (r: String)
        ensures
            *self == FanMode::Disabled ==> r@ == "disabled"@,
            *self == FanMode::Enabled ==> r@ == "enabled"@,
    {
        match self {
            FanMode::Disabled => "disabled".to_owned(),
            FanMode::Enabled => "enabled".to_owned(),
        }
    }
}

/// A manually selected fan speed step: 0 (off) through 4 (full).
#[derive(Clone, Copy, Debug, PartialEq, Eq, Structural)]
pub struct FanSpeed(pub i32);

impl FanSpeed {
    /// A fan speed the hardware accepts.
    pub open spec fn wf(self) -> bool {
        0 <= self.0 <= 4
    }
}

/// Which nodes a command addresses: every node, or one slot number.
#[derive(Clone, Copy, Debug, PartialEq, Eq, Structural)]
pub enum NodeSelector {
    All,
    Number(i32),
}

/// A decimal digit.
pub open spec fn is_ascii_digit(c: char) -> bool {
    '0' as u32 <= c as u32 && c as u32 <= '9' as u32
}

/// The numeric value of a decimal digit.
pub open spec fn digit_val(c: char) -> int {
    c as u32 - '0' as u32
}

/// Every character is a decimal digit.
pub open spec fn all_digits(s: Seq<char>) -> bool {
    forall|i: int| 0 <= i < s.len() ==> is_ascii_digit(#[trigger] s[i])
}

/// The value of a string of decimal digits, most significant first.
pub open spec fn digits_val(s: Seq<char>) -> int
    decreases s.len(),
{
    if s.len() == 0 {
        0
    } else {
        digits_val(s.drop_last()) * 10 + digit_val(s.last())
    }
}

/// Whether the string starts with an explicit sign.
pub open spec fn has_sign(s: Seq<char>) -> bool {
    s.len() > 0 && (s[0] == '+' || s[0] == '-')
}

/// The string after any sign: the part that must be all digits.
pub open spec fn digits_part(s: Seq<char>) -> Seq<char> {
    if has_sign(s) {
        s.skip(1)
    } else {
        s
    }
}

/// What a signed decimal string denotes: an optional sign, then at least
/// one digit and nothing else, with a value that fits a 32-bit signed
/// integer — exactly the strings standard integer parsing accepts.
pub open spec fn spec_parse_i32(s: Seq<char>) -> Option<int> {
    let ds = digits_part(s);
    if ds.len() == 0 || !all_digits(ds) {
        None
    } else {
        let v = if s[0] == '-' {
            -digits_val(ds)
        } else {
            digits_val(ds)
        };
        if i32::MIN <= v <= i32::MAX {
            Some(v)
        } else {
            None
        }
    }
}

/// A string of digits never denotes a negative value.
proof fn lemma_digits_val_nonneg(s: Seq<char>)
    requires
        all_digits(s),
    ensures
        digits_val(s) >= 0,
    decreases s.len(),
{
    if s.len() > 0 {
        assert(all_digits(s.drop_last()));
        lemma_digits_val_nonneg(s.drop_last());
    }
}

/// Parse a signed 32-bit integer from text: accepts exactly the strings
/// `spec_parse_i32` gives a value, and returns that value.
pub fn parse_i32_str(s: &str) -> (r: Option<i32>)
    ensures
        match r {
            Some(v) => spec_parse_i32(s@) == Some(v as int),
            None => spec_parse_i32(s@) is None,
        },
{
    let n = s.unicode_len();
    let mut idx: usize = 0;
    let mut neg = false;
    if n > 0 {
        let c0 = s.get_char(0);
        if c0 == '-' {
            neg = true;
            idx = 1;
        } else if c0 == '+' {
            idx = 1;
        }
    }
    let ghost ds = digits_part(s@);
    if idx >= n {
        // empty input, or a sign with no digits after it
        assert(ds.len() == 0);
        return None;
    }
    // Accumulate the digit string's value, saturating just above the
    // largest magnitude a 32-bit integer can carry: 2147483648 is still
    // tracked exactly (it is the magnitude of the smallest value), anything
    // beyond collapses to 2147483649.
    let mut acc: i64 = 0;
    let mut i: usize = idx;
    while i < n
        invariant
            idx <= i <= n,
            idx <= 1,
            n == s@.len(),
            ds == digits_part(s@),
            ds.len() == n - idx,
            forall|j: int| 0 <= j < ds.len() ==> ds[j] == s@[j + idx],
            forall|j: int| 0 <= j < i - idx ==> is_ascii_digit(#[trigger] ds[j]),
            0 <= acc <= 2147483649,
            digits_val(ds.take(i - idx)) <= 2147483648 ==> acc == digits_val(ds.take(i - idx)),
            digits_val(ds.take(i - idx)) > 2147483648 ==> acc == 2147483649,
        decreases n - i,
    {
        let c = s.get_char(i);
        let cu = c as u32;
        if cu < '0' as u32 || cu > '9' as u32 {
            assert(!is_ascii_digit(ds[i - idx]));
            return None;
        }
        let d = (cu - '0' as u32) as i64;
        proof {
            let prefix = ds.take(i - idx);
            let grown = ds.take(i + 1 - idx);
            assert(grown.drop_last() =~= prefix);
            assert(grown.last() == ds[i - idx]);
            assert(all_digits(prefix));
            lemma_digits_val_nonneg(prefix);
        }
        let acc2 = acc * 10 + d;
        if acc2 > 2147483648 {
            acc = 2147483649;
        } else {
            acc = acc2;
        }
        i = i + 1;
    }
    proof {
        assert(ds.take(i - idx) =~= ds);
        lemma_digits_val_nonneg(ds);
    }
    if neg {
        if acc <= 2147483648 {
            let v = -acc;
            Some(v as i32)
        } else {
            None
        }
    } else {
        if acc <= 2147483647 {
            Some(acc as i32)
        } else {
            None
        }
    }
}

/// Parse a fan speed: a decimal integer between 0 and 4 inclusive;
/// everything else — not a number, or a speed the hardware lacks — is
/// rejected with a message.
pub fn parse_fan_speed(s: &str) -> (r: Result<FanSpeed, String>)
    ensures
        match r {
            Ok(f) => spec_parse_i32(s@) == Some(f.0 as int) && f.wf(),
            Err(_) => match spec_parse_i32(s@) {
                Some(v) => !(0 <= v <= 4),
                None => true,
            },
        },
{
    match parse_i32_str(s) {
        None => Err("invalid fan speed".to_owned()),
        Some(v) => {
            if v < 0 || v > 4 {
                Err("fan speed must be between 0 and 4".to_owned())
            } else {
                Ok(FanSpeed(v))
            }
        },
    }
}

/// The word that selects every node, in any letter case.
pub open spec fn is_all_keyword(s: Seq<char>) -> bool {
    s.len() == 3 && (s[0] == 'a' || s[0] == 'A') && (s[1] == 'l' || s[1] == 'L') && (s[2] == 'l'
        || s[2] == 'L')
}

/// Parse a node selector: the word `all` in any letter case selects every
/// node; otherwise a decimal slot number; everything else is rejected with
/// a message.
pub fn parse_node_selector(s: &str) -> (r: Result<NodeSelector, String>)
    ensures
        is_all_keyword(s@) ==> r == Ok::<NodeSelector, String>(NodeSelector::All),
        !is_all_keyword(s@) ==> match r {
            Ok(sel) => sel matches NodeSelector::Number(v) && spec_parse_i32(s@) == Some(v as int),
            Err(_) => spec_parse_i32(s@) is None,
        },
{
    if s.unicode_len() == 3 {
        let c0 = s.get_char(0);
        let c1 = s.get_char(1);
        let c2 = s.get_char(2);
        if (c0 == 'a' || c0 == 'A') && (c1 == 'l' || c1 == 'L') && (c2 == 'l' || c2 == 'L') {
            return Ok(NodeSelector::All);
        }
    }
    match parse_i32_str(s) {
        Some(v) => Ok(NodeSelector::Number(v)),
        None => Err("invalid node selector".to_owned()),
    }
}

} // verus!
