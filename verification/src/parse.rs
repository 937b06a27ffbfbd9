//! Parsing of textual property lines of the form `KEY = VALUE` into
//! property commands: the key names the kind, the value is read per that
//! kind's payload, and surrounding whitespace is ignored. Only the tunable
//! kinds have textual forms; an unknown key or an unreadable value parses
//! to nothing.

use vstd::prelude::*;
use vstd::string::StrSliceExecFns;
use crate::codec::{DtvProperty, DtvPropertyRequest};
use crate::enums::{
    fe_code_rate, fe_delivery_system, fe_guard_interval, fe_hierarchy, fe_interleaving, fe_lna,
    fe_modulation, fe_pilot, fe_rolloff, fe_sec_tone_mode, fe_sec_voltage,
    fe_spectral_inversion, fe_transmit_mode,
};

verus! {

/// Pointwise equality of two character sequences.
pub open spec fn seq_eq(a: Seq<char>, b: Seq<char>) -> bool {
    a == b
}

/// The ASCII-lowercase codepoint of a character: letters fold, everything
/// else is itself.
pub open spec fn lower_cp(c: char) -> int {
    if 65 <= c as int <= 90 {
        c as int + 32
    } else {
        c as int
    }
}

/// Equality of two character sequences ignoring ASCII case.
pub open spec fn eq_ic(a: Seq<char>, b: Seq<char>) -> bool {
    a.len() == b.len() && forall|i: int| 0 <= i < a.len() ==> lower_cp(a[i]) == lower_cp(b[i])
}

/// A whitespace character of a property line: space, tab, or a line end.
pub open spec fn is_ws(c: char) -> bool {
    c == ' ' || c == '\t' || c == '\n' || c == '\r'
}

/// A decimal digit.
pub open spec fn is_digit(c: char) -> bool {
    48 <= c as int <= 57
}

/// Every character of the sequence is a decimal digit.
pub open spec fn all_digits(s: Seq<char>) -> bool {
    forall|i: int| 0 <= i < s.len() ==> is_digit(#[trigger] s[i])
}

/// The value of a decimal digit string.
pub open spec fn digits_val(s: Seq<char>) -> int
    decreases s.len(),
{
    if s.len() == 0 {
        0
    } else {
        digits_val(s.drop_last()) * 10 + (s.last() as int - 48)
    }
}

/// The index of the first non-whitespace character at or after `i`.
pub open spec fn skip_ws_front(s: Seq<char>, i: int) -> int
    decreases s.len() - i,
{
    if i < 0 || i >= s.len() {
        i
    } else if is_ws(s[i]) {
        skip_ws_front(s, i + 1)
    } else {
        i
    }
}

/// The index one past the last non-whitespace character before `j`.
pub open spec fn skip_ws_back(s: Seq<char>, j: int) -> int
    decreases j,
{
    if j <= 0 {
        0
    } else if is_ws(s[j - 1]) {
        skip_ws_back(s, j - 1)
    } else {
        j
    }
}

/// The sequence with leading and trailing whitespace removed.
pub open spec fn trim_spec(s: Seq<char>) -> Seq<char> {
    let a = skip_ws_front(s, 0);
    let b = skip_ws_back(s, s.len() as int);
    if a <= b {
        s.subrange(a, b)
    } else {
        Seq::empty()
    }
}

/// The index of the first `=` at or after `i`, if any.
pub open spec fn find_eq(s: Seq<char>, i: int) -> Option<int>
    decreases s.len() - i,
{
    if i < 0 || i >= s.len() {
        None
    } else if s[i] == '=' {
        Some(i)
    } else {
        find_eq(s, i + 1)
    }
}

/// A string of decimal digits as an unsigned 32-bit value: an optional
/// leading plus sign, then digits; nothing on an empty or malformed body
/// or a value over the 32-bit ceiling.
pub open spec fn parse_u32_spec(s: Seq<char>) -> Option<u32> {
    let t = if s.len() > 0 && s[0] == '+' {
        s.drop_first()
    } else {
        s
    };
    if t.len() == 0 || !all_digits(t) {
        None
    } else if digits_val(t) > u32::MAX {
        None
    } else {
        Some(digits_val(t) as u32)
    }
}

/// A string of decimal digits as a signed 32-bit value: an optional
/// leading sign, then digits; nothing on an empty or malformed body or a
/// value outside the 32-bit range.
pub open spec fn parse_i32_spec(s: Seq<char>) -> Option<i32> {
    let neg = s.len() > 0 && s[0] == '-';
    let t = if s.len() > 0 && (s[0] == '-' || s[0] == '+') {
        s.drop_first()
    } else {
        s
    };
    if t.len() == 0 || !all_digits(t) {
        None
    } else if neg {
        if digits_val(t) > 2147483648 {
            None
        } else {
            Some((-digits_val(t)) as i32)
        }
    } else {
        if digits_val(t) > i32::MAX {
            None
        } else {
            Some(digits_val(t) as i32)
        }
    }
}

/// What one property line parses to: the part before the first `=` is the
/// key, the part after it the value, both with surrounding whitespace
/// removed; a line without `=` parses to nothing.
pub open spec fn parse_line_spec(s: Seq<char>) -> Option<DtvProperty> {
    match find_eq(s, 0) {
        None => None,
        Some(e) => spec_key_value(
            trim_spec(s.subrange(0, e)),
            trim_spec(s.subrange(e + 1, s.len() as int)),
        ),
    }
}

/// Returns whether two strings hold the same characters.
fn str_eq(a: &str, b: &str) -> (r: bool)
    ensures
        r == seq_eq(a@, b@),
{
    let na = a.unicode_len();
    let nb = b.unicode_len();
    if na != nb {
        return false;
    }
    let mut i: usize = 0;
    while i < na
        invariant
            i <= na,
            na == a@.len(),
            na == b@.len(),
            forall|j: int| 0 <= j < i ==> a@[j] == b@[j],
        decreases na - i,
    {
        if a.get_char(i) != b.get_char(i) {
            return false;
        }
        i += 1;
    }
    proof {
        assert(a@ =~= b@);
    }
    true
}

/// Returns whether two strings hold the same characters, ignoring ASCII
/// case.
fn str_eq_ic(a: &str, b: &str) -> (r: bool)
    ensures
        r == eq_ic(a@, b@),
{
    let na = a.unicode_len();
    let nb = b.unicode_len();
    if na != nb {
        return false;
    }
    let mut i: usize = 0;
    while i < na
        invariant
            i <= na,
            na == a@.len(),
            na == b@.len(),
            forall|j: int| 0 <= j < i ==> lower_cp(a@[j]) == lower_cp(b@[j]),
        decreases na - i,
    {
        let ca = a.get_char(i) as u32;
        let cb = b.get_char(i) as u32;
        let la: u32 = if 65 <= ca && ca <= 90 {
            ca + 32
        } else {
            ca
        };
        let lb: u32 = if 65 <= cb && cb <= 90 {
            cb + 32
        } else {
            cb
        };
        if la != lb {
            return false;
        }
        i += 1;
    }
    true
}

/// Returns the string with leading and trailing whitespace removed.
fn trim(t: &str) -> (r: &str)
    ensures
        r@ == trim_spec(t@),
{
    let n = t.unicode_len();
    let mut a: usize = 0;
    while a < n && is_ws_exec(t.get_char(a))
        invariant
            a <= n,
            n == t@.len(),
            skip_ws_front(t@, 0) == skip_ws_front(t@, a as int),
        decreases n - a,
    {
        a += 1;
    }
    let mut b: usize = n;
    while b > a && is_ws_exec(t.get_char(b - 1))
        invariant
            a <= b <= n,
            n == t@.len(),
            a < n ==> !is_ws(t@[a as int]),
            a < n ==> b > a,
            skip_ws_back(t@, n as int) == skip_ws_back(t@, b as int),
        decreases b,
    {
        b -= 1;
    }
    proof {
        lemma_skip_ws_back_bounds(t@, b as int);
        if a < n {
            assert(skip_ws_front(t@, a as int) == a);
            assert(skip_ws_back(t@, b as int) == b);
        }
    }
    let r = t.substring_char(a, b);
    proof {
        assert(r@ =~= trim_spec(t@));
    }
    r
}

/// The back scan never runs past its start nor below zero.
proof fn lemma_skip_ws_back_bounds(s: Seq<char>, j: int)
    ensures
        j >= 0 ==> 0 <= skip_ws_back(s, j) <= j,
    decreases j,
{
    if j > 0 {
        lemma_skip_ws_back_bounds(s, j - 1);
    }
}

fn is_ws_exec(c: char) -> (r: bool)
    ensures
        r == is_ws(c),
{
    c == ' ' || c == '\t' || c == '\n' || c == '\r'
}

/// How a digit scan ended: no usable digit string, a value within the
/// 32-bit ceiling, or one above it.
enum DigitScan {
    NoDigits,
    Value(u64),
    TooBig,
}

fn scan_digits(t: &str) -> (r: DigitScan)
    ensures
        (r is NoDigits) <==> (t@.len() == 0 || !all_digits(t@)),
        r is Value ==> all_digits(t@) && r->Value_0 == digits_val(t@) && digits_val(t@)
            <= u32::MAX,
        r is TooBig ==> all_digits(t@) && digits_val(t@) > u32::MAX,
{
    let n = t.unicode_len();
    if n == 0 {
        return DigitScan::NoDigits;
    }
    let mut val: u64 = 0;
    let mut too_big = false;
    let mut i: usize = 0;
    while i < n
        invariant
            i <= n,
            n == t@.len(),
            n > 0,
            forall|j: int| 0 <= j < i ==> is_digit(#[trigger] t@[j]),
            !too_big ==> val == digits_val(t@.subrange(0, i as int)) && val <= u32::MAX,
            too_big ==> digits_val(t@.subrange(0, i as int)) > u32::MAX,
        decreases n - i,
    {
        let c = t.get_char(i);
        let cp = c as u32;
        if cp < 48 || cp > 57 {
            proof {
                assert(!is_digit(t@[i as int]));
            }
            return DigitScan::NoDigits;
        }
        proof {
            lemma_digits_val_nonneg(t@.subrange(0, i as int));
            assert(t@.subrange(0, i as int + 1).drop_last() =~= t@.subrange(0, i as int));
        }
        i += 1;
        if too_big {
            proof {
                let pre = digits_val(t@.subrange(0, i as int - 1));
                assert(digits_val(t@.subrange(0, i as int)) == pre * 10 + (c as int - 48));
            }
        } else {
            val = val * 10 + ((cp - 48) as u64);
            if val > 0xFFFF_FFFF {
                too_big = true;
            }
        }
    }
    proof {
        assert(t@.subrange(0, n as int) =~= t@);
    }
    if too_big {
        DigitScan::TooBig
    } else {
        DigitScan::Value(val)
    }
}

/// A digit string's value is never negative.
proof fn lemma_digits_val_nonneg(s: Seq<char>)
    requires
        all_digits(s),
    ensures
        digits_val(s) >= 0,
    decreases s.len(),
{
    if s.len() > 0 {
        assert(all_digits(s.drop_last())) by {
            assert(forall|i: int|
                0 <= i < s.len() - 1 ==> s.drop_last()[i] == #[trigger] s[i]);
        }
        lemma_digits_val_nonneg(s.drop_last());
    }
}

/// Reads an unsigned 32-bit value from its textual form.
fn parse_u32_str(v: &str) -> (r: Option<u32>)
    ensures
        r == parse_u32_spec(v@),
{
    let n = v.unicode_len();
    let start: usize = if n >= 1 && v.get_char(0) == '+' {
        1
    } else {
        0
    };
    let t = v.substring_char(start, n);
    proof {
        if start == 1 {
            assert(t@ =~= v@.drop_first());
        } else {
            assert(t@ =~= v@);
        }
    }
    match scan_digits(t) {
        DigitScan::NoDigits => None,
        DigitScan::TooBig => None,
        DigitScan::Value(x) => Some(x as u32),
    }
}

/// Reads a signed 32-bit value from its textual form.
fn parse_i32_str(v: &str) -> (r: Option<i32>)
    ensures
        r == parse_i32_spec(v@),
{
    let n = v.unicode_len();
    let mut neg = false;
    let mut start: usize = 0;
    if n >= 1 {
        let c0 = v.get_char(0);
        if c0 == '-' {
            neg = true;
            start = 1;
        } else if c0 == '+' {
            start = 1;
        }
    }
    let t = v.substring_char(start, n);
    proof {
        if start == 1 {
            assert(t@ =~= v@.drop_first());
        } else {
            assert(t@ =~= v@);
        }
    }
    match scan_digits(t) {
        DigitScan::NoDigits => None,
        DigitScan::TooBig => None,
        DigitScan::Value(x) => {
            if neg {
                if x > 2147483648 {
                    None
                } else if x == 2147483648 {
                    Some(i32::MIN)
                } else {
                    Some(-(x as i32))
                }
            } else {
                if x > 2147483647 {
                    None
                } else {
                    Some(x as i32)
                }
            }
        },
    }
}

fn find_eq_at(s: &str) -> (r: Option<usize>)
    ensures
        (r is Some) <==> (find_eq(s@, 0) is Some),
        r is Some ==> r->0 < s@.len() && find_eq(s@, 0) == Some(r->0 as int),
{
    let n = s.unicode_len();
    let mut i: usize = 0;
    while i < n
        invariant
            i <= n,
            n == s@.len(),
            find_eq(s@, 0) == find_eq(s@, i as int),
        decreases n - i,
    {
        let c = s.get_char(i);
        if c == '=' {
            proof {
                assert(find_eq(s@, i as int) == Some(i as int));
            }
            return Some(i);
        }
        i += 1;
    }
    None
}

impl DtvProperty {
    /// Parses one `KEY = VALUE` property line: the key names the kind, the
    /// value is read per that kind's payload shape, and surrounding
    /// whitespace is ignored. Lines without `=`, unknown keys and
    /// unreadable values parse to nothing.
    pub fn from_line(s: &str) -> (r: Option<DtvProperty>)
        ensures
            r == parse_line_spec(s@),
    {
        let n = s.unicode_len();
        let e = match find_eq_at(s) {
            Some(e) => e,
            None => {
                return None;
            },
        };
        let key_part = s.substring_char(0, e);
        let val_part = s.substring_char(e + 1, n);
        let k = trim(key_part);
        let v = trim(val_part);
        key_value(k, v)
    }
}

impl fe_modulation {
    /// The value a textual name denotes, if any.
    pub open spec fn from_name_spec(s: Seq<char>) -> Option<fe_modulation> {
        if seq_eq(s, "QPSK"@) {
            Some(fe_modulation::QPSK)
        } else if seq_eq(s, "QAM/16"@) {
            Some(fe_modulation::QAM_16)
        } else if seq_eq(s, "QAM/32"@) {
            Some(fe_modulation::QAM_32)
        } else if seq_eq(s, "QAM/64"@) {
            Some(fe_modulation::QAM_64)
        } else if seq_eq(s, "QAM/128"@) {
            Some(fe_modulation::QAM_128)
        } else if seq_eq(s, "QAM/256"@) {
            Some(fe_modulation::QAM_256)
        } else if seq_eq(s, "QAM/AUTO"@) {
            Some(fe_modulation::QAM_AUTO)
        } else if seq_eq(s, "VSB/8"@) {
            Some(fe_modulation::VSB_8)
        } else if seq_eq(s, "VSB/16"@) {
            Some(fe_modulation::VSB_16)
        } else if seq_eq(s, "PSK/8"@) {
            Some(fe_modulation::PSK_8)
        } else if seq_eq(s, "APSK/16"@) {
            Some(fe_modulation::APSK_16)
        } else if seq_eq(s, "APSK/32"@) {
            Some(fe_modulation::APSK_32)
        } else if seq_eq(s, "DQPSK"@) {
            Some(fe_modulation::DQPSK)
        } else if seq_eq(s, "QAM/4/NR"@) {
            Some(fe_modulation::QAM_4_NR)
        } else if seq_eq(s, "APSK/64"@) {
            Some(fe_modulation::APSK_64)
        } else if seq_eq(s, "APSK/128"@) {
            Some(fe_modulation::APSK_128)
        } else if seq_eq(s, "APSK/256"@) {
            Some(fe_modulation::APSK_256)
        } else {
            None
        }
    }

    /// Looks a value up by its textual name.
    pub fn from_name(s: &str) -> (r: Option<fe_modulation>)
        ensures
            r == Self::from_name_spec(s@),
    {
        if str_eq(s, "QPSK") {
            Some(fe_modulation::QPSK)
        } else if str_eq(s, "QAM/16") {
            Some(fe_modulation::QAM_16)
        } else if str_eq(s, "QAM/32") {
            Some(fe_modulation::QAM_32)
        } else if str_eq(s, "QAM/64") {
            Some(fe_modulation::QAM_64)
        } else if str_eq(s, "QAM/128") {
            Some(fe_modulation::QAM_128)
        } else if str_eq(s, "QAM/256") {
            Some(fe_modulation::QAM_256)
        } else if str_eq(s, "QAM/AUTO") {
            Some(fe_modulation::QAM_AUTO)
        } else if str_eq(s, "VSB/8") {
            Some(fe_modulation::VSB_8)
        } else if str_eq(s, "VSB/16") {
            Some(fe_modulation::VSB_16)
        } else if str_eq(s, "PSK/8") {
            Some(fe_modulation::PSK_8)
        } else if str_eq(s, "APSK/16") {
            Some(fe_modulation::APSK_16)
        } else if str_eq(s, "APSK/32") {
            Some(fe_modulation::APSK_32)
        } else if str_eq(s, "DQPSK") {
            Some(fe_modulation::DQPSK)
        } else if str_eq(s, "QAM/4/NR") {
            Some(fe_modulation::QAM_4_NR)
        } else if str_eq(s, "APSK/64") {
            Some(fe_modulation::APSK_64)
        } else if str_eq(s, "APSK/128") {
            Some(fe_modulation::APSK_128)
        } else if str_eq(s, "APSK/256") {
            Some(fe_modulation::APSK_256)
        } else {
            None
        }
    }
}

impl fe_spectral_inversion {
    /// The value a textual name denotes, if any.
    pub open spec fn from_name_spec(s: Seq<char>) -> Option<fe_spectral_inversion> {
        if seq_eq(s, "OFF"@) {
            Some(fe_spectral_inversion::INVERSION_OFF)
        } else if seq_eq(s, "ON"@) {
            Some(fe_spectral_inversion::INVERSION_ON)
        } else if seq_eq(s, "AUTO"@) {
            Some(fe_spectral_inversion::INVERSION_AUTO)
        } else {
            None
        }
    }

    /// Looks a value up by its textual name.
    pub fn from_name(s: &str) -> (r: Option<fe_spectral_inversion>)
        ensures
            r == Self::from_name_spec(s@),
    {
        if str_eq(s, "OFF") {
            Some(fe_spectral_inversion::INVERSION_OFF)
        } else if str_eq(s, "ON") {
            Some(fe_spectral_inversion::INVERSION_ON)
        } else if str_eq(s, "AUTO") {
            Some(fe_spectral_inversion::INVERSION_AUTO)
        } else {
            None
        }
    }
}

impl fe_code_rate {
    /// The value a textual name denotes, if any; names compare ignoring ASCII case.
    pub open spec fn from_name_spec(s: Seq<char>) -> Option<fe_code_rate> {
        if eq_ic(s, "NONE"@) {
            Some(fe_code_rate::FEC_NONE)
        } else if eq_ic(s, "1/2"@) {
            Some(fe_code_rate::FEC_1_2)
        } else if eq_ic(s, "2/3"@) {
            Some(fe_code_rate::FEC_2_3)
        } else if eq_ic(s, "3/4"@) {
            Some(fe_code_rate::FEC_3_4)
        } else if eq_ic(s, "4/5"@) {
            Some(fe_code_rate::FEC_4_5)
        } else if eq_ic(s, "5/6"@) {
            Some(fe_code_rate::FEC_5_6)
        } else if eq_ic(s, "6/7"@) {
            Some(fe_code_rate::FEC_6_7)
        } else if eq_ic(s, "7/8"@) {
            Some(fe_code_rate::FEC_7_8)
        } else if eq_ic(s, "8/9"@) {
            Some(fe_code_rate::FEC_8_9)
        } else if eq_ic(s, "AUTO"@) {
            Some(fe_code_rate::FEC_AUTO)
        } else if eq_ic(s, "3/5"@) {
            Some(fe_code_rate::FEC_3_5)
        } else if eq_ic(s, "9/10"@) {
            Some(fe_code_rate::FEC_9_10)
        } else if eq_ic(s, "2/5"@) {
            Some(fe_code_rate::FEC_2_5)
        } else if eq_ic(s, "1/4"@) {
            Some(fe_code_rate::FEC_1_4)
        } else if eq_ic(s, "1/3"@) {
            Some(fe_code_rate::FEC_1_3)
        } else {
            None
        }
    }

    /// Looks a value up by its textual name.
    pub fn from_name(s: &str) -> (r: Option<fe_code_rate>)
        ensures
            r == Self::from_name_spec(s@),
    {
        if str_eq_ic(s, "NONE") {
            Some(fe_code_rate::FEC_NONE)
        } else if str_eq_ic(s, "1/2") {
            Some(fe_code_rate::FEC_1_2)
        } else if str_eq_ic(s, "2/3") {
            Some(fe_code_rate::FEC_2_3)
        } else if str_eq_ic(s, "3/4") {
            Some(fe_code_rate::FEC_3_4)
        } else if str_eq_ic(s, "4/5") {
            Some(fe_code_rate::FEC_4_5)
        } else if str_eq_ic(s, "5/6") {
            Some(fe_code_rate::FEC_5_6)
        } else if str_eq_ic(s, "6/7") {
            Some(fe_code_rate::FEC_6_7)
        } else if str_eq_ic(s, "7/8") {
            Some(fe_code_rate::FEC_7_8)
        } else if str_eq_ic(s, "8/9") {
            Some(fe_code_rate::FEC_8_9)
        } else if str_eq_ic(s, "AUTO") {
            Some(fe_code_rate::FEC_AUTO)
        } else if str_eq_ic(s, "3/5") {
            Some(fe_code_rate::FEC_3_5)
        } else if str_eq_ic(s, "9/10") {
            Some(fe_code_rate::FEC_9_10)
        } else if str_eq_ic(s, "2/5") {
            Some(fe_code_rate::FEC_2_5)
        } else if str_eq_ic(s, "1/4") {
            Some(fe_code_rate::FEC_1_4)
        } else if str_eq_ic(s, "1/3") {
            Some(fe_code_rate::FEC_1_3)
        } else {
            None
        }
    }
}

impl fe_sec_voltage {
    /// The value a textual name denotes, if any.
    pub open spec fn from_name_spec(s: Seq<char>) -> Option<fe_sec_voltage> {
        if seq_eq(s, "SEC_VOLTAGE_13"@) {
            Some(fe_sec_voltage::SEC_VOLTAGE_13)
        } else if seq_eq(s, "SEC_VOLTAGE_18"@) {
            Some(fe_sec_voltage::SEC_VOLTAGE_18)
        } else if seq_eq(s, "SEC_VOLTAGE_OFF"@) {
            Some(fe_sec_voltage::SEC_VOLTAGE_OFF)
        } else {
            None
        }
    }

    /// Looks a value up by its textual name.
    pub fn from_name(s: &str) -> (r: Option<fe_sec_voltage>)
        ensures
            r == Self::from_name_spec(s@),
    {
        if str_eq(s, "SEC_VOLTAGE_13") {
            Some(fe_sec_voltage::SEC_VOLTAGE_13)
        } else if str_eq(s, "SEC_VOLTAGE_18") {
            Some(fe_sec_voltage::SEC_VOLTAGE_18)
        } else if str_eq(s, "SEC_VOLTAGE_OFF") {
            Some(fe_sec_voltage::SEC_VOLTAGE_OFF)
        } else {
            None
        }
    }
}

impl fe_sec_tone_mode {
    /// The value a textual name denotes, if any.
    pub open spec fn from_name_spec(s: Seq<char>) -> Option<fe_sec_tone_mode> {
        if seq_eq(s, "SEC_TONE_ON"@) {
            Some(fe_sec_tone_mode::SEC_TONE_ON)
        } else if seq_eq(s, "SEC_TONE_OFF"@) {
            Some(fe_sec_tone_mode::SEC_TONE_OFF)
        } else {
            None
        }
    }

    /// Looks a value up by its textual name.
    pub fn from_name(s: &str) -> (r: Option<fe_sec_tone_mode>)
        ensures
            r == Self::from_name_spec(s@),
    {
        if str_eq(s, "SEC_TONE_ON") {
            Some(fe_sec_tone_mode::SEC_TONE_ON)
        } else if str_eq(s, "SEC_TONE_OFF") {
            Some(fe_sec_tone_mode::SEC_TONE_OFF)
        } else {
            None
        }
    }
}

impl fe_pilot {
    /// The value a textual name denotes, if any.
    pub open spec fn from_name_spec(s: Seq<char>) -> Option<fe_pilot> {
        if seq_eq(s, "PILOT_ON"@) {
            Some(fe_pilot::PILOT_ON)
        } else if seq_eq(s, "PILOT_OFF"@) {
            Some(fe_pilot::PILOT_OFF)
        } else if seq_eq(s, "PILOT_AUTO"@) {
            Some(fe_pilot::PILOT_AUTO)
        } else {
            None
        }
    }

    /// Looks a value up by its textual name.
    pub fn from_name(s: &str) -> (r: Option<fe_pilot>)
        ensures
            r == Self::from_name_spec(s@),
    {
        if str_eq(s, "PILOT_ON") {
            Some(fe_pilot::PILOT_ON)
        } else if str_eq(s, "PILOT_OFF") {
            Some(fe_pilot::PILOT_OFF)
        } else if str_eq(s, "PILOT_AUTO") {
            Some(fe_pilot::PILOT_AUTO)
        } else {
            None
        }
    }
}

impl fe_rolloff {
    /// The value a textual name denotes, if any.
    pub open spec fn from_name_spec(s: Seq<char>) -> Option<fe_rolloff> {
        if seq_eq(s, "ROLLOFF_35"@) {
            Some(fe_rolloff::ROLLOFF_35)
        } else if seq_eq(s, "ROLLOFF_20"@) {
            Some(fe_rolloff::ROLLOFF_20)
        } else if seq_eq(s, "ROLLOFF_25"@) {
            Some(fe_rolloff::ROLLOFF_25)
        } else if seq_eq(s, "ROLLOFF_AUTO"@) {
            Some(fe_rolloff::ROLLOFF_AUTO)
        } else if seq_eq(s, "ROLLOFF_15"@) {
            Some(fe_rolloff::ROLLOFF_15)
        } else if seq_eq(s, "ROLLOFF_10"@) {
            Some(fe_rolloff::ROLLOFF_10)
        } else if seq_eq(s, "ROLLOFF_5"@) {
            Some(fe_rolloff::ROLLOFF_5)
        } else {
            None
        }
    }

    /// Looks a value up by its textual name.
    pub fn from_name(s: &str) -> (r: Option<fe_rolloff>)
        ensures
            r == Self::from_name_spec(s@),
    {
        if str_eq(s, "ROLLOFF_35") {
            Some(fe_rolloff::ROLLOFF_35)
        } else if str_eq(s, "ROLLOFF_20") {
            Some(fe_rolloff::ROLLOFF_20)
        } else if str_eq(s, "ROLLOFF_25") {
            Some(fe_rolloff::ROLLOFF_25)
        } else if str_eq(s, "ROLLOFF_AUTO") {
            Some(fe_rolloff::ROLLOFF_AUTO)
        } else if str_eq(s, "ROLLOFF_15") {
            Some(fe_rolloff::ROLLOFF_15)
        } else if str_eq(s, "ROLLOFF_10") {
            Some(fe_rolloff::ROLLOFF_10)
        } else if str_eq(s, "ROLLOFF_5") {
            Some(fe_rolloff::ROLLOFF_5)
        } else {
            None
        }
    }
}

impl fe_delivery_system {
    /// The value a textual name denotes, if any; names compare ignoring ASCII case.
    pub open spec fn from_name_spec(s: Seq<char>) -> Option<fe_delivery_system> {
        if eq_ic(s, "none"@) {
            Some(fe_delivery_system::SYS_UNDEFINED)
        } else if eq_ic(s, "dbvc/annex_a"@) {
            Some(fe_delivery_system::SYS_DVBC_ANNEX_A)
        } else if eq_ic(s, "dvbc/annex_b"@) {
            Some(fe_delivery_system::SYS_DVBC_ANNEX_B)
        } else if eq_ic(s, "dvbt"@) {
            Some(fe_delivery_system::SYS_DVBT)
        } else if eq_ic(s, "dss"@) {
            Some(fe_delivery_system::SYS_DSS)
        } else if eq_ic(s, "dvbs"@) {
            Some(fe_delivery_system::SYS_DVBS)
        } else if eq_ic(s, "dvbs2"@) {
            Some(fe_delivery_system::SYS_DVBS2)
        } else if eq_ic(s, "dvbh"@) {
            Some(fe_delivery_system::SYS_DVBH)
        } else if eq_ic(s, "isdbt"@) {
            Some(fe_delivery_system::SYS_ISDBT)
        } else if eq_ic(s, "isdbs"@) {
            Some(fe_delivery_system::SYS_ISDBS)
        } else if eq_ic(s, "isdbc"@) {
            Some(fe_delivery_system::SYS_ISDBC)
        } else if eq_ic(s, "atsc"@) {
            Some(fe_delivery_system::SYS_ATSC)
        } else if eq_ic(s, "atsc-m/h"@) {
            Some(fe_delivery_system::SYS_ATSCMH)
        } else if eq_ic(s, "dtmb"@) {
            Some(fe_delivery_system::SYS_DTMB)
        } else if eq_ic(s, "cmmb"@) {
            Some(fe_delivery_system::SYS_CMMB)
        } else if eq_ic(s, "dab"@) {
            Some(fe_delivery_system::SYS_DAB)
        } else if eq_ic(s, "dvbt2"@) {
            Some(fe_delivery_system::SYS_DVBT2)
        } else if eq_ic(s, "dvbt22"@) {
            Some(fe_delivery_system::SYS_DVBT2)
        } else if eq_ic(s, "dvbs/turbo"@) {
            Some(fe_delivery_system::SYS_TURBO)
        } else if eq_ic(s, "dvbc/annex_c"@) {
            Some(fe_delivery_system::SYS_DVBC_ANNEX_C)
        } else if eq_ic(s, "dvbc2"@) {
            Some(fe_delivery_system::SYS_DVBC2)
        } else {
            None
        }
    }

    /// Looks a value up by its textual name.
    pub fn from_name(s: &str) -> (r: Option<fe_delivery_system>)
        ensures
            r == Self::from_name_spec(s@),
    {
        if str_eq_ic(s, "none") {
            Some(fe_delivery_system::SYS_UNDEFINED)
        } else if str_eq_ic(s, "dbvc/annex_a") {
            Some(fe_delivery_system::SYS_DVBC_ANNEX_A)
        } else if str_eq_ic(s, "dvbc/annex_b") {
            Some(fe_delivery_system::SYS_DVBC_ANNEX_B)
        } else if str_eq_ic(s, "dvbt") {
            Some(fe_delivery_system::SYS_DVBT)
        } else if str_eq_ic(s, "dss") {
            Some(fe_delivery_system::SYS_DSS)
        } else if str_eq_ic(s, "dvbs") {
            Some(fe_delivery_system::SYS_DVBS)
        } else if str_eq_ic(s, "dvbs2") {
            Some(fe_delivery_system::SYS_DVBS2)
        } else if str_eq_ic(s, "dvbh") {
            Some(fe_delivery_system::SYS_DVBH)
        } else if str_eq_ic(s, "isdbt") {
            Some(fe_delivery_system::SYS_ISDBT)
        } else if str_eq_ic(s, "isdbs") {
            Some(fe_delivery_system::SYS_ISDBS)
        } else if str_eq_ic(s, "isdbc") {
            Some(fe_delivery_system::SYS_ISDBC)
        } else if str_eq_ic(s, "atsc") {
            Some(fe_delivery_system::SYS_ATSC)
        } else if str_eq_ic(s, "atsc-m/h") {
            Some(fe_delivery_system::SYS_ATSCMH)
        } else if str_eq_ic(s, "dtmb") {
            Some(fe_delivery_system::SYS_DTMB)
        } else if str_eq_ic(s, "cmmb") {
            Some(fe_delivery_system::SYS_CMMB)
        } else if str_eq_ic(s, "dab") {
            Some(fe_delivery_system::SYS_DAB)
        } else if str_eq_ic(s, "dvbt2") {
            Some(fe_delivery_system::SYS_DVBT2)
        } else if str_eq_ic(s, "dvbt22") {
            Some(fe_delivery_system::SYS_DVBT2)
        } else if str_eq_ic(s, "dvbs/turbo") {
            Some(fe_delivery_system::SYS_TURBO)
        } else if str_eq_ic(s, "dvbc/annex_c") {
            Some(fe_delivery_system::SYS_DVBC_ANNEX_C)
        } else if str_eq_ic(s, "dvbc2") {
            Some(fe_delivery_system::SYS_DVBC2)
        } else {
            None
        }
    }
}

impl fe_transmit_mode {
    /// The value a textual name denotes, if any.
    pub open spec fn from_name_spec(s: Seq<char>) -> Option<fe_transmit_mode> {
        if seq_eq(s, "2K"@) {
            Some(fe_transmit_mode::TRANSMISSION_MODE_2K)
        } else if seq_eq(s, "8K"@) {
            Some(fe_transmit_mode::TRANSMISSION_MODE_8K)
        } else if seq_eq(s, "AUTO"@) {
            Some(fe_transmit_mode::TRANSMISSION_MODE_AUTO)
        } else if seq_eq(s, "4K"@) {
            Some(fe_transmit_mode::TRANSMISSION_MODE_4K)
        } else if seq_eq(s, "1K"@) {
            Some(fe_transmit_mode::TRANSMISSION_MODE_1K)
        } else if seq_eq(s, "16K"@) {
            Some(fe_transmit_mode::TRANSMISSION_MODE_16K)
        } else if seq_eq(s, "32K"@) {
            Some(fe_transmit_mode::TRANSMISSION_MODE_32K)
        } else if seq_eq(s, "C1"@) {
            Some(fe_transmit_mode::TRANSMISSION_MODE_C1)
        } else if seq_eq(s, "C3780"@) {
            Some(fe_transmit_mode::TRANSMISSION_MODE_C3780)
        } else {
            None
        }
    }

    /// Looks a value up by its textual name.
    pub fn from_name(s: &str) -> (r: Option<fe_transmit_mode>)
        ensures
            r == Self::from_name_spec(s@),
    {
        if str_eq(s, "2K") {
            Some(fe_transmit_mode::TRANSMISSION_MODE_2K)
        } else if str_eq(s, "8K") {
            Some(fe_transmit_mode::TRANSMISSION_MODE_8K)
        } else if str_eq(s, "AUTO") {
            Some(fe_transmit_mode::TRANSMISSION_MODE_AUTO)
        } else if str_eq(s, "4K") {
            Some(fe_transmit_mode::TRANSMISSION_MODE_4K)
        } else if str_eq(s, "1K") {
            Some(fe_transmit_mode::TRANSMISSION_MODE_1K)
        } else if str_eq(s, "16K") {
            Some(fe_transmit_mode::TRANSMISSION_MODE_16K)
        } else if str_eq(s, "32K") {
            Some(fe_transmit_mode::TRANSMISSION_MODE_32K)
        } else if str_eq(s, "C1") {
            Some(fe_transmit_mode::TRANSMISSION_MODE_C1)
        } else if str_eq(s, "C3780") {
            Some(fe_transmit_mode::TRANSMISSION_MODE_C3780)
        } else {
            None
        }
    }
}

impl fe_guard_interval {
    /// The value a textual name denotes, if any.
    pub open spec fn from_name_spec(s: Seq<char>) -> Option<fe_guard_interval> {
        if seq_eq(s, "1/32"@) {
            Some(fe_guard_interval::GUARD_INTERVAL_1_32)
        } else if seq_eq(s, "1/16"@) {
            Some(fe_guard_interval::GUARD_INTERVAL_1_16)
        } else if seq_eq(s, "1/8"@) {
            Some(fe_guard_interval::GUARD_INTERVAL_1_8)
        } else if seq_eq(s, "1/4"@) {
            Some(fe_guard_interval::GUARD_INTERVAL_1_4)
        } else if seq_eq(s, "AUTO"@) {
            Some(fe_guard_interval::GUARD_INTERVAL_AUTO)
        } else if seq_eq(s, "1/128"@) {
            Some(fe_guard_interval::GUARD_INTERVAL_1_128)
        } else if seq_eq(s, "19/128"@) {
            Some(fe_guard_interval::GUARD_INTERVAL_19_128)
        } else if seq_eq(s, "19/256"@) {
            Some(fe_guard_interval::GUARD_INTERVAL_19_256)
        } else if seq_eq(s, "PN420"@) {
            Some(fe_guard_interval::GUARD_INTERVAL_PN420)
        } else if seq_eq(s, "PN595"@) {
            Some(fe_guard_interval::GUARD_INTERVAL_PN595)
        } else if seq_eq(s, "PN945"@) {
            Some(fe_guard_interval::GUARD_INTERVAL_PN945)
        } else {
            None
        }
    }

    /// Looks a value up by its textual name.
    pub fn from_name(s: &str) -> (r: Option<fe_guard_interval>)
        ensures
            r == Self::from_name_spec(s@),
    {
        if str_eq(s, "1/32") {
            Some(fe_guard_interval::GUARD_INTERVAL_1_32)
        } else if str_eq(s, "1/16") {
            Some(fe_guard_interval::GUARD_INTERVAL_1_16)
        } else if str_eq(s, "1/8") {
            Some(fe_guard_interval::GUARD_INTERVAL_1_8)
        } else if str_eq(s, "1/4") {
            Some(fe_guard_interval::GUARD_INTERVAL_1_4)
        } else if str_eq(s, "AUTO") {
            Some(fe_guard_interval::GUARD_INTERVAL_AUTO)
        } else if str_eq(s, "1/128") {
            Some(fe_guard_interval::GUARD_INTERVAL_1_128)
        } else if str_eq(s, "19/128") {
            Some(fe_guard_interval::GUARD_INTERVAL_19_128)
        } else if str_eq(s, "19/256") {
            Some(fe_guard_interval::GUARD_INTERVAL_19_256)
        } else if str_eq(s, "PN420") {
            Some(fe_guard_interval::GUARD_INTERVAL_PN420)
        } else if str_eq(s, "PN595") {
            Some(fe_guard_interval::GUARD_INTERVAL_PN595)
        } else if str_eq(s, "PN945") {
            Some(fe_guard_interval::GUARD_INTERVAL_PN945)
        } else {
            None
        }
    }
}

impl fe_hierarchy {
    /// The value a textual name denotes, if any.
    pub open spec fn from_name_spec(s: Seq<char>) -> Option<fe_hierarchy> {
        if seq_eq(s, "NONE"@) {
            Some(fe_hierarchy::HIERARCHY_NONE)
        } else if seq_eq(s, "1"@) {
            Some(fe_hierarchy::HIERARCHY_1)
        } else if seq_eq(s, "2"@) {
            Some(fe_hierarchy::HIERARCHY_2)
        } else if seq_eq(s, "4"@) {
            Some(fe_hierarchy::HIERARCHY_4)
        } else if seq_eq(s, "AUTO"@) {
            Some(fe_hierarchy::HIERARCHY_AUTO)
        } else {
            None
        }
    }

    /// Looks a value up by its textual name.
    pub fn from_name(s: &str) -> (r: Option<fe_hierarchy>)
        ensures
            r == Self::from_name_spec(s@),
    {
        if str_eq(s, "NONE") {
            Some(fe_hierarchy::HIERARCHY_NONE)
        } else if str_eq(s, "1") {
            Some(fe_hierarchy::HIERARCHY_1)
        } else if str_eq(s, "2") {
            Some(fe_hierarchy::HIERARCHY_2)
        } else if str_eq(s, "4") {
            Some(fe_hierarchy::HIERARCHY_4)
        } else if str_eq(s, "AUTO") {
            Some(fe_hierarchy::HIERARCHY_AUTO)
        } else {
            None
        }
    }
}

impl fe_interleaving {
    /// The value a textual name denotes, if any.
    pub open spec fn from_name_spec(s: Seq<char>) -> Option<fe_interleaving> {
        if seq_eq(s, "NONE"@) {
            Some(fe_interleaving::INTERLEAVING_NONE)
        } else if seq_eq(s, "AUTO"@) {
            Some(fe_interleaving::INTERLEAVING_AUTO)
        } else if seq_eq(s, "240"@) {
            Some(fe_interleaving::INTERLEAVING_240)
        } else if seq_eq(s, "720"@) {
            Some(fe_interleaving::INTERLEAVING_720)
        } else {
            None
        }
    }

    /// Looks a value up by its textual name.
    pub fn from_name(s: &str) -> (r: Option<fe_interleaving>)
        ensures
            r == Self::from_name_spec(s@),
    {
        if str_eq(s, "NONE") {
            Some(fe_interleaving::INTERLEAVING_NONE)
        } else if str_eq(s, "AUTO") {
            Some(fe_interleaving::INTERLEAVING_AUTO)
        } else if str_eq(s, "240") {
            Some(fe_interleaving::INTERLEAVING_240)
        } else if str_eq(s, "720") {
            Some(fe_interleaving::INTERLEAVING_720)
        } else {
            None
        }
    }
}

impl fe_lna {
    /// The value a textual name denotes, if any.
    pub open spec fn from_name_spec(s: Seq<char>) -> Option<fe_lna> {
        if seq_eq(s, "LNA_OFF"@) {
            Some(fe_lna::LNA_OFF)
        } else if seq_eq(s, "LNA_ON"@) {
            Some(fe_lna::LNA_ON)
        } else if seq_eq(s, "LNA_AUTO"@) {
            Some(fe_lna::LNA_AUTO)
        } else {
            None
        }
    }

    /// Looks a value up by its textual name.
    pub fn from_name(s: &str) -> (r: Option<fe_lna>)
        ensures
            r == Self::from_name_spec(s@),
    {
        if str_eq(s, "LNA_OFF") {
            Some(fe_lna::LNA_OFF)
        } else if str_eq(s, "LNA_ON") {
            Some(fe_lna::LNA_ON)
        } else if str_eq(s, "LNA_AUTO") {
            Some(fe_lna::LNA_AUTO)
        } else {
            None
        }
    }
}

/// What a trimmed key and a trimmed value parse to: the value is read
/// per the key's kind, and an unknown key or unreadable value parses to
/// nothing.
pub open spec fn spec_key_value(k: Seq<char>, v: Seq<char>) -> Option<DtvProperty> {
    if seq_eq(k, "FREQUENCY"@) {
        match parse_u32_spec(v) {
            Some(x) => Some(DtvProperty::DTV_FREQUENCY(DtvPropertyRequest { data: x })),
            None => None,
        }
    } else if seq_eq(k, "MODULATION"@) {
        match fe_modulation::from_name_spec(v) {
            Some(x) => Some(DtvProperty::DTV_MODULATION(DtvPropertyRequest { data: x })),
            None => None,
        }
    } else if seq_eq(k, "BANDWIDTH_HZ"@) {
        match parse_u32_spec(v) {
            Some(x) => Some(DtvProperty::DTV_BANDWIDTH_HZ(DtvPropertyRequest { data: x })),
            None => None,
        }
    } else if seq_eq(k, "INVERSION"@) {
        match fe_spectral_inversion::from_name_spec(v) {
            Some(x) => Some(DtvProperty::DTV_INVERSION(DtvPropertyRequest { data: x })),
            None => None,
        }
    } else if seq_eq(k, "SYMBOL_RATE"@) {
        match parse_u32_spec(v) {
            Some(x) => Some(DtvProperty::DTV_SYMBOL_RATE(DtvPropertyRequest { data: x })),
            None => None,
        }
    } else if seq_eq(k, "INNER_FEC"@) {
        match fe_code_rate::from_name_spec(v) {
            Some(x) => Some(DtvProperty::DTV_INNER_FEC(DtvPropertyRequest { data: x })),
            None => None,
        }
    } else if seq_eq(k, "VOLTAGE"@) {
        match fe_sec_voltage::from_name_spec(v) {
            Some(x) => Some(DtvProperty::DTV_VOLTAGE(DtvPropertyRequest { data: x })),
            None => None,
        }
    } else if seq_eq(k, "TONE"@) {
        match fe_sec_tone_mode::from_name_spec(v) {
            Some(x) => Some(DtvProperty::DTV_TONE(DtvPropertyRequest { data: x })),
            None => None,
        }
    } else if seq_eq(k, "PILOT"@) {
        match fe_pilot::from_name_spec(v) {
            Some(x) => Some(DtvProperty::DTV_PILOT(DtvPropertyRequest { data: x })),
            None => None,
        }
    } else if seq_eq(k, "ROLLOFF"@) {
        match fe_rolloff::from_name_spec(v) {
            Some(x) => Some(DtvProperty::DTV_ROLLOFF(DtvPropertyRequest { data: x })),
            None => None,
        }
    } else if seq_eq(k, "DELIVERY_SYSTEM"@) {
        match fe_delivery_system::from_name_spec(v) {
            Some(x) => Some(DtvProperty::DTV_DELIVERY_SYSTEM(DtvPropertyRequest { data: x })),
            None => None,
        }
    } else if seq_eq(k, "ISDBT_PARTIAL_RECEPTION"@) {
        match parse_i32_spec(v) {
            Some(x) => Some(DtvProperty::DTV_ISDBT_PARTIAL_RECEPTION(DtvPropertyRequest { data: x })),
            None => None,
        }
    } else if seq_eq(k, "ISDBT_SOUND_BROADCASTING"@) {
        match parse_i32_spec(v) {
            Some(x) => Some(DtvProperty::DTV_ISDBT_SOUND_BROADCASTING(DtvPropertyRequest { data: x })),
            None => None,
        }
    } else if seq_eq(k, "ISDBT_SB_SUBCHANNEL_ID"@) {
        match parse_i32_spec(v) {
            Some(x) => Some(DtvProperty::DTV_ISDBT_SB_SUBCHANNEL_ID(DtvPropertyRequest { data: x })),
            None => None,
        }
    } else if seq_eq(k, "ISDBT_SB_SEGMENT_IDX"@) {
        match parse_i32_spec(v) {
            Some(x) => Some(DtvProperty::DTV_ISDBT_SB_SEGMENT_IDX(DtvPropertyRequest { data: x })),
            None => None,
        }
    } else if seq_eq(k, "ISDBT_SB_SEGMENT_COUNT"@) {
        match parse_u32_spec(v) {
            Some(x) => Some(DtvProperty::DTV_ISDBT_SB_SEGMENT_COUNT(DtvPropertyRequest { data: x })),
            None => None,
        }
    } else if seq_eq(k, "ISDBT_LAYERA_FEC"@) {
        match fe_code_rate::from_name_spec(v) {
            Some(x) => Some(DtvProperty::DTV_ISDBT_LAYERA_FEC(DtvPropertyRequest { data: x })),
            None => None,
        }
    } else if seq_eq(k, "ISDBT_LAYERA_MODULATION"@) {
        match fe_modulation::from_name_spec(v) {
            Some(x) => Some(DtvProperty::DTV_ISDBT_LAYERA_MODULATION(DtvPropertyRequest { data: x })),
            None => None,
        }
    } else if seq_eq(k, "ISDBT_LAYERA_SEGMENT_COUNT"@) {
        match parse_i32_spec(v) {
            Some(x) => Some(DtvProperty::DTV_ISDBT_LAYERA_SEGMENT_COUNT(DtvPropertyRequest { data: x })),
            None => None,
        }
    } else if seq_eq(k, "ISDBT_LAYERA_TIME_INTERLEAVING"@) {
        match parse_i32_spec(v) {
            Some(x) => Some(DtvProperty::DTV_ISDBT_LAYERA_TIME_INTERLEAVING(DtvPropertyRequest { data: x })),
            None => None,
        }
    } else if seq_eq(k, "ISDBT_LAYERB_FEC"@) {
        match fe_code_rate::from_name_spec(v) {
            Some(x) => Some(DtvProperty::DTV_ISDBT_LAYERB_FEC(DtvPropertyRequest { data: x })),
            None => None,
        }
    } else if seq_eq(k, "ISDBT_LAYERB_MODULATION"@) {
        match fe_modulation::from_name_spec(v) {
            Some(x) => Some(DtvProperty::DTV_ISDBT_LAYERB_MODULATION(DtvPropertyRequest { data: x })),
            None => None,
        }
    } else if seq_eq(k, "ISDBT_LAYERB_SEGMENT_COUNT"@) {
        match parse_i32_spec(v) {
            Some(x) => Some(DtvProperty::DTV_ISDBT_LAYERB_SEGMENT_COUNT(DtvPropertyRequest { data: x })),
            None => None,
        }
    } else if seq_eq(k, "ISDBT_LAYERB_TIME_INTERLEAVING"@) {
        match parse_i32_spec(v) {
            Some(x) => Some(DtvProperty::DTV_ISDBT_LAYERB_TIME_INTERLEAVING(DtvPropertyRequest { data: x })),
            None => None,
        }
    } else if seq_eq(k, "ISDBT_LAYERC_FEC"@) {
        match fe_code_rate::from_name_spec(v) {
            Some(x) => Some(DtvProperty::DTV_ISDBT_LAYERC_FEC(DtvPropertyRequest { data: x })),
            None => None,
        }
    } else if seq_eq(k, "ISDBT_LAYERC_MODULATION"@) {
        match fe_modulation::from_name_spec(v) {
            Some(x) => Some(DtvProperty::DTV_ISDBT_LAYERC_MODULATION(DtvPropertyRequest { data: x })),
            None => None,
        }
    } else if seq_eq(k, "ISDBT_LAYERC_SEGMENT_COUNT"@) {
        match parse_i32_spec(v) {
            Some(x) => Some(DtvProperty::DTV_ISDBT_LAYERC_SEGMENT_COUNT(DtvPropertyRequest { data: x })),
            None => None,
        }
    } else if seq_eq(k, "ISDBT_LAYERC_TIME_INTERLEAVING"@) {
        match parse_i32_spec(v) {
            Some(x) => Some(DtvProperty::DTV_ISDBT_LAYERC_TIME_INTERLEAVING(DtvPropertyRequest { data: x })),
            None => None,
        }
    } else if seq_eq(k, "CODE_RATE_HP"@) {
        match fe_code_rate::from_name_spec(v) {
            Some(x) => Some(DtvProperty::DTV_CODE_RATE_HP(DtvPropertyRequest { data: x })),
            None => None,
        }
    } else if seq_eq(k, "CODE_RATE_LP"@) {
        match fe_code_rate::from_name_spec(v) {
            Some(x) => Some(DtvProperty::DTV_CODE_RATE_LP(DtvPropertyRequest { data: x })),
            None => None,
        }
    } else if seq_eq(k, "GUARD_INTERVAL"@) {
        match fe_guard_interval::from_name_spec(v) {
            Some(x) => Some(DtvProperty::DTV_GUARD_INTERVAL(DtvPropertyRequest { data: x })),
            None => None,
        }
    } else if seq_eq(k, "TRANSMISSION_MODE"@) {
        match fe_transmit_mode::from_name_spec(v) {
            Some(x) => Some(DtvProperty::DTV_TRANSMISSION_MODE(DtvPropertyRequest { data: x })),
            None => None,
        }
    } else if seq_eq(k, "HIERARCHY"@) {
        match fe_hierarchy::from_name_spec(v) {
            Some(x) => Some(DtvProperty::DTV_HIERARCHY(DtvPropertyRequest { data: x })),
            None => None,
        }
    } else if seq_eq(k, "ISDBT_LAYER_ENABLED"@) {
        match parse_u32_spec(v) {
            Some(x) => Some(DtvProperty::DTV_ISDBT_LAYER_ENABLED(DtvPropertyRequest { data: x })),
            None => None,
        }
    } else if seq_eq(k, "STREAM_ID"@) {
        match parse_u32_spec(v) {
            Some(x) => Some(DtvProperty::DTV_STREAM_ID(DtvPropertyRequest { data: x })),
            None => None,
        }
    } else if seq_eq(k, "ATSCMH_FIC_VER"@) {
        match parse_u32_spec(v) {
            Some(x) => Some(DtvProperty::DTV_ATSCMH_FIC_VER(DtvPropertyRequest { data: x })),
            None => None,
        }
    } else if seq_eq(k, "ATSCMH_PARADE_ID"@) {
        match parse_u32_spec(v) {
            Some(x) => Some(DtvProperty::DTV_ATSCMH_PARADE_ID(DtvPropertyRequest { data: x })),
            None => None,
        }
    } else if seq_eq(k, "ATSCMH_NOG"@) {
        match parse_u32_spec(v) {
            Some(x) => Some(DtvProperty::DTV_ATSCMH_NOG(DtvPropertyRequest { data: x })),
            None => None,
        }
    } else if seq_eq(k, "ATSCMH_TNOG"@) {
        match parse_u32_spec(v) {
            Some(x) => Some(DtvProperty::DTV_ATSCMH_TNOG(DtvPropertyRequest { data: x })),
            None => None,
        }
    } else if seq_eq(k, "ATSCMH_SGN"@) {
        match parse_u32_spec(v) {
            Some(x) => Some(DtvProperty::DTV_ATSCMH_SGN(DtvPropertyRequest { data: x })),
            None => None,
        }
    } else if seq_eq(k, "ATSCMH_PRC"@) {
        match parse_u32_spec(v) {
            Some(x) => Some(DtvProperty::DTV_ATSCMH_PRC(DtvPropertyRequest { data: x })),
            None => None,
        }
    } else if seq_eq(k, "INTERLEAVING"@) {
        match fe_interleaving::from_name_spec(v) {
            Some(x) => Some(DtvProperty::DTV_INTERLEAVING(DtvPropertyRequest { data: x })),
            None => None,
        }
    } else if seq_eq(k, "LNA"@) {
        match fe_lna::from_name_spec(v) {
            Some(x) => Some(DtvProperty::DTV_LNA(DtvPropertyRequest { data: x })),
            None => None,
        }
    } else {
        None
    }
}

fn key_value(k: &str, v: &str) -> (r: Option<DtvProperty>)
    ensures
        r == spec_key_value(k@, v@),
{
    if str_eq(k, "FREQUENCY") {
        match parse_u32_str(v) {
            Some(x) => Some(DtvProperty::DTV_FREQUENCY(DtvPropertyRequest::new(x))),
            None => None,
        }
    } else if str_eq(k, "MODULATION") {
        match fe_modulation::from_name(v) {
            Some(x) => Some(DtvProperty::DTV_MODULATION(DtvPropertyRequest::new(x))),
            None => None,
        }
    } else if str_eq(k, "BANDWIDTH_HZ") {
        match parse_u32_str(v) {
            Some(x) => Some(DtvProperty::DTV_BANDWIDTH_HZ(DtvPropertyRequest::new(x))),
            None => None,
        }
    } else if str_eq(k, "INVERSION") {
        match fe_spectral_inversion::from_name(v) {
            Some(x) => Some(DtvProperty::DTV_INVERSION(DtvPropertyRequest::new(x))),
            None => None,
        }
    } else if str_eq(k, "SYMBOL_RATE") {
        match parse_u32_str(v) {
            Some(x) => Some(DtvProperty::DTV_SYMBOL_RATE(DtvPropertyRequest::new(x))),
            None => None,
        }
    } else if str_eq(k, "INNER_FEC") {
        match fe_code_rate::from_name(v) {
            Some(x) => Some(DtvProperty::DTV_INNER_FEC(DtvPropertyRequest::new(x))),
            None => None,
        }
    } else if str_eq(k, "VOLTAGE") {
        match fe_sec_voltage::from_name(v) {
            Some(x) => Some(DtvProperty::DTV_VOLTAGE(DtvPropertyRequest::new(x))),
            None => None,
        }
    } else if str_eq(k, "TONE") {
        match fe_sec_tone_mode::from_name(v) {
            Some(x) => Some(DtvProperty::DTV_TONE(DtvPropertyRequest::new(x))),
            None => None,
        }
    } else if str_eq(k, "PILOT") {
        match fe_pilot::from_name(v) {
            Some(x) => Some(DtvProperty::DTV_PILOT(DtvPropertyRequest::new(x))),
            None => None,
        }
    } else if str_eq(k, "ROLLOFF") {
        match fe_rolloff::from_name(v) {
            Some(x) => Some(DtvProperty::DTV_ROLLOFF(DtvPropertyRequest::new(x))),
            None => None,
        }
    } else if str_eq(k, "DELIVERY_SYSTEM") {
        match fe_delivery_system::from_name(v) {
            Some(x) => Some(DtvProperty::DTV_DELIVERY_SYSTEM(DtvPropertyRequest::new(x))),
            None => None,
        }
    } else if str_eq(k, "ISDBT_PARTIAL_RECEPTION") {
        match parse_i32_str(v) {
            Some(x) => Some(DtvProperty::DTV_ISDBT_PARTIAL_RECEPTION(DtvPropertyRequest::new(x))),
            None => None,
        }
    } else if str_eq(k, "ISDBT_SOUND_BROADCASTING") {
        match parse_i32_str(v) {
            Some(x) => Some(DtvProperty::DTV_ISDBT_SOUND_BROADCASTING(DtvPropertyRequest::new(x))),
            None => None,
        }
    } else if str_eq(k, "ISDBT_SB_SUBCHANNEL_ID") {
        match parse_i32_str(v) {
            Some(x) => Some(DtvProperty::DTV_ISDBT_SB_SUBCHANNEL_ID(DtvPropertyRequest::new(x))),
            None => None,
        }
    } else if str_eq(k, "ISDBT_SB_SEGMENT_IDX") {
        match parse_i32_str(v) {
            Some(x) => Some(DtvProperty::DTV_ISDBT_SB_SEGMENT_IDX(DtvPropertyRequest::new(x))),
            None => None,
        }
    } else if str_eq(k, "ISDBT_SB_SEGMENT_COUNT") {
        match parse_u32_str(v) {
            Some(x) => Some(DtvProperty::DTV_ISDBT_SB_SEGMENT_COUNT(DtvPropertyRequest::new(x))),
            None => None,
        }
    } else if str_eq(k, "ISDBT_LAYERA_FEC") {
        match fe_code_rate::from_name(v) {
            Some(x) => Some(DtvProperty::DTV_ISDBT_LAYERA_FEC(DtvPropertyRequest::new(x))),
            None => None,
        }
    } else if str_eq(k, "ISDBT_LAYERA_MODULATION") {
        match fe_modulation::from_name(v) {
            Some(x) => Some(DtvProperty::DTV_ISDBT_LAYERA_MODULATION(DtvPropertyRequest::new(x))),
            None => None,
        }
    } else if str_eq(k, "ISDBT_LAYERA_SEGMENT_COUNT") {
        match parse_i32_str(v) {
            Some(x) => Some(DtvProperty::DTV_ISDBT_LAYERA_SEGMENT_COUNT(DtvPropertyRequest::new(x))),
            None => None,
        }
    } else if str_eq(k, "ISDBT_LAYERA_TIME_INTERLEAVING") {
        match parse_i32_str(v) {
            Some(x) => Some(DtvProperty::DTV_ISDBT_LAYERA_TIME_INTERLEAVING(DtvPropertyRequest::new(x))),
            None => None,
        }
    } else if str_eq(k, "ISDBT_LAYERB_FEC") {
        match fe_code_rate::from_name(v) {
            Some(x) => Some(DtvProperty::DTV_ISDBT_LAYERB_FEC(DtvPropertyRequest::new(x))),
            None => None,
        }
    } else if str_eq(k, "ISDBT_LAYERB_MODULATION") {
        match fe_modulation::from_name(v) {
            Some(x) => Some(DtvProperty::DTV_ISDBT_LAYERB_MODULATION(DtvPropertyRequest::new(x))),
            None => None,
        }
    } else if str_eq(k, "ISDBT_LAYERB_SEGMENT_COUNT") {
        match parse_i32_str(v) {
            Some(x) => Some(DtvProperty::DTV_ISDBT_LAYERB_SEGMENT_COUNT(DtvPropertyRequest::new(x))),
            None => None,
        }
    } else if str_eq(k, "ISDBT_LAYERB_TIME_INTERLEAVING") {
        match parse_i32_str(v) {
            Some(x) => Some(DtvProperty::DTV_ISDBT_LAYERB_TIME_INTERLEAVING(DtvPropertyRequest::new(x))),
            None => None,
        }
    } else if str_eq(k, "ISDBT_LAYERC_FEC") {
        match fe_code_rate::from_name(v) {
            Some(x) => Some(DtvProperty::DTV_ISDBT_LAYERC_FEC(DtvPropertyRequest::new(x))),
            None => None,
        }
    } else if str_eq(k, "ISDBT_LAYERC_MODULATION") {
        match fe_modulation::from_name(v) {
            Some(x) => Some(DtvProperty::DTV_ISDBT_LAYERC_MODULATION(DtvPropertyRequest::new(x))),
            None => None,
        }
    } else if str_eq(k, "ISDBT_LAYERC_SEGMENT_COUNT") {
        match parse_i32_str(v) {
            Some(x) => Some(DtvProperty::DTV_ISDBT_LAYERC_SEGMENT_COUNT(DtvPropertyRequest::new(x))),
            None => None,
        }
    } else if str_eq(k, "ISDBT_LAYERC_TIME_INTERLEAVING") {
        match parse_i32_str(v) {
            Some(x) => Some(DtvProperty::DTV_ISDBT_LAYERC_TIME_INTERLEAVING(DtvPropertyRequest::new(x))),
            None => None,
        }
    } else if str_eq(k, "CODE_RATE_HP") {
        match fe_code_rate::from_name(v) {
            Some(x) => Some(DtvProperty::DTV_CODE_RATE_HP(DtvPropertyRequest::new(x))),
            None => None,
        }
    } else if str_eq(k, "CODE_RATE_LP") {
        match fe_code_rate::from_name(v) {
            Some(x) => Some(DtvProperty::DTV_CODE_RATE_LP(DtvPropertyRequest::new(x))),
            None => None,
        }
    } else if str_eq(k, "GUARD_INTERVAL") {
        match fe_guard_interval::from_name(v) {
            Some(x) => Some(DtvProperty::DTV_GUARD_INTERVAL(DtvPropertyRequest::new(x))),
            None => None,
        }
    } else if str_eq(k, "TRANSMISSION_MODE") {
        match fe_transmit_mode::from_name(v) {
            Some(x) => Some(DtvProperty::DTV_TRANSMISSION_MODE(DtvPropertyRequest::new(x))),
            None => None,
        }
    } else if str_eq(k, "HIERARCHY") {
        match fe_hierarchy::from_name(v) {
            Some(x) => Some(DtvProperty::DTV_HIERARCHY(DtvPropertyRequest::new(x))),
            None => None,
        }
    } else if str_eq(k, "ISDBT_LAYER_ENABLED") {
        match parse_u32_str(v) {
            Some(x) => Some(DtvProperty::DTV_ISDBT_LAYER_ENABLED(DtvPropertyRequest::new(x))),
            None => None,
        }
    } else if str_eq(k, "STREAM_ID") {
        match parse_u32_str(v) {
            Some(x) => Some(DtvProperty::DTV_STREAM_ID(DtvPropertyRequest::new(x))),
            None => None,
        }
    } else if str_eq(k, "ATSCMH_FIC_VER") {
        match parse_u32_str(v) {
            Some(x) => Some(DtvProperty::DTV_ATSCMH_FIC_VER(DtvPropertyRequest::new(x))),
            None => None,
        }
    } else if str_eq(k, "ATSCMH_PARADE_ID") {
        match parse_u32_str(v) {
            Some(x) => Some(DtvProperty::DTV_ATSCMH_PARADE_ID(DtvPropertyRequest::new(x))),
            None => None,
        }
    } else if str_eq(k, "ATSCMH_NOG") {
        match parse_u32_str(v) {
            Some(x) => Some(DtvProperty::DTV_ATSCMH_NOG(DtvPropertyRequest::new(x))),
            None => None,
        }
    } else if str_eq(k, "ATSCMH_TNOG") {
        match parse_u32_str(v) {
            Some(x) => Some(DtvProperty::DTV_ATSCMH_TNOG(DtvPropertyRequest::new(x))),
            None => None,
        }
    } else if str_eq(k, "ATSCMH_SGN") {
        match parse_u32_str(v) {
            Some(x) => Some(DtvProperty::DTV_ATSCMH_SGN(DtvPropertyRequest::new(x))),
            None => None,
        }
    } else if str_eq(k, "ATSCMH_PRC") {
        match parse_u32_str(v) {
            Some(x) => Some(DtvProperty::DTV_ATSCMH_PRC(DtvPropertyRequest::new(x))),
            None => None,
        }
    } else if str_eq(k, "INTERLEAVING") {
        match fe_interleaving::from_name(v) {
            Some(x) => Some(DtvProperty::DTV_INTERLEAVING(DtvPropertyRequest::new(x))),
            None => None,
        }
    } else if str_eq(k, "LNA") {
        match fe_lna::from_name(v) {
            Some(x) => Some(DtvProperty::DTV_LNA(DtvPropertyRequest::new(x))),
            None => None,
        }
    } else {
        None
    }
}

} // verus!
