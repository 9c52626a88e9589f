//! Check digits for Nigerian Uniform Bank Account Numbers (NUBAN).
//!
//! A NUBAN is a 13-character identifier: a 3-digit bank code, a 9-digit
//! account serial number, and one trailing check digit.  The check digit is
//! a weighted sum modulo 10 over the 12 leading digits.  This crate computes
//! that digit and assembles the full account number, rejecting inputs that
//! are not exactly 12 decimal digits.

use vstd::prelude::*;

verus! {

/// Why a bank code and serial number pair was rejected.
#[derive(Clone, Copy, Debug, PartialEq, Eq, Structural)]
pub enum NubanError {
    /// The concatenated bank code and serial number is not exactly 12 characters.
    InvalidLength,
    /// A character among the 12 required positions is not an ASCII decimal digit.
    InvalidDigit,
}

/// An account identified by its bank code and serial number.
///
/// Conventionally the bank code has 3 characters and the serial number 9;
/// only their concatenation being exactly 12 decimal digits matters to the
/// check-digit computation.  The value is immutable once constructed.
#[derive(Debug)]
pub struct Nuban {
    bank_code: String,
    serial_number: String,
}

/// The mathematical content of a [`Nuban`]: its two fields as character sequences.
pub ghost struct NubanView {
    pub bank_code: Seq<char>,
    pub serial_number: Seq<char>,
}

impl View for Nuban {
    type V = NubanView;

    closed spec fn view(&self) -> NubanView {
        NubanView { bank_code: self.bank_code@, serial_number: self.serial_number@ }
    }
}

/// The characters the check digit is computed over: bank code, then serial number.
pub open spec fn account_chars(v: NubanView) -> Seq<char> {
    v.bank_code + v.serial_number
}

/// Whether `c` is an ASCII decimal digit.
pub open spec fn is_digit_char(c: char) -> bool {
    '0' <= c && c <= '9'
}

/// The numeric value of an ASCII decimal digit character.
pub open spec fn digit_of_char(c: char) -> int
    recommends
        is_digit_char(c),
{
    c as int - '0' as int
}

/// Whether every character of `s` is an ASCII decimal digit.
pub open spec fn all_digits(s: Seq<char>) -> bool {
    forall|i: int| 0 <= i < s.len() ==> is_digit_char(#[trigger] s[i])
}

/// A well-formed account: exactly 12 characters in all, each a decimal digit.
pub open spec fn valid_account(v: NubanView) -> bool {
    account_chars(v).len() == 12 && all_digits(account_chars(v))
}

/// The ASCII character of a decimal digit value.
pub open spec fn char_of_digit(d: int) -> char
    recommends
        0 <= d <= 9,
{
    if d == 0 {
        '0'
    } else if d == 1 {
        '1'
    } else if d == 2 {
        '2'
    } else if d == 3 {
        '3'
    } else if d == 4 {
        '4'
    } else if d == 5 {
        '5'
    } else if d == 6 {
        '6'
    } else if d == 7 {
        '7'
    } else if d == 8 {
        '8'
    } else {
        '9'
    }
}

/// The NUBAN weighted sum over 12 digit characters: weight 3 on positions
/// 0, 2, 3, 5, 6, 8, 9 and 11, weight 7 on positions 1, 4, 7 and 10.
pub open spec fn weighted_sum(s: Seq<char>) -> int
    recommends
        s.len() == 12,
{
    3 * (digit_of_char(s[0]) + digit_of_char(s[2]) + digit_of_char(s[3]) + digit_of_char(s[5])
        + digit_of_char(s[6]) + digit_of_char(s[8]) + digit_of_char(s[9]) + digit_of_char(s[11]))
        + 7 * (digit_of_char(s[1]) + digit_of_char(s[4]) + digit_of_char(s[7])
        + digit_of_char(s[10]))
}

/// The check digit of 12 digit characters.  The outer modulo maps a weighted
/// sum that is divisible by 10 to the digit 0, never to 10.
pub open spec fn spec_check_digit(s: Seq<char>) -> int {
    (10 - weighted_sum(s) % 10) % 10
}

/// What [`Nuban::check_digit`] returns for each account value: the length is
/// checked first, then every character, and the digit comes out only for a
/// well-formed account.
pub open spec fn check_digit_result(v: NubanView) -> Result<u8, NubanError> {
    if account_chars(v).len() != 12 {
        Err(NubanError::InvalidLength)
    } else if !all_digits(account_chars(v)) {
        Err(NubanError::InvalidDigit)
    } else {
        Ok(spec_check_digit(account_chars(v)) as u8)
    }
}

/// The 13 characters of the full account number of a well-formed account:
/// the 12 account characters followed by the check digit.
pub open spec fn full_chars(v: NubanView) -> Seq<char>
    recommends
        valid_account(v),
{
    account_chars(v).push(char_of_digit(spec_check_digit(account_chars(v))))
}

/// The one-character string holding a decimal digit value.
fn digit_str(d: u8) -> (r: &'static str)
    requires
        d <= 9,
    ensures
        r@ == seq![char_of_digit(d as int)],
{
    proof {
        reveal_strlit("0");
        reveal_strlit("1");
        reveal_strlit("2");
        reveal_strlit("3");
        reveal_strlit("4");
        reveal_strlit("5");
        reveal_strlit("6");
        reveal_strlit("7");
        reveal_strlit("8");
        reveal_strlit("9");
    }
    let r: &'static str = if d == 0 {
        "0"
    } else if d == 1 {
        "1"
    } else if d == 2 {
        "2"
    } else if d == 3 {
        "3"
    } else if d == 4 {
        "4"
    } else if d == 5 {
        "5"
    } else if d == 6 {
        "6"
    } else if d == 7 {
        "7"
    } else if d == 8 {
        "8"
    } else {
        "9"
    };
    proof {
        assert(r@ =~= seq![char_of_digit(d as int)]);
    }
    r
}

impl Nuban {
    /// Builds an account value from caller-supplied strings.
    ///
    /// No validation happens here; malformed input is reported by
    /// [`Nuban::check_digit`] and [`Nuban::full`].
    pub fn new(bankcode: &str, serialnumber: &str) -> (r: Nuban)
        ensures
            r@.bank_code == bankcode@,
            r@.serial_number == serialnumber@,
    {
        Nuban { bank_code: bankcode.to_owned(), serial_number: serialnumber.to_owned() }
    }

    /// Validates the account and parses its 12 digit values in one upfront
    /// pass, so that the arithmetic later indexes plain numbers and never a
    /// live string.
    fn digit_values(&self) -> (r: Result<Vec<u8>, NubanError>)
        ensures
            match r {
                Ok(ds) => valid_account(self@) && ds@.len() == 12 && forall|i: int|
                    0 <= i < 12 ==> #[trigger] ds@[i] == digit_of_char(account_chars(self@)[i])
                        && ds@[i] <= 9,
                Err(e) => check_digit_result(self@) == Err::<u8, NubanError>(e),
            },
    {
        let combined: String = self.bank_code.clone().concat(self.serial_number.as_str());
        if combined.as_str().unicode_len() != 12 {
            return Err(NubanError::InvalidLength);
        }
        let mut ds: Vec<u8> = Vec::new();
        let mut i: usize = 0;
        while i < 12
            invariant
                combined@ == account_chars(self@),
                combined@.len() == 12,
                i <= 12,
                ds@.len() == i,
                forall|j: int| 0 <= j < i ==> is_digit_char(#[trigger] combined@[j]),
                forall|j: int| 0 <= j < i ==> #[trigger] ds@[j] == digit_of_char(combined@[j])
                    && ds@[j] <= 9,
            decreases 12 - i,
        {
            let c: char = combined.as_str().get_char(i);
            let code: u32 = c as u32;
            if code < 48 || code > 57 {
                assert(!is_digit_char(account_chars(self@)[i as int]));
                return Err(NubanError::InvalidDigit);
            }
            ds.push((code - 48) as u8);
            i += 1;
        }
        Ok(ds)
    }

    /// Computes the check digit of this account.
    ///
    /// Returns `Ok` with the digit exactly when the concatenated bank code
    /// and serial number is 12 decimal digits; otherwise the fitting error.
    /// A pure function of the account value, with no side effects.
    pub fn check_digit(&self) -> (r: Result<u8, NubanError>)
        ensures
            r == check_digit_result(self@),
            r matches Ok(d) ==> d <= 9,
    {
        let ds: Vec<u8> = match self.digit_values() {
            Ok(ds) => ds,
            Err(e) => {
                return Err(e);
            },
        };
        let sum3: u32 = ds[0] as u32 + ds[2] as u32 + ds[3] as u32 + ds[5] as u32 + ds[6] as u32
            + ds[8] as u32 + ds[9] as u32 + ds[11] as u32;
        let sum7: u32 = ds[1] as u32 + ds[4] as u32 + ds[7] as u32 + ds[10] as u32;
        let weighted: u32 = 3 * sum3 + 7 * sum7;
        assert(weighted as int == weighted_sum(account_chars(self@)));
        let digit: u32 = (10 - weighted % 10) % 10;
        proof {
            lemma_check_digit_range(account_chars(self@));
        }
        Ok(digit as u8)
    }

    /// Assembles the full 13-character account number: bank code, serial
    /// number, check digit.
    ///
    /// Succeeds exactly when [`Nuban::check_digit`] does, and the result is
    /// always one character longer than the two inputs together.  A pure
    /// function of the account value, with no side effects.
    pub fn full(&self) -> (r: Result<String, NubanError>)
        ensures
            match r {
                Ok(s) => valid_account(self@) && s@ == full_chars(self@) && s@.len()
                    == self@.bank_code.len() + self@.serial_number.len() + 1,
                Err(e) => check_digit_result(self@) == Err::<u8, NubanError>(e),
            },
    {
        let d: u8 = match self.check_digit() {
            Ok(d) => d,
            Err(e) => {
                return Err(e);
            },
        };
        let full_nuban: String = self.bank_code.clone().concat(self.serial_number.as_str())
            .concat(digit_str(d));
        proof {
            assert(full_nuban@ =~= full_chars(self@));
        }
        Ok(full_nuban)
    }
}

/// The check digit is always a single decimal digit: for every input sequence
/// the computation lands in the range 0 to 9, also when the weighted sum is
/// divisible by 10.
pub proof fn lemma_check_digit_range(s: Seq<char>)
    ensures
        0 <= spec_check_digit(s) <= 9,
{
}

/// Determinism: the check digit and the full account number are pure
/// functions of the account value, so two accounts holding the same bank
/// code and serial number yield the same results, call after call.
pub proof fn lemma_deterministic(a: NubanView, b: NubanView)
    requires
        a.bank_code == b.bank_code,
        a.serial_number == b.serial_number,
    ensures
        check_digit_result(a) == check_digit_result(b),
        full_chars(a) == full_chars(b),
{
    assert(a == b);
}

} // verus!
