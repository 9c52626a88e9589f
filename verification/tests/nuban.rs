use nuban::Nuban;
use nuban::NubanError;

#[test]
fn generated_nuban_is_valid() {
    let nuban_no = Nuban::new("011", "000001457");

    assert_eq!(nuban_no.full().unwrap(), "0110000014579");
}

#[test]
fn nuban_check_digit_is_valid() {
    let nuban_no = Nuban::new("011", "000001457");

    assert_eq!(nuban_no.check_digit().unwrap(), 9);
}

#[test]
fn another_account_gets_its_exact_digit() {
    let account = Nuban::new("058", "012345678");

    assert_eq!(account.check_digit(), Ok(5));
    assert_eq!(account.full().unwrap(), "0580123456785");
}

#[test]
fn check_digit_is_a_single_decimal_digit() {
    let accounts = [
        Nuban::new("011", "000001457"),
        Nuban::new("058", "012345678"),
        Nuban::new("999", "999999999"),
        Nuban::new("000", "000000001"),
    ];
    for account in accounts {
        assert!(account.check_digit().unwrap() <= 9);
    }
}

#[test]
fn repeated_calls_agree() {
    let account = Nuban::new("011", "000001457");

    assert_eq!(account.check_digit(), account.check_digit());
    assert_eq!(account.full(), account.full());
}

#[test]
fn full_is_one_character_longer_than_the_input() {
    let bank_code = "011";
    let serial_number = "000001457";
    let account = Nuban::new(bank_code, serial_number);

    let full = account.full().unwrap();
    assert_eq!(
        full.chars().count(),
        bank_code.chars().count() + serial_number.chars().count() + 1
    );
}

#[test]
fn non_digit_in_serial_number_is_rejected() {
    let account = Nuban::new("011", "00000145X");

    assert_eq!(account.check_digit(), Err(NubanError::InvalidDigit));
    assert_eq!(account.full(), Err(NubanError::InvalidDigit));
}

#[test]
fn non_digit_in_bank_code_is_rejected() {
    let account = Nuban::new("0A1", "000001457");

    assert_eq!(account.check_digit(), Err(NubanError::InvalidDigit));
}

#[test]
fn non_ascii_numeral_is_rejected() {
    // An Arabic-Indic digit is numeric but not an ASCII decimal digit.
    let account = Nuban::new("01\u{0663}", "000001457");

    assert_eq!(account.check_digit(), Err(NubanError::InvalidDigit));
}

#[test]
fn weighted_sum_divisible_by_ten_gives_digit_zero() {
    // All zeros: the weighted sum is 0, a multiple of 10, and the check
    // digit must come out as 0, never as 10.
    let account = Nuban::new("000", "000000000");

    assert_eq!(account.check_digit(), Ok(0));
    assert_eq!(account.full().unwrap(), "0000000000000");
}

#[test]
fn short_serial_number_is_rejected() {
    let account = Nuban::new("011", "1457");

    assert_eq!(account.check_digit(), Err(NubanError::InvalidLength));
    assert_eq!(account.full(), Err(NubanError::InvalidLength));
}

#[test]
fn overlong_input_is_rejected() {
    let account = Nuban::new("0110", "000001457");

    assert_eq!(account.check_digit(), Err(NubanError::InvalidLength));
}

#[test]
fn empty_input_is_rejected() {
    let account = Nuban::new("", "");

    assert_eq!(account.check_digit(), Err(NubanError::InvalidLength));
    assert_eq!(account.full(), Err(NubanError::InvalidLength));
}

#[test]
fn length_is_checked_before_the_characters() {
    // Too short and holding a non-digit: the length error wins.
    let account = Nuban::new("011", "14X7");

    assert_eq!(account.check_digit(), Err(NubanError::InvalidLength));
}
