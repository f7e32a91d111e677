use bet_commitment::amount::{
    fits_bit_width, parse_bet_amount, parse_decimal, MAX_BET_AMOUNT, MAX_BIT_WIDTH, RANGE_BIT_SIZE,
};
use bet_commitment::bet::BulletproofGenerator;
use bet_commitment::error::BetError;

#[test]
fn plain_numbers_are_read() {
    assert_eq!(parse_bet_amount("0"), Ok(0));
    assert_eq!(parse_bet_amount("7"), Ok(7));
    assert_eq!(parse_bet_amount("1000"), Ok(1000));
    assert_eq!(parse_bet_amount("100000"), Ok(100000));
    assert_eq!(parse_bet_amount("4294967295"), Ok(4294967295));
}

#[test]
fn plus_sign_and_leading_zeros_are_allowed() {
    assert_eq!(parse_bet_amount("+7"), Ok(7));
    assert_eq!(parse_bet_amount("+0"), Ok(0));
    assert_eq!(parse_bet_amount("007"), Ok(7));
    assert_eq!(parse_bet_amount("+0000000000000000000000000000000000004294967295"), Ok(4294967295));
    assert_eq!(parse_bet_amount("00000000000000000000000000000000000000000000"), Ok(0));
}

#[test]
fn text_that_is_no_number_is_invalid() {
    for text in [
        "", "+", "-", "-1", "-0", "++1", "+-1", "1+", " 1", "1 ", "1 2", "1_000", "1,000", "1.0", "1e3", "0x10",
        "abc", "12a", "a12", "\t5", "5\n", "\u{ff11}\u{ff12}", "1\u{0663}", "\u{00b2}", "٣",
    ] {
        assert_eq!(parse_bet_amount(text), Err(BetError::InvalidAmount), "{:?}", text);
    }
}

#[test]
fn number_beyond_the_range_is_invalid() {
    assert_eq!(parse_bet_amount("4294967296"), Err(BetError::InvalidAmount));
    assert_eq!(parse_bet_amount("+4294967296"), Err(BetError::InvalidAmount));
    assert_eq!(parse_bet_amount("10000000000"), Err(BetError::InvalidAmount));
    assert_eq!(parse_bet_amount("18446744073709551615"), Err(BetError::InvalidAmount));
    assert_eq!(parse_bet_amount("18446744073709551616"), Err(BetError::InvalidAmount));
    assert_eq!(parse_bet_amount("99999999999999999999999999999999999999999999"), Err(BetError::InvalidAmount));
    assert_eq!(parse_bet_amount("4294967296a"), Err(BetError::InvalidAmount));
}

#[test]
fn parsed_amount_can_be_bet() {
    let generator = BulletproofGenerator::new();
    let amount = parse_bet_amount("4294967295").unwrap();
    assert!(fits_bit_width(amount, generator.bit_width()));
    let bundle = generator.generate_bet_proof(amount).unwrap();
    assert_eq!(generator.verify_bet_proof(&bundle.verification_data()), Ok(true));
}

#[test]
fn decimal_reading_agrees_with_the_standard_library() {
    for text in [
        "0", "1", "+1", "-1", "", "+", "42", "0042", "18446744073709551615", "18446744073709551616",
        "+18446744073709551615", "184467440737095516150", "1 ", " 1", "12x", "x", "९", "1٣",
    ] {
        assert_eq!(parse_decimal(text, u64::MAX), text.parse::<u64>().ok(), "{:?}", text);
    }
}

#[test]
fn decimal_reading_respects_the_limit() {
    assert_eq!(parse_decimal("255", 255), Some(255));
    assert_eq!(parse_decimal("256", 255), None);
    assert_eq!(parse_decimal("0", 0), Some(0));
    assert_eq!(parse_decimal("1", 0), None);
    assert_eq!(parse_decimal("000", 0), Some(0));
    assert_eq!(parse_decimal("18446744073709551615", u64::MAX), Some(u64::MAX));
    assert_eq!(parse_decimal("18446744073709551614", u64::MAX - 1), Some(u64::MAX - 1));
    assert_eq!(parse_decimal("18446744073709551615", u64::MAX - 1), None);
}

#[test]
fn amount_fits_below_two_to_the_width() {
    assert_eq!(RANGE_BIT_SIZE, 32);
    assert_eq!(MAX_BIT_WIDTH, 64);
    assert_eq!(MAX_BET_AMOUNT, 4294967295);
    assert!(fits_bit_width(MAX_BET_AMOUNT, RANGE_BIT_SIZE));
    assert!(!fits_bit_width(MAX_BET_AMOUNT + 1, RANGE_BIT_SIZE));
    assert!(fits_bit_width(0, 0));
    assert!(!fits_bit_width(1, 0));
    assert!(fits_bit_width(1, 1));
    assert!(!fits_bit_width(2, 1));
    assert!(fits_bit_width(255, 8));
    assert!(!fits_bit_width(256, 8));
    assert!(fits_bit_width(0xffff_ffff, 32));
    assert!(!fits_bit_width(0x1_0000_0000, 32));
    assert!(fits_bit_width(0x7fff_ffff_ffff_ffff, 63));
    assert!(!fits_bit_width(0x8000_0000_0000_0000, 63));
    assert!(fits_bit_width(u64::MAX, 64));
    assert!(fits_bit_width(u64::MAX, 65));
    assert!(fits_bit_width(u64::MAX, usize::MAX));
}
