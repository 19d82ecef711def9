use ala_archa_backend::error::Error;
use ala_archa_backend::mobile_provider::{decode_ucs2_in_hex, decode_utf8_in_hex};

#[test]
fn test_ucs2_decoder() {
    let input = "04110430043b0430043d04410020003500340038002e0030003800200441002e002000310030003000300020043f044104380445043e043b043e04330438044704350441043a0438044500200442043504410442043e04320020002a00330034003100230020003500200441043e043c00200432002004340435043d044c";
    let output = decode_ucs2_in_hex(input).unwrap();
    println!("{}", output);
    assert_eq!(
        output,
        "Баланс 548.08 с. 1000 психологических тестов *341# 5 сом в день"
    );
}

#[test]
fn test_utf8_decoder() {
    let input =
        "596f752068617665203339382e303820736f6d2e20546f7020757020796f75722062616c616e63652077697468204f21426f6e75736573";
    let output = decode_utf8_in_hex(input).unwrap();
    println!("{}", output);
    assert_eq!(
        output,
        "You have 398.08 som. Top up your balance with O!Bonuses"
    );
}

#[test]
fn test_ucs2_decoder_truncated_string() {
    let expected = "Баланс 548.08 с. 1000 психологических тестов *341# 5 сом в ден";

    let input = "04110430043b0430043d04410020003500340038002e0030003800200441002e002000310030003000300020043f044104380445043e043b043e04330438044704350441043a0438044500200442043504410442043e04320020002a00330034003100230020003500200441043e043c00200432002004340435043d044";
    let output = decode_ucs2_in_hex(input).unwrap();
    assert_eq!(output, expected,);

    let input = "04110430043b0430043d04410020003500340038002e0030003800200441002e002000310030003000300020043f044104380445043e043b043e04330438044704350441043a0438044500200442043504410442043e04320020002a00330034003100230020003500200441043e043c00200432002004340435043d04";
    let output = decode_ucs2_in_hex(input).unwrap();
    assert_eq!(output, expected,);

    let input = "04110430043b0430043d04410020003500340038002e0030003800200441002e002000310030003000300020043f044104380445043e043b043e04330438044704350441043a0438044500200442043504410442043e04320020002a00330034003100230020003500200441043e043c00200432002004340435043d0";
    let output = decode_ucs2_in_hex(input).unwrap();
    assert_eq!(output, expected,);
}

#[test]
fn hex_decoders_reject_what_is_not_hex() {
    assert_eq!(decode_utf8_in_hex("zz"), Err(Error::DecodeFailure));
    assert_eq!(decode_ucs2_in_hex("00zz"), Err(Error::DecodeFailure));
    assert_eq!(decode_utf8_in_hex("+f"), Err(Error::DecodeFailure));
}

#[test]
fn hex_decoders_accept_both_cases_and_ignore_the_odd_tail() {
    assert_eq!(decode_utf8_in_hex("4A4b4"), Ok("JK".to_string()));
    assert_eq!(decode_utf8_in_hex(""), Ok(String::new()));
    assert_eq!(decode_ucs2_in_hex("004a00"), Ok("J".to_string()));
    assert_eq!(decode_ucs2_in_hex("0"), Ok(String::new()));
}

#[test]
fn utf8_decoder_rejects_invalid_utf8() {
    assert_eq!(decode_utf8_in_hex("ff"), Err(Error::DecodeFailure));
    assert_eq!(decode_utf8_in_hex("c3"), Err(Error::DecodeFailure));
}

#[test]
fn ucs2_decoder_pairs_surrogates_and_rejects_lone_ones() {
    assert_eq!(decode_ucs2_in_hex("d83dde00"), Ok("\u{1F600}".to_string()));
    assert_eq!(decode_ucs2_in_hex("d83d"), Err(Error::DecodeFailure));
    assert_eq!(decode_ucs2_in_hex("de00d83d"), Err(Error::DecodeFailure));
}
