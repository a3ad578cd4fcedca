use embark_sync::data::EmbarkID;
use embark_sync::data::EmbarkIDSterilizationErrors;

fn rejected(text: &str) -> EmbarkIDSterilizationErrors {
    match EmbarkID::new(text) {
        Ok(id) => panic!("{} was read as {}", text, id.to_string()),
        Err(e) => e,
    }
}

#[test]
fn parse_then_render_pads_to_four_digits() {
    assert_eq!(EmbarkID::new("ab#7").unwrap().to_string(), "ab#0007");
    assert_eq!(EmbarkID::new("ab#07").unwrap().to_string(), "ab#0007");
    assert_eq!(EmbarkID::new("ab#0007").unwrap().to_string(), "ab#0007");
    assert_eq!(EmbarkID::new("ab#00007").unwrap().to_string(), "ab#0007");
    assert_eq!(EmbarkID::new("name#1234").unwrap().to_string(), "name#1234");
    assert_eq!(EmbarkID::new("sixteen_chars_ok#9999").unwrap().to_string(), "sixteen_chars_ok#9999");
    assert_eq!(EmbarkID::new("ab#1").unwrap().to_string(), "ab#0001");
}

#[test]
fn parse_keeps_name_and_number() {
    let id = EmbarkID::new("player#42").unwrap();
    assert_eq!(id.username(), "player");
    assert_eq!(id.numbers(), 42);
}

#[test]
fn parse_trims_both_parts() {
    let id = EmbarkID::new("  player \t# 42\n").unwrap();
    assert_eq!(id.username(), "player");
    assert_eq!(id.numbers(), 42);
    assert_eq!(id.to_string(), "player#0042");
    let id = EmbarkID::new("\u{a0}pl ayer\u{3000}#\u{2003}7").unwrap();
    assert_eq!(id.username(), "pl ayer");
    assert_eq!(id.to_string(), "pl ayer#0007");
}

#[test]
fn parse_accepts_a_plus_sign() {
    assert_eq!(EmbarkID::new("ok#+12").unwrap().numbers(), 12);
}

#[test]
fn parse_rejects_missing_separator() {
    assert_eq!(rejected("noseparator"), EmbarkIDSterilizationErrors::InvalidFormat);
    assert_eq!(rejected(""), EmbarkIDSterilizationErrors::InvalidFormat);
}

#[test]
fn parse_rejects_two_separators() {
    assert_eq!(rejected("a#b#12"), EmbarkIDSterilizationErrors::InvalidFormat);
    assert_eq!(rejected("ab##12"), EmbarkIDSterilizationErrors::InvalidFormat);
    assert_eq!(rejected("ab#12#"), EmbarkIDSterilizationErrors::InvalidFormat);
}

#[test]
fn parse_rejects_short_name() {
    assert_eq!(
        rejected("a#12"),
        EmbarkIDSterilizationErrors::UsernameMustBeBetween2And16Integers
    );
    assert_eq!(
        rejected("#12"),
        EmbarkIDSterilizationErrors::UsernameMustBeBetween2And16Integers
    );
    assert_eq!(
        rejected("  a  #12"),
        EmbarkIDSterilizationErrors::UsernameMustBeBetween2And16Integers
    );
}

#[test]
fn parse_rejects_long_name() {
    assert_eq!(
        rejected("seventeen_chars_x#1"),
        EmbarkIDSterilizationErrors::UsernameMustBeBetween2And16Integers
    );
    assert_eq!("seventeen_chars_x".len(), 17);
}

#[test]
fn name_length_is_counted_in_bytes() {
    // eight two-byte letters are 16 bytes, nine are 18
    assert_eq!(EmbarkID::new("éééééééé#1").unwrap().to_string(), "éééééééé#0001");
    assert_eq!(
        rejected("ééééééééé#1"),
        EmbarkIDSterilizationErrors::UsernameMustBeBetween2And16Integers
    );
    // one two-byte letter is long enough
    assert_eq!(EmbarkID::new("é#1").unwrap().username(), "é");
}

#[test]
fn parse_rejects_zero() {
    assert_eq!(rejected("ok#0"), EmbarkIDSterilizationErrors::NumbersMustBeValidIntegers);
    assert_eq!(rejected("ok#0000"), EmbarkIDSterilizationErrors::NumbersMustBeValidIntegers);
}

#[test]
fn parse_rejects_ten_thousand() {
    assert_eq!(rejected("ok#10000"), EmbarkIDSterilizationErrors::NumbersMustBeValidIntegers);
    assert_eq!(rejected("ok#65536"), EmbarkIDSterilizationErrors::NumbersMustBeValidIntegers);
    assert_eq!(
        rejected("ok#99999999999999999999999"),
        EmbarkIDSterilizationErrors::NumbersMustBeValidIntegers
    );
}

#[test]
fn parse_rejects_letters_as_number() {
    assert_eq!(rejected("ok#abcd"), EmbarkIDSterilizationErrors::NumbersMustBeValidIntegers);
    assert_eq!(rejected("ok#"), EmbarkIDSterilizationErrors::NumbersMustBeValidIntegers);
    assert_eq!(rejected("ok#+"), EmbarkIDSterilizationErrors::NumbersMustBeValidIntegers);
    assert_eq!(rejected("ok#-5"), EmbarkIDSterilizationErrors::NumbersMustBeValidIntegers);
    assert_eq!(rejected("ok#1 2"), EmbarkIDSterilizationErrors::NumbersMustBeValidIntegers);
    assert_eq!(rejected("ok#12a"), EmbarkIDSterilizationErrors::NumbersMustBeValidIntegers);
    assert_eq!(rejected("ok#١٢"), EmbarkIDSterilizationErrors::NumbersMustBeValidIntegers);
}

#[test]
fn name_error_comes_before_number_error() {
    assert_eq!(
        rejected("a#abcd"),
        EmbarkIDSterilizationErrors::UsernameMustBeBetween2And16Integers
    );
}

#[test]
fn render_then_parse_gives_the_same_identifier() {
    for text in ["ab#0001", "name#1234", "sixteen_chars_ok#9999"] {
        let id = EmbarkID::new(text).unwrap();
        let again = EmbarkID::new(&id.to_string()).unwrap();
        assert_eq!(again.username(), id.username());
        assert_eq!(again.numbers(), id.numbers());
        assert_eq!(again.to_string(), text);
    }
}

#[test]
fn clone_keeps_the_identifier() {
    let id = EmbarkID::new("name#12").unwrap();
    assert_eq!(id.clone().to_string(), "name#0012");
}

#[test]
fn parse_agrees_with_the_standard_number_reader() {
    let samples = [
        "1", "0", "9999", "10000", "+1", "+", "-1", "", "00001", "65535", "65536", "1_000", "1e3",
        " 1", "١", "+0009", "++1", "1+",
    ];
    for sample in samples {
        let text = format!("ok#{}", sample);
        let expected = match sample.trim().parse::<u16>() {
            Ok(n) if (1..=9999).contains(&n) => Some(n),
            _ => None,
        };
        assert_eq!(EmbarkID::new(&text).ok().map(|id| id.numbers()), expected, "{}", text);
    }
}
