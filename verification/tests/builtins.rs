use sbsh::cmd_runner::small_utils::cd_home;
use sbsh::decimal::char_is_digit;
use sbsh::cmd_runner::small_utils::exit_code;
use sbsh::decimal::parse_decimal_i32;
use sbsh::text::split_whitespace;

fn strings(words: &[&str]) -> Vec<String> {
    words.iter().map(|word| word.to_string()).collect()
}

#[test]
fn exit_7_ends_with_code_7() {
    assert_eq!(exit_code(&split_whitespace("exit 7")), 7);
}

#[test]
fn exit_without_argument_ends_with_code_0() {
    assert_eq!(exit_code(&split_whitespace("exit")), 0);
    assert_eq!(exit_code(&strings(&[])), 0);
}

#[test]
fn exit_abc_ends_with_code_0() {
    assert_eq!(exit_code(&split_whitespace("exit abc")), 0);
}

#[test]
fn exit_reads_its_first_argument_only() {
    assert_eq!(exit_code(&strings(&["exit", "3", "4"])), 3);
    assert_eq!(exit_code(&strings(&["exit", "x", "4"])), 0);
}

#[test]
fn exit_takes_signs_and_the_whole_range_of_i32() {
    assert_eq!(exit_code(&strings(&["exit", "+7"])), 7);
    assert_eq!(exit_code(&strings(&["exit", "-1"])), -1);
    assert_eq!(exit_code(&strings(&["exit", "007"])), 7);
    assert_eq!(exit_code(&strings(&["exit", "2147483647"])), 2147483647);
    assert_eq!(exit_code(&strings(&["exit", "-2147483648"])), -2147483648);
}

#[test]
fn exit_with_a_number_out_of_range_ends_with_code_0() {
    assert_eq!(exit_code(&strings(&["exit", "2147483648"])), 0);
    assert_eq!(exit_code(&strings(&["exit", "-2147483649"])), 0);
    assert_eq!(exit_code(&strings(&["exit", "99999999999999999999999999"])), 0);
}

#[test]
fn parse_decimal_i32_agrees_with_std() {
    let texts = [
        "", "0", "7", "+7", "-7", "-0", "+0", "+", "-", "--1", "+-1", "1+", "7x", "x7", " 7", "7 ",
        "0x10", "1_000", "1.0", "1e3", "٣", "７", "007", "0000000000000000000000012",
        "2147483647", "2147483648", "-2147483648", "-2147483649", "4294967296",
        "21474836470", "-21474836480", "9223372036854775807", "99999999999999999999",
        "2147483639", "2147483640", "214748364", "-214748365",
    ];
    for text in texts {
        assert_eq!(parse_decimal_i32(text), text.parse::<i32>().ok(), "{text:?}");
    }
}

#[test]
fn parse_decimal_i32_agrees_with_std_near_the_limits() {
    for value in (i32::MIN as i64 - 20)..(i32::MIN as i64 + 20) {
        let text = value.to_string();
        assert_eq!(parse_decimal_i32(&text), text.parse::<i32>().ok(), "{text}");
    }
    for value in (i32::MAX as i64 - 20)..(i32::MAX as i64 + 20) {
        let text = value.to_string();
        assert_eq!(parse_decimal_i32(&text), text.parse::<i32>().ok(), "{text}");
    }
    for value in -1000..1000_i32 {
        assert_eq!(parse_decimal_i32(&value.to_string()), Some(value));
    }
}

#[test]
fn char_is_digit_knows_the_ascii_digits() {
    for code in 0..=0x10FFFF_u32 {
        if let Some(c) = char::from_u32(code) {
            assert_eq!(char_is_digit(c), c.is_ascii_digit(), "U+{code:04X}");
        }
    }
}

#[test]
fn cd_without_argument_goes_home() {
    assert_eq!(cd_home(Some("/home/me".to_string())), "/home/me");
    assert_eq!(cd_home(Some(String::new())), "");
}

#[test]
fn cd_without_argument_and_home_goes_to_the_root() {
    assert_eq!(cd_home(None), "/");
}

#[test]
fn clr_erases_the_screen_and_homes_the_cursor() {
    assert_eq!(sbsh::cmd_runner::small_utils::clear_sequence(), "\u{1b}[2J\u{1b}[H");
}
