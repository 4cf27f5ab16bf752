use furtherance::helpers::color_utils::{random_color, FromHex, HexError, Rgb};
use furtherance::helpers::text::{is_whitespace, trim, trim_start};
use furtherance::helpers::views::task_input::{
    has_max_two_decimals, rate_candidate, validate_task_input,
};

fn rate_reads(input: &str) -> bool {
    match rate_candidate(input) {
        Some(number) => {
            let parsed = number.parse::<f32>();
            parsed.is_ok() && parsed.unwrap_or(f32::MAX) < f32::MAX
        }
        None => false,
    }
}

fn typed(before: &str, input: &str, timer_running: bool) -> (bool, String) {
    let mut task_input = before.to_string();
    let taken = validate_task_input(&mut task_input, input, timer_running, rate_reads(input));
    (taken, task_input)
}

#[test]
fn plain_names_are_taken() {
    assert_eq!(typed("", "write report", false), (true, "write report".to_string()));
    assert_eq!(typed("old", "  write report ", false), (true, "write report ".to_string()));
    assert_eq!(typed("old", "", false), (true, String::new()));
}

#[test]
fn blank_input_is_refused_while_the_timer_runs() {
    assert_eq!(typed("old", "", true), (false, "old".to_string()));
    assert_eq!(typed("old", "   ", true), (false, "old".to_string()));
    assert_eq!(typed("old", " \t\u{a0} ", true), (false, "old".to_string()));
    assert_eq!(typed("old", "   ", false), (true, String::new()));
    assert_eq!(typed("old", "x", true), (true, "x".to_string()));
}

#[test]
fn input_may_not_begin_with_a_mark() {
    assert_eq!(typed("old", "@project", false), (false, "old".to_string()));
    assert_eq!(typed("old", "#tag", false), (false, "old".to_string()));
    assert_eq!(typed("old", "$5", false), (false, "old".to_string()));
    assert_eq!(typed("old", "  @project", false), (false, "old".to_string()));
}

#[test]
fn at_most_one_project_and_one_rate() {
    assert_eq!(typed("old", "task @a @b", false), (false, "old".to_string()));
    assert_eq!(typed("old", "task $1 $2", false), (false, "old".to_string()));
    assert_eq!(typed("old", "task @a #x #y", false), (true, "task @a #x #y".to_string()));
}

#[test]
fn a_dollar_may_end_the_input() {
    assert_eq!(typed("old", "task $", false), (true, "task $".to_string()));
}

#[test]
fn a_rate_must_read_as_a_number_with_at_most_two_decimals() {
    assert_eq!(typed("old", "task $5", false), (true, "task $5".to_string()));
    assert_eq!(typed("old", "task $5.", false), (true, "task $5.".to_string()));
    assert_eq!(typed("old", "task $5.2", false), (true, "task $5.2".to_string()));
    assert_eq!(typed("old", "task $5.25", false), (true, "task $5.25".to_string()));
    assert_eq!(typed("old", "task $5.255", false), (false, "old".to_string()));
    assert_eq!(typed("old", "task $5.2.5", false), (false, "old".to_string()));
    assert_eq!(typed("old", "task $abc", false), (false, "old".to_string()));
    assert_eq!(typed("old", "task $ 5", false), (false, "old".to_string()));
    assert_eq!(typed("old", "task $inf", false), (false, "old".to_string()));
}

#[test]
fn after_the_rate_only_a_project_or_tags_may_follow() {
    assert_eq!(typed("old", "task $5 ", false), (true, "task $5 ".to_string()));
    assert_eq!(typed("old", "task $5 @p", false), (true, "task $5 @p".to_string()));
    assert_eq!(typed("old", "task $5   #t", false), (true, "task $5   #t".to_string()));
    assert_eq!(typed("old", "task $5 more", false), (false, "old".to_string()));
    assert_eq!(typed("old", "task $5@p", false), (false, "old".to_string()));
}

#[test]
fn refusal_does_not_depend_on_a_rate_that_is_not_written() {
    let mut task_input = "old".to_string();
    assert!(validate_task_input(&mut task_input, "no rate here", false, false));
    assert_eq!(task_input, "no rate here");
}

#[test]
fn rate_candidate_is_what_stands_after_the_dollar() {
    assert_eq!(rate_candidate("task $5.25 @p"), Some("5.25".to_string()));
    assert_eq!(rate_candidate("task $5.25"), Some("5.25".to_string()));
    assert_eq!(rate_candidate("task $ x"), Some(String::new()));
    assert_eq!(rate_candidate("task $"), None);
    assert_eq!(rate_candidate("task"), None);
    assert_eq!(rate_candidate(""), None);
    assert_eq!(rate_candidate("   t\u{e4}sk $7 #x"), Some("7".to_string()));
}

#[test]
fn trim_start_drops_leading_white_space_only() {
    assert_eq!(trim_start("  a b  "), "a b  ");
    assert_eq!(trim_start("\t\n\u{2003}x"), "x");
    assert_eq!(trim_start(""), "");
    assert_eq!(trim_start("   "), "");
    assert_eq!(trim_start("x"), "x");
}

#[test]
fn two_decimals_at_most() {
    assert!(has_max_two_decimals("5"));
    assert!(has_max_two_decimals(""));
    assert!(has_max_two_decimals("5."));
    assert!(has_max_two_decimals("5.2"));
    assert!(has_max_two_decimals("5.25"));
    assert!(has_max_two_decimals(".25"));
    assert!(!has_max_two_decimals("5.255"));
    assert!(!has_max_two_decimals("5.2.5"));
    assert!(!has_max_two_decimals(".."));
    // The decimals are counted in bytes.
    assert!(has_max_two_decimals("1.\u{e9}"));
    assert!(!has_max_two_decimals("1.\u{e9}\u{e9}"));
}

#[test]
fn colours_are_read_from_hexadecimal_text() {
    assert_eq!(Rgb::from_hex("#a97bdb"), Ok(Rgb { red: 0xa9, green: 0x7b, blue: 0xdb }));
    assert_eq!(Rgb::from_hex("A97BDB"), Ok(Rgb { red: 0xa9, green: 0x7b, blue: 0xdb }));
    assert_eq!(Rgb::from_hex("##000000"), Ok(Rgb { red: 0, green: 0, blue: 0 }));
    assert_eq!(Rgb::from_hex("#ffffff"), Ok(Rgb { red: 255, green: 255, blue: 255 }));
    assert_eq!(Rgb::from_hex("#0102030405"), Ok(Rgb { red: 1, green: 2, blue: 3 }));
    assert_eq!(Rgb::from_hex("#+a+b+c"), Ok(Rgb { red: 10, green: 11, blue: 12 }));
}

#[test]
fn text_that_is_no_colour_is_refused() {
    assert_eq!(Rgb::from_hex("#a97bd"), Err(HexError::TooShort));
    assert_eq!(Rgb::from_hex(""), Err(HexError::TooShort));
    assert_eq!(Rgb::from_hex("#"), Err(HexError::TooShort));
    assert_eq!(Rgb::from_hex("#a97bdg"), Err(HexError::InvalidDigit));
    assert_eq!(Rgb::from_hex("#-a7bdb0"), Err(HexError::InvalidDigit));
    assert_eq!(Rgb::from_hex("#a+7bdb0"), Err(HexError::InvalidDigit));
    assert_eq!(Rgb::from_hex("a9#7bdb"), Err(HexError::InvalidDigit));
}

#[test]
fn trim_drops_white_space_at_both_ends() {
    assert_eq!(trim("  a b  "), "a b");
    assert_eq!(trim("\t\n\u{2003}x\u{a0}\r\n"), "x");
    assert_eq!(trim(""), "");
    assert_eq!(trim("   "), "");
    assert_eq!(trim("x"), "x");
    for text in ["  a b  ", "\u{3000}wide\u{3000}", " \u{200b} ", "\u{85}x"] {
        assert_eq!(trim(text), text.trim());
        assert_eq!(trim_start(text), text.trim_start());
    }
}

#[test]
fn a_number_stands_for_a_colour() {
    assert_eq!(random_color(0), "#000000");
    assert_eq!(random_color(0x00a9_7bdb), "#a97bdb");
    assert_eq!(random_color(0xffa9_7bdb), "#a97bdb");
    assert_eq!(random_color(u32::MAX), "#ffffff");
    assert_eq!(random_color(0x0000_000f), "#00000f");
    for sample in [1u32, 0x123456, 0xfedcba98, 0x0100_0000] {
        assert_eq!(random_color(sample), format!("#{:06x}", sample & 0xFFFFFF));
        assert!(Rgb::from_hex(&random_color(sample)).is_ok());
    }
}

#[test]
fn white_space_is_what_unicode_says() {
    let mut count = 0;
    for code in 0..=0x10_ffffu32 {
        if let Some(c) = char::from_u32(code) {
            assert_eq!(is_whitespace(c), c.is_whitespace(), "U+{:04X}", code);
            if is_whitespace(c) {
                count += 1;
            }
        }
    }
    assert_eq!(count, 25);
    assert!(is_whitespace(' '));
    assert!(is_whitespace('\u{3000}'));
    assert!(!is_whitespace('\u{200b}'));
    assert!(!is_whitespace('a'));
}
