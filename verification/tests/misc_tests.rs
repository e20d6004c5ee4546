use modulo::misc::{
    escape_backticks, escape_markdown, format_duration, push_decimal, push_duration, push_signed_decimal,
    LeaveError, Response,
};

#[test]
fn format_duration_zero() {
    assert_eq!(format_duration(0), "0:00");
}

#[test]
fn format_duration_pads_seconds() {
    assert_eq!(format_duration(75), "1:15");
    assert_eq!(format_duration(5), "0:05");
    assert_eq!(format_duration(60), "1:00");
    assert_eq!(format_duration(59), "0:59");
}

#[test]
fn format_duration_has_no_hours() {
    assert_eq!(format_duration(3661), "61:01");
    assert_eq!(format_duration(360000), "6000:00");
}

#[test]
fn format_duration_largest_value() {
    assert_eq!(format_duration(u64::MAX), format!("{}:{:0>2}", u64::MAX / 60, u64::MAX % 60));
}

#[test]
fn push_duration_appends() {
    let mut out = String::from("at ");
    push_duration(&mut out, 125);
    assert_eq!(out, "at 2:05");
}

#[test]
fn push_decimal_writes_numerals() {
    for n in [0u64, 7, 10, 99, 100, 12345, u64::MAX] {
        let mut out = String::from("n=");
        push_decimal(&mut out, n);
        assert_eq!(out, format!("n={}", n));
    }
}

#[test]
fn push_signed_decimal_writes_sign() {
    for n in [0i64, -1, 1, -10, 42, i64::MIN, i64::MAX, -2147483648] {
        let mut out = String::new();
        push_signed_decimal(&mut out, n);
        assert_eq!(out, format!("{}", n));
    }
}

#[test]
fn escape_markdown_leaves_plain_text() {
    assert_eq!(escape_markdown("Space Debris"), "Space Debris");
    assert_eq!(escape_markdown(""), "");
    assert_eq!(escape_markdown("a.b,c!d?e"), "a.b,c!d?e");
}

#[test]
fn escape_markdown_escapes_each_special_character() {
    for c in ['*', '_', '~', '[', ']', '(', ')', '<', '>', '-', '#', '`', '\\'] {
        let input = format!("a{}b", c);
        assert_eq!(escape_markdown(&input), format!("a\\{}b", c));
    }
}

#[test]
fn escape_markdown_escapes_in_one_pass() {
    assert_eq!(escape_markdown("*bold* _it_"), "\\*bold\\* \\_it\\_");
    assert_eq!(escape_markdown("[x](y)"), "\\[x\\]\\(y\\)");
    assert_eq!(escape_markdown("a\\*"), "a\\\\\\*");
}

#[test]
fn escape_markdown_twice_doubles_backslashes() {
    let once = escape_markdown("*");
    assert_eq!(once, "\\*");
    assert_eq!(escape_markdown(&once), "\\\\\\*");
}

#[test]
fn escape_markdown_output_has_no_unescaped_special() {
    let specials = ['*', '_', '~', '[', ']', '(', ')', '<', '>', '-', '#', '`', '\\'];
    for input in ["**x**", "a_b-c#d", "\\\\", "~~~", "plain", "é*ü", "<@1234> `code`"] {
        let escaped: Vec<char> = escape_markdown(input).chars().collect();
        let mut i = 0;
        let mut shown = String::new();
        while i < escaped.len() {
            if escaped[i] == '\\' {
                assert!(i + 1 < escaped.len());
                assert!(specials.contains(&escaped[i + 1]));
                shown.push(escaped[i + 1]);
                i += 2;
            } else {
                assert!(!specials.contains(&escaped[i]));
                shown.push(escaped[i]);
                i += 1;
            }
        }
        assert_eq!(shown, input);
    }
}

#[test]
fn escape_backticks_only_touches_backticks() {
    assert_eq!(escape_backticks("a`b"), "a\\`b");
    assert_eq!(escape_backticks("```"), "\\`\\`\\`");
    assert_eq!(escape_backticks("*_~"), "*_~");
    assert_eq!(escape_backticks(""), "");
}

#[test]
fn response_kinds() {
    let public = Response::public("hello".to_string());
    assert_eq!(public.text, "hello");
    assert!(!public.ephemeral);
    let private = Response::private("psst".to_string());
    assert_eq!(private.text, "psst");
    assert!(private.ephemeral);
}

#[test]
fn leave_error_texts() {
    assert_eq!(LeaveError::NotInVoiceChannel.text(), "The bot is not in a voice channel");
    assert_eq!(LeaveError::Transport.text(), "Error leaving the voice channel");
}
