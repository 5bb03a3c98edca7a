use weather_cli::text::{
    append_digits, append_zero_padded, decimal, escape_html, fill, fixed_text, join,
    magnitude_of, pad_right, repeat, round_to_nearest, shift_right, str_equals, truncating_div,
};

#[test]
fn decimal_numerals() {
    assert_eq!(decimal(0), "0");
    assert_eq!(decimal(7), "7");
    assert_eq!(decimal(10), "10");
    assert_eq!(decimal(1013), "1013");
    assert_eq!(decimal(1_000_000), "1000000");
    assert_eq!(decimal(u64::MAX), "18446744073709551615");
    for n in [0u64, 1, 9, 10, 11, 99, 100, 101, 12_345, 9_999_999_999] {
        assert_eq!(decimal(n), n.to_string());
    }
}

#[test]
fn digits_are_appended_to_what_is_there() {
    let mut out = String::from("n=");
    append_digits(&mut out, 42);
    assert_eq!(out, "n=42");
    append_zero_padded(&mut out, 7, 3);
    assert_eq!(out, "n=42007");
    append_zero_padded(&mut out, 12_345, 2);
    assert_eq!(out, "n=4200745");
    append_zero_padded(&mut out, 9, 0);
    assert_eq!(out, "n=4200745");
}

#[test]
fn fixed_point_numerals() {
    assert_eq!(fixed_text(0, 0), "0");
    assert_eq!(fixed_text(0, 1), "0.0");
    assert_eq!(fixed_text(0, 3), "0.000");
    assert_eq!(fixed_text(200, 1), "20.0");
    assert_eq!(fixed_text(205, 1), "20.5");
    assert_eq!(fixed_text(-205, 1), "-20.5");
    assert_eq!(fixed_text(-5, 1), "-0.5");
    assert_eq!(fixed_text(5, 2), "0.05");
    assert_eq!(fixed_text(-5, 3), "-0.005");
    assert_eq!(fixed_text(51_509, 3), "51.509");
    assert_eq!(fixed_text(-12, 0), "-12");
    assert_eq!(fixed_text(i64::MAX, 3), "9223372036854775.807");
    assert_eq!(fixed_text(i64::MIN, 3), "-9223372036854775.808");
    assert_eq!(fixed_text(i64::MIN, 0), "-9223372036854775808");
    assert_eq!(fixed_text(12_345, 5), "0.12345");
    assert_eq!(fixed_text(12_345, 6), "0.012345");
    assert_eq!(fixed_text(-1, 20), "-0.00000000000000000001");
    assert_eq!(fixed_text(i64::MAX, 19), "0.9223372036854775807");
    assert_eq!(fixed_text(7, 255), format!("0.{}7", "0".repeat(254)));
}

#[test]
fn fixed_point_agrees_with_float_formatting_off_ties() {
    for v in [-12_345i64, -1_001, -999, -1, 0, 1, 999, 1_001, 12_345, 293_150] {
        assert_eq!(fixed_text(v, 3), format!("{:.3}", v as f64 / 1000.0));
    }
    for v in [-1_234i64, -11, -1, 1, 9, 10, 11, 200, 1_234] {
        assert_eq!(fixed_text(v, 1), format!("{:.1}", v as f64 / 10.0));
        assert_eq!(fixed_text(v, 2), format!("{:.2}", v as f64 / 100.0));
    }
}

#[test]
fn rounding_to_nearest() {
    assert_eq!(round_to_nearest(0, 100), 0);
    assert_eq!(round_to_nearest(49, 100), 0);
    assert_eq!(round_to_nearest(50, 100), 1);
    assert_eq!(round_to_nearest(149, 100), 1);
    assert_eq!(round_to_nearest(150, 100), 2);
    assert_eq!(round_to_nearest(-49, 100), 0);
    assert_eq!(round_to_nearest(-50, 100), -1);
    assert_eq!(round_to_nearest(-51, 100), -1);
    assert_eq!(round_to_nearest(-150, 100), -2);
    assert_eq!(round_to_nearest(7, 1), 7);
    assert_eq!(round_to_nearest(-7, 1), -7);
    assert_eq!(round_to_nearest(1, 2), 1);
    assert_eq!(round_to_nearest(-1, 2), -1);
    assert_eq!(round_to_nearest(1, 3), 0);
    assert_eq!(round_to_nearest(2, 3), 1);
    assert_eq!(round_to_nearest(1_000_000_000_000_000, 1), 1_000_000_000_000_000);
    assert_eq!(round_to_nearest(-1_000_000_000_000_000, 4_294_967_296), -232_831);
    assert_eq!(round_to_nearest(i64::MAX, 1), i64::MAX);
    assert_eq!(round_to_nearest(i64::MIN, 1), i64::MIN);
    assert_eq!(round_to_nearest(i64::MAX, i64::MAX), 1);
    assert_eq!(round_to_nearest(i64::MIN, i64::MAX), -1);
    assert_eq!(round_to_nearest(i64::MAX, 2), 4_611_686_018_427_387_904);
    assert_eq!(round_to_nearest(i64::MIN, 2), -4_611_686_018_427_387_904);
    assert_eq!(round_to_nearest(4_611_686_018_427_387_903, i64::MAX), 0);
    assert_eq!(round_to_nearest(4_611_686_018_427_387_904, i64::MAX), 1);
}

#[test]
fn rounding_agrees_with_float_rounding() {
    for n in -2_000i64..2_000 {
        for d in [1i64, 2, 3, 7, 10, 100, 500] {
            assert_eq!(round_to_nearest(n, d), (n as f64 / d as f64).round() as i64, "{}/{}", n, d);
        }
    }
}

#[test]
fn truncating_division() {
    assert_eq!(truncating_div(7200, 3600), 2);
    assert_eq!(truncating_div(7199, 3600), 1);
    assert_eq!(truncating_div(-7199, 3600), -1);
    assert_eq!(truncating_div(-7200, 3600), -2);
    assert_eq!(truncating_div(-1, 3600), 0);
    assert_eq!(truncating_div(0, 1), 0);
    assert_eq!(truncating_div(i64::MIN, 1), i64::MIN);
    assert_eq!(truncating_div(i64::MIN, 2), i64::MIN / 2);
    assert_eq!(truncating_div(i64::MAX, i64::MAX), 1);
    for n in -50i64..50 {
        for d in 1i64..9 {
            assert_eq!(truncating_div(n, d), n / d);
        }
    }
}

#[test]
fn magnitudes() {
    assert_eq!(magnitude_of(0), 0);
    assert_eq!(magnitude_of(5), 5);
    assert_eq!(magnitude_of(-5), 5);
    assert_eq!(magnitude_of(i64::MAX), 9_223_372_036_854_775_807);
    assert_eq!(magnitude_of(i64::MIN), 9_223_372_036_854_775_808);
}

#[test]
fn strings_are_compared_by_their_characters() {
    assert!(str_equals("", ""));
    assert!(str_equals("01d", "01d"));
    assert!(!str_equals("01d", "01n"));
    assert!(!str_equals("01d", "01"));
    assert!(!str_equals("01", "01d"));
    assert!(str_equals("☀️", "☀️"));
    assert!(!str_equals("☀️", "☀"));
    assert!(!str_equals("é", "e\u{301}"));
}

#[test]
fn joining_and_repeating() {
    assert_eq!(join("", ""), "");
    assert_eq!(join("a", "b"), "ab");
    assert_eq!(join("20.0", "°C"), "20.0°C");
    assert_eq!(repeat("=", 0), "");
    assert_eq!(repeat("=", 3), "===");
    assert_eq!(repeat("─", 40), "─".repeat(40));
    assert_eq!(repeat("ab", 2), "abab");
    assert_eq!(repeat("", 5), "");
}

#[test]
fn padding_counts_characters() {
    assert_eq!(pad_right("", 0), "");
    assert_eq!(pad_right("", 3), "   ");
    assert_eq!(pad_right("abc", 5), "abc  ");
    assert_eq!(pad_right("abc", 3), "abc");
    assert_eq!(pad_right("abcdef", 3), "abcdef");
    for text in ["", "x", "Test City", "20.0°C", "☀️ CLEAR SKY", "🌤️ Warm", "São Paulo", "東京"] {
        for width in [0usize, 1, 5, 12, 52] {
            assert_eq!(pad_right(text, width), format!("{:<1$}", text, width));
        }
    }
    assert_eq!(fill(3, 5), "  ");
    assert_eq!(fill(5, 5), "");
    assert_eq!(fill(9, 5), "");
    assert_eq!(fill(0, 2), "  ");
}

#[test]
fn html_is_escaped() {
    assert_eq!(escape_html(""), "");
    assert_eq!(escape_html("London"), "London");
    assert_eq!(escape_html("São Paulo 🌦️"), "São Paulo 🌦️");
    assert_eq!(escape_html("<script>"), "&lt;script&gt;");
    assert_eq!(escape_html("Tom & Jerry"), "Tom &amp; Jerry");
    assert_eq!(escape_html("\"quoted\""), "&quot;quoted&quot;");
    assert_eq!(escape_html("O'Fallon"), "O&#39;Fallon");
    assert_eq!(escape_html("&amp;"), "&amp;amp;");
    assert_eq!(
        escape_html("<img src=x onerror='alert(\"1\")'>"),
        "&lt;img src=x onerror=&#39;alert(&quot;1&quot;)&#39;&gt;"
    );
}

#[test]
fn escaped_html_has_no_markup_characters() {
    for text in ["<>\"'&", "a<b>c", "''''", "plain", "<<<>>>", "x\"y'z&w"] {
        let escaped = escape_html(text);
        assert!(!escaped.contains('<'));
        assert!(!escaped.contains('>'));
        assert!(!escaped.contains('"'));
        assert!(!escaped.contains('\''));
    }
}

#[test]
fn dropping_decimal_digits() {
    assert_eq!(shift_right(12_345, 0), 12_345);
    assert_eq!(shift_right(12_345, 1), 1_234);
    assert_eq!(shift_right(12_345, 3), 12);
    assert_eq!(shift_right(12_345, 5), 0);
    assert_eq!(shift_right(12_345, 200), 0);
    assert_eq!(shift_right(u64::MAX, 19), 1);
}
