use policyengine_uk::text::{
    available_years, chars_of, decimal_string, fiscal_year_filename, fiscal_year_label,
    format_bool, format_id_list, format_num, parse_bool, parse_i64, parse_id_list, parse_signed,
    parse_unsigned, parse_usize, string_of, text_eq, trim_bounds, white_space,
};

#[test]
fn parse_bool_accepts_true_and_one_only() {
    assert!(parse_bool("true"));
    assert!(parse_bool("1"));
    assert!(!parse_bool("false"));
    assert!(!parse_bool("0"));
    assert!(!parse_bool("TRUE"));
    assert!(!parse_bool(" true"));
    assert!(!parse_bool(""));
}

#[test]
fn parse_usize_reads_digits_else_zero() {
    assert_eq!(parse_usize("42"), 42);
    assert_eq!(parse_usize("+7"), 7);
    assert_eq!(parse_usize("007"), 7);
    assert_eq!(parse_usize(" 42"), 0);
    assert_eq!(parse_usize("-1"), 0);
    assert_eq!(parse_usize("4.5"), 0);
    assert_eq!(parse_usize(""), 0);
    assert_eq!(parse_usize("18446744073709551615"), usize::MAX);
    assert_eq!(parse_usize("18446744073709551616"), 0);
}

#[test]
fn parse_i64_trims_then_reads() {
    assert_eq!(parse_i64("  -12 "), -12);
    assert_eq!(parse_i64("\t300\n"), 300);
    assert_eq!(parse_i64("+5"), 5);
    assert_eq!(parse_i64("A"), 0);
    assert_eq!(parse_i64("-"), 0);
    assert_eq!(parse_i64("9223372036854775807"), i64::MAX);
    assert_eq!(parse_i64("-9223372036854775808"), i64::MIN);
    assert_eq!(parse_i64("9223372036854775808"), 0);
}

#[test]
fn parse_unsigned_and_signed_agree_with_std() {
    for s in ["0", "12", "+3", "-3", "", "+", "1a", " 1", "99999999999999999999"] {
        assert_eq!(parse_unsigned(s), s.parse::<usize>().ok(), "{}", s);
        assert_eq!(parse_signed(s), s.parse::<i64>().ok(), "{}", s);
    }
}

#[test]
fn parse_id_list_skips_bad_fields() {
    assert_eq!(parse_id_list(""), Vec::<usize>::new());
    assert_eq!(parse_id_list("3"), vec![3]);
    assert_eq!(parse_id_list("1;2;3"), vec![1, 2, 3]);
    assert_eq!(parse_id_list("1;x;3"), vec![1, 3]);
    assert_eq!(parse_id_list(";;"), Vec::<usize>::new());
    assert_eq!(parse_id_list("4;"), vec![4]);
}

#[test]
fn id_list_round_trip() {
    let ids = vec![0, 17, 3, 250000];
    let text = format_id_list(&ids);
    assert_eq!(text, "0;17;3;250000");
    assert_eq!(parse_id_list(&text), ids);
    assert_eq!(format_id_list(&Vec::new()), "");
    assert_eq!(parse_id_list(&format_id_list(&Vec::new())), Vec::<usize>::new());
}

#[test]
fn usize_field_round_trip() {
    for n in [0usize, 9, 10, 1234567, usize::MAX] {
        assert_eq!(parse_usize(&decimal_string(n)), n);
    }
    assert_eq!(decimal_string(1234567), "1234567");
}

#[test]
fn bool_field_round_trip() {
    assert_eq!(format_bool(true), "true");
    assert_eq!(format_bool(false), "false");
    assert!(parse_bool(format_bool(true)));
    assert!(!parse_bool(format_bool(false)));
}

#[test]
fn format_num_groups_thousands() {
    assert_eq!(format_num(0), "0");
    assert_eq!(format_num(999), "999");
    assert_eq!(format_num(1000), "1,000");
    assert_eq!(format_num(28200000), "28,200,000");
    assert_eq!(format_num(1234567), "1,234,567");
}

#[test]
fn fiscal_year_names() {
    assert_eq!(fiscal_year_filename(2029), "2029_30.yaml");
    assert_eq!(fiscal_year_filename(1999), "1999_00.yaml");
    assert_eq!(fiscal_year_filename(2008), "2008_09.yaml");
    assert_eq!(fiscal_year_label(2025), "2025/26");
    assert_eq!(fiscal_year_label(1999), "1999/00");
}

#[test]
fn available_years_run_1994_to_2029() {
    let years = available_years();
    assert_eq!(years.len(), 36);
    assert_eq!(years[0], 1994);
    assert_eq!(years[35], 2029);
    assert_eq!(years, (1994..=2029).collect::<Vec<u32>>());
}

#[test]
fn text_helpers() {
    assert!(text_eq("abc", "abc"));
    assert!(!text_eq("abc", "abd"));
    assert!(!text_eq("abc", "ab"));
    let cs = chars_of("  hé llo\t");
    assert_eq!(cs.len(), 9);
    assert_eq!(string_of(&cs), "  hé llo\t");
    assert_eq!(trim_bounds(&cs), (2, 8));
    assert_eq!(trim_bounds(&chars_of("   ")).0, trim_bounds(&chars_of("   ")).1);
    assert!(white_space('\u{3000}'));
    assert!(white_space('\n'));
    assert!(!white_space('x'));
    for c in ['\u{85}', '\u{A0}', '\u{2028}', 'a', '\u{200B}'] {
        assert_eq!(white_space(c), c.is_whitespace());
    }
}
