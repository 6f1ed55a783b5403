use dashcmafsink::error::ConfigError;
use dashcmafsink::template::{
    accept_formatted, format_segment_location, template_fields_fit, MAX_FIELD_DIGITS,
};

#[test]
fn default_template_names_segments_by_number() {
    assert_eq!(
        format_segment_location("segment_%d.cmfv", 0),
        Ok("segment_0.cmfv".to_string())
    );
    assert_eq!(
        format_segment_location("segment_%d.cmfv", 1),
        Ok("segment_1.cmfv".to_string())
    );
    assert_eq!(
        format_segment_location("segment_%d.cmfv", 2),
        Ok("segment_2.cmfv".to_string())
    );
}

#[test]
fn formatted_name_differs_from_template() {
    let location = format_segment_location("segment_%d.cmfv", 41).unwrap();
    assert_ne!(location, "segment_%d.cmfv");
    assert_eq!(location, "segment_41.cmfv");
}

#[test]
fn locations_of_successive_numbers_differ() {
    let mut seen = std::collections::HashSet::new();
    for index in 0..200usize {
        assert!(seen.insert(format_segment_location("out/seg_%d.m4s", index).unwrap()));
    }
}

#[test]
fn width_and_zero_padding_follow_printf() {
    assert_eq!(format_segment_location("s%05d.m4s", 42), Ok("s00042.m4s".to_string()));
    assert_eq!(format_segment_location("s%3d", 7), Ok("s  7".to_string()));
    assert_eq!(format_segment_location("s%-3d|", 7), Ok("s7  |".to_string()));
    assert_eq!(format_segment_location("%x", 255), Ok("ff".to_string()));
    assert_eq!(format_segment_location("100%%_%d", 3), Ok("100%_3".to_string()));
    assert_eq!(format_segment_location("%.3d", 3), Ok("3".to_string()));
}

#[test]
fn large_index_is_written_in_full() {
    assert_eq!(format_segment_location("%d", usize::MAX), Ok(format!("{}", usize::MAX)));
}

#[test]
fn template_without_placeholder_is_rejected() {
    assert_eq!(format_segment_location("segment.cmfv", 0), Err(ConfigError::BadPlaceholder));
    assert_eq!(format_segment_location("", 0), Err(ConfigError::BadPlaceholder));
}

#[test]
fn template_with_two_placeholders_is_rejected() {
    assert_eq!(format_segment_location("%d_%d", 0), Err(ConfigError::BadPlaceholder));
}

#[test]
fn template_with_a_placeholder_of_another_type_is_rejected() {
    assert_eq!(format_segment_location("segment_%s", 0), Err(ConfigError::BadPlaceholder));
    assert_eq!(format_segment_location("segment_%f", 0), Err(ConfigError::BadPlaceholder));
    assert_eq!(format_segment_location("segment_%*d", 0), Err(ConfigError::BadPlaceholder));
}

#[test]
fn template_that_ends_in_a_percent_sign_is_rejected() {
    assert_eq!(format_segment_location("segment_%", 0), Err(ConfigError::BadPlaceholder));
    assert_eq!(format_segment_location("segment_%y", 0), Err(ConfigError::BadPlaceholder));
}

#[test]
fn a_width_of_ten_digits_is_rejected() {
    assert_eq!(MAX_FIELD_DIGITS, 9);
    assert_eq!(format_segment_location("%9999999999d", 0), Err(ConfigError::FieldTooWide));
    assert_eq!(format_segment_location("s_%-9999999999d", 0), Err(ConfigError::FieldTooWide));
    assert_eq!(format_segment_location("%+ 1234567890x", 0), Err(ConfigError::FieldTooWide));
}

#[test]
fn a_precision_of_ten_digits_is_rejected() {
    assert_eq!(format_segment_location("%.1234567890d", 0), Err(ConfigError::FieldTooWide));
    assert_eq!(format_segment_location("%5.1234567890d", 0), Err(ConfigError::FieldTooWide));
    assert_eq!(format_segment_location("%*.1234567890d", 0), Err(ConfigError::FieldTooWide));
}

#[test]
fn digits_in_the_plain_text_are_not_bounded() {
    assert_eq!(
        format_segment_location("s_1234567890_%d", 0),
        Ok("s_1234567890_0".to_string())
    );
    assert_eq!(
        format_segment_location("live/20250101120000/segment_%d.cmfv", 7),
        Ok("live/20250101120000/segment_7.cmfv".to_string())
    );
    assert_eq!(
        format_segment_location("%d_12345678901234567890", 3),
        Ok("3_12345678901234567890".to_string())
    );
}

#[test]
fn zeros_behind_the_percent_sign_are_flags() {
    assert_eq!(format_segment_location("%00000000000003d", 5), Ok("005".to_string()));
}

#[test]
fn fields_of_a_template_are_measured() {
    assert!(template_fields_fit(""));
    assert!(template_fields_fit("no field at all 1234567890123"));
    assert!(template_fields_fit("%123456789d"));
    assert!(!template_fields_fit("%1234567890d"));
    assert!(template_fields_fit("%123456789.123456789d"));
    assert!(!template_fields_fit("%123456789.1234567890d"));
    assert!(template_fields_fit("%*1234567890"));
    assert!(!template_fields_fit("%d and %#0- +1234567890"));
    assert!(template_fields_fit("%"));
    assert!(template_fields_fit("é%5dü1234567890"));
}

#[test]
fn formatter_error_becomes_bad_placeholder() {
    assert_eq!(
        accept_formatted(Err(sprintf::PrintfError::ParseError)),
        Err(ConfigError::BadPlaceholder)
    );
    assert_eq!(
        accept_formatted(Err(sprintf::PrintfError::TooManyArgs)),
        Err(ConfigError::BadPlaceholder)
    );
    assert_eq!(
        accept_formatted(Err(sprintf::PrintfError::NotEnoughArgs)),
        Err(ConfigError::BadPlaceholder)
    );
    assert_eq!(
        accept_formatted(Err(sprintf::PrintfError::WrongType)),
        Err(ConfigError::BadPlaceholder)
    );
}

#[test]
fn formatted_name_is_the_location() {
    assert_eq!(
        accept_formatted(Ok("segment_9.cmfv".to_string())),
        Ok("segment_9.cmfv".to_string())
    );
}
