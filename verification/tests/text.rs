use cheese_test::text::{format_value, Unit, VALUE_CAPACITY};

#[test]
fn formats_temperature_with_degree_sign() {
    assert_eq!(format_value(23, Unit::Celsius).as_str(), "23\u{b0}C");
    assert_eq!(format_value(0, Unit::Celsius).as_str(), "0\u{b0}C");
    assert_eq!(format_value(9, Unit::Celsius).as_str(), "9\u{b0}C");
    assert_eq!(format_value(10, Unit::Celsius).as_str(), "10\u{b0}C");
    assert_eq!(format_value(99, Unit::Celsius).as_str(), "99\u{b0}C");
    assert_eq!(format_value(100, Unit::Celsius).as_str(), "100\u{b0}C");
    assert_eq!(format_value(101, Unit::Celsius).as_str(), "101\u{b0}C");
    assert_eq!(format_value(110, Unit::Celsius).as_str(), "110\u{b0}C");
}

#[test]
fn formats_humidity_with_per_cent_sign() {
    assert_eq!(format_value(55, Unit::Percent).as_str(), "55%");
    assert_eq!(format_value(0, Unit::Percent).as_str(), "0%");
    assert_eq!(format_value(100, Unit::Percent).as_str(), "100%");
    assert_eq!(format_value(200, Unit::Percent).as_str(), "200%");
}

#[test]
fn largest_value_fits_the_buffer() {
    let text = format_value(255, Unit::Celsius);
    assert_eq!(text.as_str(), "255\u{b0}C");
    assert_eq!(text.as_str().len(), 6);
    assert!(text.as_str().len() <= VALUE_CAPACITY);
    let text = format_value(u8::MAX, Unit::Percent);
    assert_eq!(text.as_str(), "255%");
    assert_eq!(text.as_str().len(), 4);
}

#[test]
fn every_value_is_formatted_whole() {
    for value in 0..=u8::MAX {
        let celsius = format_value(value, Unit::Celsius);
        assert_eq!(celsius.as_str(), format!("{}\u{b0}C", value));
        assert!(celsius.as_str().len() <= VALUE_CAPACITY);
        let percent = format_value(value, Unit::Percent);
        assert_eq!(percent.as_str(), format!("{}%", value));
        assert!(percent.as_str().len() <= VALUE_CAPACITY);
    }
}

#[test]
fn value_capacity_is_eight_bytes() {
    assert_eq!(VALUE_CAPACITY, 8);
    let buffer: heapless::String<8> = heapless::String::new();
    assert_eq!(buffer.capacity(), VALUE_CAPACITY);
}
