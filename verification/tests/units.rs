use sway_gravity::unit::{
    AbsolutePercentage, AbsolutePixels, AbsoluteUnit, ParseUnitError, RelativePercentage,
    RelativePixels, RelativeUnit, Unit, PER_PERCENT,
};

#[test]
fn test_absolute_pixels_from_str() {
    assert_eq!(
        AbsolutePixels::from_str("100px").unwrap(),
        AbsolutePixels(100)
    );
    assert_eq!(
        AbsolutePixels::from_str("100").unwrap(),
        AbsolutePixels(100)
    );
    assert!(AbsolutePixels::from_str("100%").is_err());
}

#[test]
fn test_relative_pixels_from_str() {
    assert_eq!(
        RelativePixels::from_str("+50px").unwrap(),
        RelativePixels(50)
    );
    assert_eq!(
        RelativePixels::from_str("-50px").unwrap(),
        RelativePixels(-50)
    );
    assert!(RelativePixels::from_str("50%").is_err());
}

#[test]
fn test_absolute_percentage_from_str() {
    assert_eq!(
        AbsolutePercentage::from_str("33.333%").unwrap(),
        AbsolutePercentage(33_333_000)
    );
    assert!(AbsolutePercentage::from_str("33.333px").is_err());
}

#[test]
fn test_relative_percentage_from_str() {
    assert_eq!(
        RelativePercentage::from_str("+10%").unwrap(),
        RelativePercentage(10_000_000)
    );
    assert_eq!(
        RelativePercentage::from_str("-10%").unwrap(),
        RelativePercentage(-10_000_000)
    );
    assert!(RelativePercentage::from_str("10px").is_err());
}

#[test]
fn test_adding_units() {
    let abs_px1 = AbsolutePixels::from(100u32);
    let abs_px2 = AbsolutePixels::from(50u32);
    let rel_px = RelativePixels::from(20);

    assert_eq!(abs_px1 + abs_px2, AbsolutePixels::from(150u32));
    assert_eq!(abs_px1 + rel_px, AbsolutePixels::from(120u32));
    assert_eq!(abs_px1 - rel_px, AbsolutePixels::from(80u32));
}

#[test]
fn pixel_arithmetic_never_goes_below_zero() {
    assert_eq!(AbsolutePixels(10) - AbsolutePixels(30), AbsolutePixels(0));
    assert_eq!(AbsolutePixels(10) + RelativePixels(-30), AbsolutePixels(0));
    assert_eq!(AbsolutePixels(10) - RelativePixels(30), AbsolutePixels(0));
    assert_eq!(RelativePixels(-30) + AbsolutePixels(10), AbsolutePixels(0));
    assert_eq!(RelativePixels(30) - AbsolutePixels(10), AbsolutePixels(20));
    assert_eq!(RelativePixels(5) - AbsolutePixels(10), AbsolutePixels(0));
    assert_eq!(
        AbsolutePixels(u32::MAX) + RelativePixels(1),
        AbsolutePixels(u32::MAX)
    );
    assert_eq!(RelativePixels(5) + RelativePixels(-7), RelativePixels(-2));
    assert_eq!(RelativePixels(5) - RelativePixels(-7), RelativePixels(12));
}

#[test]
fn percentage_arithmetic_stays_in_range() {
    assert_eq!(
        AbsolutePercentage(10_000_000) + AbsolutePercentage(5_500_000),
        AbsolutePercentage(15_500_000)
    );
    assert_eq!(
        AbsolutePercentage(10_000_000) - AbsolutePercentage(15_000_000),
        AbsolutePercentage(-5_000_000)
    );
    assert_eq!(
        AbsolutePercentage(10_000_000) + RelativePercentage(-2_000_000),
        AbsolutePercentage(8_000_000)
    );
    assert_eq!(
        AbsolutePercentage(10_000_000) - RelativePercentage(-2_000_000),
        AbsolutePercentage(12_000_000)
    );
    assert_eq!(
        RelativePercentage(1_000_000) + RelativePercentage(2_000_000),
        RelativePercentage(3_000_000)
    );
    assert_eq!(
        RelativePercentage(1_000_000) - RelativePercentage(2_000_000),
        RelativePercentage(-1_000_000)
    );
    assert_eq!(
        RelativePercentage(1_000_000) + AbsolutePercentage(2_000_000),
        AbsolutePercentage(3_000_000)
    );
    assert_eq!(
        RelativePercentage(1_000_000) - AbsolutePercentage(2_000_000),
        AbsolutePercentage(-1_000_000)
    );
    assert_eq!(
        AbsolutePercentage(i64::MAX) + RelativePercentage(1),
        AbsolutePercentage(i64::MAX)
    );
    assert_eq!(
        AbsolutePercentage(i64::MIN) - RelativePercentage(1),
        AbsolutePercentage(i64::MIN)
    );
}

#[test]
fn pixels_parse_edge_cases() {
    assert_eq!(AbsolutePixels::from_str("+5"), Ok(AbsolutePixels(5)));
    assert_eq!(AbsolutePixels::from_str("007px"), Ok(AbsolutePixels(7)));
    assert_eq!(
        AbsolutePixels::from_str("4294967295"),
        Ok(AbsolutePixels(u32::MAX))
    );
    assert_eq!(
        AbsolutePixels::from_str("4294967296"),
        Err(ParseUnitError::InvalidInteger)
    );
    assert_eq!(
        AbsolutePixels::from_str("99999999999999999999999999999px"),
        Err(ParseUnitError::InvalidInteger)
    );
    assert_eq!(AbsolutePixels::from_str(""), Err(ParseUnitError::InvalidInteger));
    assert_eq!(AbsolutePixels::from_str("px"), Err(ParseUnitError::InvalidInteger));
    assert_eq!(AbsolutePixels::from_str("+"), Err(ParseUnitError::InvalidInteger));
    assert_eq!(AbsolutePixels::from_str("-5"), Err(ParseUnitError::InvalidInteger));
    assert_eq!(AbsolutePixels::from_str("1 0"), Err(ParseUnitError::InvalidInteger));
    assert_eq!(AbsolutePixels::from_str("10p"), Err(ParseUnitError::InvalidInteger));
    assert_eq!(AbsolutePixels::from_str("１０"), Err(ParseUnitError::InvalidInteger));

    assert_eq!(
        RelativePixels::from_str("-2147483648"),
        Ok(RelativePixels(i32::MIN))
    );
    assert_eq!(
        RelativePixels::from_str("2147483647px"),
        Ok(RelativePixels(i32::MAX))
    );
    assert_eq!(
        RelativePixels::from_str("2147483648"),
        Err(ParseUnitError::InvalidInteger)
    );
    assert_eq!(
        RelativePixels::from_str("-2147483649"),
        Err(ParseUnitError::InvalidInteger)
    );
    assert_eq!(RelativePixels::from_str("-"), Err(ParseUnitError::InvalidInteger));
    assert_eq!(RelativePixels::from_str("+-5"), Err(ParseUnitError::InvalidInteger));
    assert_eq!(RelativePixels::from_str("12"), Ok(RelativePixels(12)));
}

#[test]
fn percentage_parse_edge_cases() {
    assert_eq!(
        AbsolutePercentage::from_str("50"),
        Ok(AbsolutePercentage(50_000_000))
    );
    assert_eq!(
        AbsolutePercentage::from_str("5.%"),
        Ok(AbsolutePercentage(5_000_000))
    );
    assert_eq!(AbsolutePercentage::from_str(".5%"), Ok(AbsolutePercentage(500_000)));
    assert_eq!(
        AbsolutePercentage::from_str("0.000001%"),
        Ok(AbsolutePercentage(1))
    );
    assert_eq!(
        AbsolutePercentage::from_str("33.3333339%"),
        Ok(AbsolutePercentage(33_333_333))
    );
    assert_eq!(
        AbsolutePercentage::from_str("-12.5%"),
        Ok(AbsolutePercentage(-12_500_000))
    );
    assert_eq!(
        AbsolutePercentage::from_str("9223372036854.775807%"),
        Ok(AbsolutePercentage(i64::MAX))
    );
    assert_eq!(
        AbsolutePercentage::from_str("-9223372036854.775808%"),
        Ok(AbsolutePercentage(i64::MIN))
    );
    assert_eq!(
        AbsolutePercentage::from_str("9223372036854.775808%"),
        Err(ParseUnitError::InvalidDecimal)
    );
    assert_eq!(
        AbsolutePercentage::from_str("9223372036855%"),
        Err(ParseUnitError::InvalidDecimal)
    );
    for bad in ["", "%", ".", ".%", "+", "-%", "1.2.3%", "1e3%", "abc", "5 %", "5%%"] {
        assert_eq!(
            AbsolutePercentage::from_str(bad),
            Err(ParseUnitError::InvalidDecimal)
        );
        assert_eq!(
            RelativePercentage::from_str(bad),
            Err(ParseUnitError::InvalidDecimal)
        );
    }
}

#[test]
fn unit_parse_picks_the_kind() {
    assert_eq!(
        Unit::from_str("100px"),
        Ok(Unit::Absolute(AbsoluteUnit::Pixels(AbsolutePixels(100))))
    );
    assert_eq!(
        Unit::from_str("100"),
        Ok(Unit::Absolute(AbsoluteUnit::Pixels(AbsolutePixels(100))))
    );
    assert_eq!(
        Unit::from_str("33.3%"),
        Ok(Unit::Absolute(AbsoluteUnit::Percentage(AbsolutePercentage(
            33_300_000
        ))))
    );
    assert_eq!(
        Unit::from_str("+50px"),
        Ok(Unit::Relative(RelativeUnit::Pixels(RelativePixels(50))))
    );
    assert_eq!(
        Unit::from_str("-50"),
        Ok(Unit::Relative(RelativeUnit::Pixels(RelativePixels(-50))))
    );
    assert_eq!(
        Unit::from_str("-5%"),
        Ok(Unit::Relative(RelativeUnit::Percentage(RelativePercentage(
            -5_000_000
        ))))
    );
    assert_eq!(Unit::from_str("abc"), Err(ParseUnitError::InvalidInteger));
    assert_eq!(Unit::from_str("+abc"), Err(ParseUnitError::InvalidInteger));
    assert_eq!(Unit::from_str("abc%"), Err(ParseUnitError::InvalidDecimal));
    assert_eq!(Unit::from_str("-x%"), Err(ParseUnitError::InvalidDecimal));
    assert_eq!(Unit::from_str(""), Err(ParseUnitError::InvalidInteger));
    assert_eq!(
        Unit::from_str("12px"),
        Ok(Unit::Absolute(AbsoluteUnit::Pixels(AbsolutePixels(12))))
    );
    assert_eq!(
        AbsoluteUnit::from_str("12%"),
        Ok(AbsoluteUnit::Percentage(AbsolutePercentage(12_000_000)))
    );
    assert_eq!(
        RelativeUnit::from_str("+12"),
        Ok(RelativeUnit::Pixels(RelativePixels(12)))
    );
    assert_eq!(
        AbsoluteUnit::from_str("+12"),
        Ok(AbsoluteUnit::Pixels(AbsolutePixels(12)))
    );
}

#[test]
fn one_percent_is_a_million() {
    assert_eq!(PER_PERCENT, 1_000_000);
    assert_eq!(
        AbsolutePercentage::from_str("1%"),
        Ok(AbsolutePercentage(PER_PERCENT))
    );
    assert_eq!(
        AbsolutePercentage(100 * PER_PERCENT).as_absolute_pixels(640),
        AbsolutePixels(640)
    );
}

#[test]
fn pixels_to_percentage_rounds_to_hundredths() {
    assert_eq!(
        AbsolutePixels(50).as_absolute_percentage(200),
        AbsolutePercentage(25_000_000)
    );
    assert_eq!(
        AbsolutePixels(1).as_absolute_percentage(3),
        AbsolutePercentage(33_330_000)
    );
    assert_eq!(
        AbsolutePixels(2).as_absolute_percentage(3),
        AbsolutePercentage(66_670_000)
    );
    assert_eq!(
        AbsolutePixels(1).as_absolute_percentage(80_000),
        AbsolutePercentage(0)
    );
    assert_eq!(
        AbsolutePixels(1).as_absolute_percentage(20_000),
        AbsolutePercentage(10_000)
    );
    assert_eq!(
        AbsolutePixels(7).as_absolute_percentage(0),
        AbsolutePercentage(0)
    );
    assert_eq!(
        AbsolutePixels(50).as_absolute_percentage(-200),
        AbsolutePercentage(-25_000_000)
    );
    assert_eq!(
        AbsolutePixels(u32::MAX).as_absolute_percentage(1),
        AbsolutePercentage(429_496_729_500_000_000)
    );
}

#[test]
fn percentage_to_pixels_rounds_to_nearest() {
    assert_eq!(
        AbsolutePercentage(10_000_000).as_absolute_pixels(200),
        AbsolutePixels(20)
    );
    assert_eq!(
        AbsolutePercentage(33_330_000).as_absolute_pixels(3),
        AbsolutePixels(1)
    );
    assert_eq!(
        AbsolutePercentage(12_500_000).as_absolute_pixels(100),
        AbsolutePixels(13)
    );
    assert_eq!(
        AbsolutePercentage(12_499_999).as_absolute_pixels(100),
        AbsolutePixels(12)
    );
    assert_eq!(
        AbsolutePercentage(-10_000_000).as_absolute_pixels(200),
        AbsolutePixels(0)
    );
    assert_eq!(
        AbsolutePercentage(10_000_000).as_absolute_pixels(-200),
        AbsolutePixels(0)
    );
    assert_eq!(
        AbsolutePercentage(i64::MAX).as_absolute_pixels(i32::MAX),
        AbsolutePixels(u32::MAX)
    );
}

#[test]
fn percentage_round_trip_within_one_pixel() {
    for container in [1, 2, 3, 7, 100, 1080, 1920, 9_999, 10_000, 29_999] {
        for pixels in [0u32, 1, 2, 3, 50, 333, 1000, 9_999, 29_999, 100_000] {
            let back = AbsolutePixels(pixels)
                .as_absolute_percentage(container)
                .as_absolute_pixels(container);
            let distance = (back.0 as i64 - pixels as i64).abs();
            assert!(distance <= 1);
            if container < 10_000 {
                assert_eq!(back, AbsolutePixels(pixels));
            }
        }
    }
    let far = AbsolutePixels(2)
        .as_absolute_percentage(100_000)
        .as_absolute_pixels(100_000);
    assert_eq!(far, AbsolutePixels(0));
}

#[test]
fn to_absolute_keeps_absolute_and_adds_relative() {
    let container = AbsolutePixels(200);
    let pixels = AbsoluteUnit::Pixels(AbsolutePixels(100));
    let share = AbsoluteUnit::Percentage(AbsolutePercentage(25_000_000));

    let absolute = Unit::Absolute(AbsoluteUnit::Pixels(AbsolutePixels(7)));
    assert_eq!(
        absolute.to_absolute(pixels, container),
        AbsoluteUnit::Pixels(AbsolutePixels(7))
    );
    assert_eq!(
        absolute.to_absolute(share, container),
        AbsoluteUnit::Pixels(AbsolutePixels(7))
    );

    let plus = Unit::Relative(RelativeUnit::Pixels(RelativePixels(20)));
    assert_eq!(
        plus.to_absolute(pixels, container),
        AbsoluteUnit::Pixels(AbsolutePixels(120))
    );
    assert_eq!(
        plus.to_absolute(share, container),
        AbsoluteUnit::Pixels(AbsolutePixels(70))
    );

    let minus = Unit::Relative(RelativeUnit::Pixels(RelativePixels(-150)));
    assert_eq!(
        minus.to_absolute(pixels, container),
        AbsoluteUnit::Pixels(AbsolutePixels(0))
    );

    let more = Unit::Relative(RelativeUnit::Percentage(RelativePercentage(10_000_000)));
    assert_eq!(
        more.to_absolute(share, container),
        AbsoluteUnit::Percentage(AbsolutePercentage(35_000_000))
    );
    assert_eq!(
        more.to_absolute(pixels, container),
        AbsoluteUnit::Percentage(AbsolutePercentage(60_000_000))
    );
    assert_eq!(
        more.to_absolute(pixels, AbsolutePixels(u32::MAX)),
        AbsoluteUnit::Percentage(AbsolutePercentage(10_000_000))
    );
}

#[test]
fn conversions_wrap_the_value() {
    assert_eq!(
        Unit::from(AbsolutePixels(3)),
        Unit::Absolute(AbsoluteUnit::Pixels(AbsolutePixels(3)))
    );
    assert_eq!(
        Unit::from(RelativePixels(-3)),
        Unit::Relative(RelativeUnit::Pixels(RelativePixels(-3)))
    );
    assert_eq!(
        Unit::from(AbsolutePercentage(3)),
        Unit::Absolute(AbsoluteUnit::Percentage(AbsolutePercentage(3)))
    );
    assert_eq!(
        Unit::from(RelativePercentage(3)),
        Unit::Relative(RelativeUnit::Percentage(RelativePercentage(3)))
    );
    assert_eq!(
        Unit::from(AbsoluteUnit::from(AbsolutePercentage(4))),
        Unit::Absolute(AbsoluteUnit::Percentage(AbsolutePercentage(4)))
    );
    assert_eq!(
        Unit::from(RelativeUnit::from(RelativePercentage(4))),
        Unit::Relative(RelativeUnit::Percentage(RelativePercentage(4)))
    );
    assert_eq!(
        AbsoluteUnit::from(AbsolutePixels(4)),
        AbsoluteUnit::Pixels(AbsolutePixels(4))
    );
    assert_eq!(
        RelativeUnit::from(RelativePixels(4)),
        RelativeUnit::Pixels(RelativePixels(4))
    );
    assert_eq!(AbsolutePercentage::from(5i64), AbsolutePercentage(5));
    assert_eq!(RelativePercentage::from(5i64), RelativePercentage(5));
}

#[test]
fn units_are_written_out() {
    assert_eq!(AbsolutePixels(100).to_string(), "100 px");
    assert_eq!(AbsolutePixels(0).to_string(), "0 px");
    assert_eq!(AbsolutePixels(u32::MAX).to_string(), "4294967295 px");
    assert_eq!(RelativePixels(50).to_string(), "+50 px");
    assert_eq!(RelativePixels(0).to_string(), "+0 px");
    assert_eq!(RelativePixels(-50).to_string(), "-50 px");
    assert_eq!(RelativePixels(i32::MIN).to_string(), "-2147483648 px");
    assert_eq!(AbsolutePercentage(33_333_000).to_string(), "33.333 ppt");
    assert_eq!(AbsolutePercentage(50_000_000).to_string(), "50 ppt");
    assert_eq!(AbsolutePercentage(0).to_string(), "0 ppt");
    assert_eq!(AbsolutePercentage(1).to_string(), "0.000001 ppt");
    assert_eq!(AbsolutePercentage(1_050_000).to_string(), "1.05 ppt");
    assert_eq!(AbsolutePercentage(-12_500_000).to_string(), "-12.5 ppt");
    assert_eq!(
        AbsolutePercentage(i64::MIN).to_string(),
        "-9223372036854.775808 ppt"
    );
    assert_eq!(RelativePercentage(10_000_000).to_string(), "+10 ppt");
    assert_eq!(RelativePercentage(-5_000_000).to_string(), "-5 ppt");
    assert_eq!(RelativePercentage(500).to_string(), "+0.0005 ppt");
    assert_eq!(
        AbsoluteUnit::Pixels(AbsolutePixels(7)).to_string(),
        "7 px"
    );
    assert_eq!(
        AbsoluteUnit::Percentage(AbsolutePercentage(7_000_000)).to_string(),
        "7 ppt"
    );
    assert_eq!(
        RelativeUnit::Pixels(RelativePixels(-7)).to_string(),
        "-7 px"
    );
    assert_eq!(
        RelativeUnit::Percentage(RelativePercentage(7_100_000)).to_string(),
        "+7.1 ppt"
    );
    assert_eq!(Unit::from(AbsolutePixels(9)).to_string(), "9 px");
    assert_eq!(Unit::from(RelativePercentage(-9)).to_string(), "-0.000009 ppt");
    assert_eq!(ParseUnitError::InvalidInteger.to_string(), "invalid integer");
    assert_eq!(
        ParseUnitError::InvalidDecimal.to_string(),
        "invalid decimal number"
    );
}
