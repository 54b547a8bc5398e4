use weather_report::convert::{celsius_to_fahrenheit, kelvin_to_celsius, kelvin_to_fahrenheit};
use weather_report::numfmt::centi_one_dp;
use weather_report::render::{build_url, centi_string, count_string};
use weather_report::timefmt::format_time;

#[test]
fn kelvin_300_to_celsius_and_fahrenheit() {
    // 300.00 K -> 26.85 C -> 80.33 F, exactly in hundredths.
    let c = kelvin_to_celsius(30000);
    assert_eq!(c, 2685);
    let f = kelvin_to_fahrenheit(30000);
    assert_eq!(f, 8033);
}

#[test]
fn conversion_composes_through_celsius() {
    for k in [0i64, 30000, 30015, 27315, -500, 100000, 25000] {
        let direct = kelvin_to_fahrenheit(k);
        let via_celsius = celsius_to_fahrenheit(kelvin_to_celsius(k));
        assert_eq!(direct, via_celsius);
    }
}

#[test]
fn freezing_point_is_zero_celsius() {
    assert_eq!(kelvin_to_celsius(27315), 0);
    assert_eq!(kelvin_to_fahrenheit(27315), 3200);
}

#[test]
fn one_decimal_place_rounds_half_away_from_zero() {
    let s: String = centi_one_dp(2700).into_iter().collect();
    assert_eq!(s, "27.0");
    let s: String = centi_one_dp(2685).into_iter().collect();
    assert_eq!(s, "26.9");
    let s: String = centi_one_dp(-4).into_iter().collect();
    assert_eq!(s, "-0.0");
    let s: String = centi_one_dp(350).into_iter().collect();
    assert_eq!(s, "3.5");
    assert_eq!(centi_string(0), "0.0");
    assert_eq!(centi_string(-2685), "-26.9");
}

#[test]
fn counts_print_in_decimal() {
    assert_eq!(count_string(0), "0");
    assert_eq!(count_string(50), "50");
    assert_eq!(count_string(1012), "1012");
    assert_eq!(count_string(u64::MAX), "18446744073709551615");
}

#[test]
fn epoch_zero_formats_as_midnight() {
    assert_eq!(format_time(0), "00:00");
}

#[test]
fn out_of_range_timestamp_falls_back_to_midnight() {
    // Largest representable second, then the first past it, then far out.
    assert_eq!(format_time(8_210_266_876_799), "23:59");
    assert_eq!(format_time(8_210_266_876_800), "00:00");
    assert_eq!(format_time(u64::MAX), "00:00");
}

#[test]
fn timestamps_format_as_utc_clock_time() {
    assert_eq!(format_time(1_700_000_000), "22:13");
    assert_eq!(format_time(1_700_040_000), "09:20");
    assert_eq!(format_time(86_399), "23:59");
    assert_eq!(format_time(86_400), "00:00");
    assert_eq!(format_time(3_661), "01:01");
}

#[test]
fn request_url_interpolates_city_and_credential() {
    assert_eq!(
        build_url("Kyiv", "k3y"),
        "https://api.openweathermap.org/data/2.5/weather?q=Kyiv&appid=k3y&lang=en"
    );
}
