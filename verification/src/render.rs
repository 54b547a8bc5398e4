//! The fixed layout of the textual weather report.
//!
//! The renderer lays out the report as plain lines, each pairing a label
//! with a formatted value. Terminal coloring is cosmetic and sits outside
//! the library; these lines carry all the content.

use vstd::prelude::*;
use vstd::string::StringExecFns;
use crate::convert::{celsius_of_kelvin, fahrenheit_of_kelvin, kelvin_to_celsius,
    kelvin_to_fahrenheit};
use crate::emoji::{emoji_of, lower_of, weather_emoji};
use crate::numfmt::{centi_one_dp, dec_str, one_dp_str, u64_dec};
use crate::report::{spec_first_description, ReportModel, WeatherReport};
use crate::text::string_from_chars;
use crate::timefmt::{clock_str, format_time};

verus! {

/// A centi-unit reading as text with one decimal place.
pub fn centi_string(c: i64) -> (r: String)
    requires
        -1_000_000_000_000_000_000 <= c <= 1_000_000_000_000_000_000,
    ensures
        r@ == one_dp_str(c as int),
{
    string_from_chars(&centi_one_dp(c))
}

/// An unsigned count as decimal text.
pub fn count_string(n: u64) -> (r: String)
    ensures
        r@ == dec_str(n as int),
{
    string_from_chars(&u64_dec(n))
}

/// The request address for a city and a credential, as the upstream
/// service expects it.
pub fn build_url(city: &str, api_key: &str) -> (r: String)
    ensures
        r@ == "https://api.openweathermap.org/data/2.5/weather?q="@ + city@ + "&appid="@
            + api_key@ + "&lang=en"@,
{
    let mut u = String::new();
    u.append("https://api.openweathermap.org/data/2.5/weather?q=");
    u.append(city);
    u.append("&appid=");
    u.append(api_key);
    u.append("&lang=en");
    proof {
        assert(u@ =~= "https://api.openweathermap.org/data/2.5/weather?q="@ + city@ + "&appid="@
            + api_key@ + "&lang=en"@);
    }
    u
}

/// The lines of the report for a decoded document, top to bottom.
pub open spec fn spec_render_lines(m: ReportModel) -> Seq<Seq<char>> {
    let desc = spec_first_description(m);
    let pict = emoji_of(lower_of(desc));
    seq![
        "\u{1f30d} Weather Report \u{1f30d}"@,
        pict + " "@ + m.name + ", "@ + m.country,
        ""@,
        "\u{1f4ca} Weather Conditions:"@,
        "   Status: "@ + desc,
        "   Temperature: "@ + one_dp_str(celsius_of_kelvin(m.temp)) + "\u{b0}C / "@ + one_dp_str(
            fahrenheit_of_kelvin(m.temp),
        ) + "\u{b0}F"@,
        "   Feels like: "@ + one_dp_str(celsius_of_kelvin(m.feels_like)) + "\u{b0}C / "@
            + one_dp_str(fahrenheit_of_kelvin(m.feels_like)) + "\u{b0}F"@,
        ""@,
        "\u{1f32c}\u{fe0f} Additional Details:"@,
        "   Humidity: "@ + dec_str(m.humidity) + "%"@,
        "   Wind speed: "@ + one_dp_str(m.wind_speed) + " m/s"@,
        "   Pressure: "@ + dec_str(m.pressure) + " hPa"@,
        ""@,
        "\u{1f305} Celestial Events:"@,
        "   Sunrise: "@ + clock_str(m.sunrise),
        "   Sunset: "@ + clock_str(m.sunset),
    ]
}

/// Lay the report out as its plain lines.
pub fn render_lines(rep: &WeatherReport) -> (r: Vec<String>)
    requires
        rep@.wf(),
    ensures
        r@.map_values(|s: String| s@) == spec_render_lines(rep@),
{
    let desc = rep.first_description();
    let pict = weather_emoji(desc.as_str());
    let tc = centi_string(kelvin_to_celsius(rep.temp_centi));
    let tf = centi_string(kelvin_to_fahrenheit(rep.temp_centi));
    let fc = centi_string(kelvin_to_celsius(rep.feels_like_centi));
    let ff = centi_string(kelvin_to_fahrenheit(rep.feels_like_centi));

    let mut v: Vec<String> = Vec::new();
    v.push(String::from_str("\u{1f30d} Weather Report \u{1f30d}"));

    let mut l1 = String::new();
    l1.append(pict);
    l1.append(" ");
    l1.append(rep.name.as_str());
    l1.append(", ");
    l1.append(rep.country.as_str());
    v.push(l1);

    v.push(String::new());
    v.push(String::from_str("\u{1f4ca} Weather Conditions:"));

    let mut l4 = String::from_str("   Status: ");
    l4.append(desc.as_str());
    v.push(l4);

    let mut l5 = String::from_str("   Temperature: ");
    l5.append(tc.as_str());
    l5.append("\u{b0}C / ");
    l5.append(tf.as_str());
    l5.append("\u{b0}F");
    v.push(l5);

    let mut l6 = String::from_str("   Feels like: ");
    l6.append(fc.as_str());
    l6.append("\u{b0}C / ");
    l6.append(ff.as_str());
    l6.append("\u{b0}F");
    v.push(l6);

    v.push(String::new());
    v.push(String::from_str("\u{1f32c}\u{fe0f} Additional Details:"));

    let mut l9 = String::from_str("   Humidity: ");
    l9.append(count_string(rep.humidity as u64).as_str());
    l9.append("%");
    v.push(l9);

    let mut l10 = String::from_str("   Wind speed: ");
    l10.append(centi_string(rep.wind_speed_centi).as_str());
    l10.append(" m/s");
    v.push(l10);

    let mut l11 = String::from_str("   Pressure: ");
    l11.append(count_string(rep.pressure as u64).as_str());
    l11.append(" hPa");
    v.push(l11);

    v.push(String::new());
    v.push(String::from_str("\u{1f305} Celestial Events:"));

    let mut l14 = String::from_str("   Sunrise: ");
    l14.append(format_time(rep.sunrise).as_str());
    v.push(l14);

    let mut l15 = String::from_str("   Sunset: ");
    l15.append(format_time(rep.sunset).as_str());
    v.push(l15);

    proof {
        reveal_strlit("");
        assert(v@.map_values(|s: String| s@) =~~= spec_render_lines(rep@));
    }
    v
}

} // verus!
