use weather_report::decode::{decode, load};
use weather_report::render::render_lines;
use weather_report::report::WeatherError;

#[test]
fn empty_object_decodes_to_all_defaults() {
    let rep = decode("{}").unwrap();
    assert_eq!(rep.temp_centi, 0);
    assert_eq!(rep.feels_like_centi, 0);
    assert_eq!(rep.humidity, 0);
    assert_eq!(rep.pressure, 0);
    assert!(rep.descriptions.is_empty());
    assert_eq!(rep.wind_speed_centi, 0);
    assert_eq!(rep.name, "");
    assert_eq!(rep.country, "");
    assert_eq!(rep.sunrise, 0);
    assert_eq!(rep.sunset, 0);
}

#[test]
fn missing_sections_keep_defaults() {
    // Each of main, weather, wind, sys absent in turn: never a parse error.
    let rep = decode(r#"{"name":"X"}"#).unwrap();
    assert_eq!(rep.temp_centi, 0);
    assert_eq!(rep.humidity, 0);
    assert!(rep.descriptions.is_empty());
    assert_eq!(rep.wind_speed_centi, 0);
    assert_eq!(rep.country, "");

    let rep = decode(r#"{"main":{"temp":300.15}}"#).unwrap();
    assert_eq!(rep.temp_centi, 30015);
    assert_eq!(rep.feels_like_centi, 0);
    assert!(rep.descriptions.is_empty());

    let rep = decode(r#"{"wind":{"speed":3.5},"sys":{"country":"UA"}}"#).unwrap();
    assert_eq!(rep.wind_speed_centi, 350);
    assert_eq!(rep.country, "UA");
    assert_eq!(rep.sunrise, 0);
    assert_eq!(rep.name, "");
}

#[test]
fn unknown_fields_are_ignored() {
    let rep = decode(r#"{"coord":{"lon":30.52,"lat":50.45},"name":"Kyiv","cod":200,"extra":[1,2,{"x":null,"y":[true,false]}]}"#).unwrap();
    assert_eq!(rep.name, "Kyiv");
}

#[test]
fn string_escapes_decode() {
    let rep = decode(r#"{"name":"A\n\"\\é 🌈"}"#).unwrap();
    assert_eq!(rep.name, "A\n\"\\\u{e9} \u{1f308}");
}

#[test]
fn numbers_decode_into_hundredths() {
    let rep = decode(r#"{"main":{"temp":2.5e2,"feels_like":-5.5}}"#).unwrap();
    assert_eq!(rep.temp_centi, 25000);
    assert_eq!(rep.feels_like_centi, -550);
    let rep = decode(r#"{"main":{"temp":1e-3}}"#).unwrap();
    assert_eq!(rep.temp_centi, 0);
}

#[test]
fn malformed_documents_are_refused() {
    assert_eq!(decode("").unwrap_err(), WeatherError::Malformed);
    assert_eq!(decode("not json").unwrap_err(), WeatherError::Malformed);
    assert_eq!(decode("[1,2]").unwrap_err(), WeatherError::Malformed);
    assert_eq!(decode("{} trailing").unwrap_err(), WeatherError::Malformed);
    assert_eq!(decode(r#"{"name":"a""#).unwrap_err(), WeatherError::Malformed);
    assert_eq!(decode(r#"{"main":{"temp":01}}"#).unwrap_err(), WeatherError::Malformed);
    assert_eq!(decode(r#"{"name":"a",}"#).unwrap_err(), WeatherError::Malformed);
}

#[test]
fn wrongly_typed_fields_are_refused() {
    assert_eq!(decode(r#"{"main":5}"#).unwrap_err(), WeatherError::Malformed);
    assert_eq!(decode(r#"{"main":{"temp":"hot"}}"#).unwrap_err(), WeatherError::Malformed);
    assert_eq!(decode(r#"{"name":null}"#).unwrap_err(), WeatherError::Malformed);
    assert_eq!(decode(r#"{"weather":{}}"#).unwrap_err(), WeatherError::Malformed);
    assert_eq!(decode(r#"{"weather":[5]}"#).unwrap_err(), WeatherError::Malformed);
    assert_eq!(decode(r#"{"sys":{"sunrise":-1}}"#).unwrap_err(), WeatherError::Malformed);
    assert_eq!(decode(r#"{"sys":{"sunrise":1.5}}"#).unwrap_err(), WeatherError::Malformed);
}

#[test]
fn integer_fields_out_of_range_are_refused() {
    assert_eq!(decode(r#"{"main":{"humidity":300}}"#).unwrap_err(), WeatherError::Malformed);
    assert_eq!(decode(r#"{"main":{"humidity":50.0}}"#).unwrap_err(), WeatherError::Malformed);
    assert_eq!(decode(r#"{"main":{"pressure":70000}}"#).unwrap_err(), WeatherError::Malformed);
    assert_eq!(
        decode(r#"{"sys":{"sunrise":99999999999999999999999}}"#).unwrap_err(),
        WeatherError::Malformed
    );
}

#[test]
fn duplicate_known_fields_are_refused() {
    assert_eq!(decode(r#"{"name":"a","name":"b"}"#).unwrap_err(), WeatherError::Malformed);
    assert_eq!(
        decode(r#"{"main":{"temp":1,"temp":2}}"#).unwrap_err(),
        WeatherError::Malformed
    );
}

#[test]
fn nesting_past_the_depth_limit_is_refused() {
    let mut doc = String::from(r#"{"x":"#);
    for _ in 0..200 {
        doc.push('[');
    }
    for _ in 0..200 {
        doc.push(']');
    }
    doc.push('}');
    assert_eq!(decode(&doc).unwrap_err(), WeatherError::Malformed);
}

#[test]
fn zero_temperature_is_implausible() {
    // All other fields populated; the zero reading alone trips the check.
    let doc = r#"{"main":{"temp":0.0,"feels_like":1.0,"humidity":40,"pressure":1000},"weather":[{"description":"clear sky"}],"wind":{"speed":1.0},"name":"Nowhere","sys":{"country":"XX","sunrise":1,"sunset":2}}"#;
    assert_eq!(load(doc).unwrap_err(), WeatherError::Implausible);
    // The same document decodes structurally.
    assert!(decode(doc).is_ok());
    // A missing temperature defaults to zero and trips it too.
    assert_eq!(load("{}").unwrap_err(), WeatherError::Implausible);
}

#[test]
fn happy_path_report_renders_every_reading() {
    let doc = r#"{"main":{"temp":300.15,"feels_like":299.0,"humidity":50,"pressure":1012},"weather":[{"description":"clear sky"}],"wind":{"speed":3.5},"name":"Kyiv","sys":{"country":"UA","sunrise":1700000000,"sunset":1700040000}}"#;
    let rep = load(doc).unwrap();
    assert_eq!(rep.name, "Kyiv");
    assert_eq!(rep.country, "UA");
    assert_eq!(rep.temp_centi, 30015);
    assert_eq!(rep.feels_like_centi, 29900);
    assert_eq!(rep.humidity, 50);
    assert_eq!(rep.pressure, 1012);
    assert_eq!(rep.wind_speed_centi, 350);
    assert_eq!(rep.descriptions, vec!["clear sky".to_string()]);

    let lines = render_lines(&rep);
    let all = lines.join("\n");
    assert!(all.contains("Kyiv, UA"));
    assert!(all.contains("\u{2600}\u{fe0f}"));
    assert!(all.contains("   Status: clear sky"));
    assert!(all.contains("   Temperature: 27.0\u{b0}C / 80.6\u{b0}F"));
    assert!(all.contains("   Feels like: 25.9\u{b0}C / 78.5\u{b0}F"));
    assert!(all.contains("   Humidity: 50%"));
    assert!(all.contains("   Wind speed: 3.5 m/s"));
    assert!(all.contains("   Pressure: 1012 hPa"));
    assert!(all.contains("   Sunrise: 22:13"));
    assert!(all.contains("   Sunset: 09:20"));
}

#[test]
fn grammar_agrees_with_a_reference_parser() {
    // Documents free of the known weather fields, so only the JSON
    // grammar itself decides: acceptance must agree with serde_json.
    let cases = [
        "{}",
        r#"{"a":[1,2.5e2,true,null,"xA"],"b":{"c":[]}}"#,
        r#"  {  "a" : -0.5 }  "#,
        r#"{"raw":"🌈"}"#,
        r#"{"a":"\ud83c\udf08"}"#,
        r#"{"a":"\ud83c"}"#,
        r#"{"a":"A\t"}"#,
        "{} trailing",
        r#"{"a":01}"#,
        r#"{"a":1.}"#,
        r#"{"a":.5}"#,
        r#"{"a":+1}"#,
        r#"{"a":"\q"}"#,
        r#"{"a":"\ud800"}"#,
        r#"{"a":"unterminated"#,
        r#"{"a" 1}"#,
        r#"{"a":1,}"#,
        "{,}",
        "not json",
    ];
    for doc in cases {
        let reference = serde_json::from_str::<serde_json::Value>(doc).is_ok();
        assert_eq!(decode(doc).is_ok(), reference, "disagreed on {doc:?}");
    }
}

#[test]
fn first_description_falls_back_to_unknown() {
    let rep = decode(r#"{"weather":[]}"#).unwrap();
    assert_eq!(rep.first_description(), "Unknown");
    let rep = decode(r#"{"weather":[{"description":"mist"},{"description":"fog"}]}"#).unwrap();
    assert_eq!(rep.first_description(), "mist");
    let rep = decode(r#"{"weather":[{}]}"#).unwrap();
    assert_eq!(rep.first_description(), "");
}
