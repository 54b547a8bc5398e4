//! The decoded weather record and its mathematical model.
//!
//! Every field the document may omit defaults to zero or empty, so the
//! record always exists after a successful decode. A decoded temperature
//! of exactly zero is treated as implausible: the upstream service never
//! reports absolute zero, so it signals a bad city or credential.

use vstd::prelude::*;
use crate::convert::CENTI_LIMIT;

verus! {

/// One decoded weather document, temperatures and wind speed in
/// centi-units (hundredths).
#[derive(Debug)]
pub struct WeatherReport {
    pub temp_centi: i64,
    pub feels_like_centi: i64,
    pub humidity: u8,
    pub pressure: u16,
    pub descriptions: Vec<String>,
    pub wind_speed_centi: i64,
    pub name: String,
    pub country: String,
    pub sunrise: u64,
    pub sunset: u64,
}

/// The mathematical shape of a report.
#[verifier::ext_equal]
pub ghost struct ReportModel {
    pub temp: int,
    pub feels_like: int,
    pub humidity: int,
    pub pressure: int,
    pub descriptions: Seq<Seq<char>>,
    pub wind_speed: int,
    pub name: Seq<char>,
    pub country: Seq<char>,
    pub sunrise: int,
    pub sunset: int,
}

impl View for WeatherReport {
    type V = ReportModel;

    open spec fn view(&self) -> ReportModel {
        ReportModel {
            temp: self.temp_centi as int,
            feels_like: self.feels_like_centi as int,
            humidity: self.humidity as int,
            pressure: self.pressure as int,
            descriptions: self.descriptions@.map_values(|d: String| d@),
            wind_speed: self.wind_speed_centi as int,
            name: self.name@,
            country: self.country@,
            sunrise: self.sunrise as int,
            sunset: self.sunset as int,
        }
    }
}

impl ReportModel {
    /// Every reading sits inside the fixed-point range.
    pub open spec fn wf(self) -> bool {
        &&& -CENTI_LIMIT <= self.temp <= CENTI_LIMIT
        &&& -CENTI_LIMIT <= self.feels_like <= CENTI_LIMIT
        &&& -CENTI_LIMIT <= self.wind_speed <= CENTI_LIMIT
        &&& 0 <= self.humidity <= 255
        &&& 0 <= self.pressure <= 65535
        &&& 0 <= self.sunrise <= u64::MAX
        &&& 0 <= self.sunset <= u64::MAX
    }
}

/// The all-default report model: zero readings, empty text.
pub open spec fn default_model() -> ReportModel {
    ReportModel {
        temp: 0,
        feels_like: 0,
        humidity: 0,
        pressure: 0,
        descriptions: seq![],
        wind_speed: 0,
        name: seq![],
        country: seq![],
        sunrise: 0,
        sunset: 0,
    }
}

/// The all-default report.
pub fn default_report() -> (r: WeatherReport)
    ensures
        r@ == default_model(),
{
    let r = WeatherReport {
        temp_centi: 0,
        feels_like_centi: 0,
        humidity: 0,
        pressure: 0,
        descriptions: Vec::new(),
        wind_speed_centi: 0,
        name: String::new(),
        country: String::new(),
        sunrise: 0,
        sunset: 0,
    };
    proof {
        assert(r@ =~~= default_model());
    }
    r
}

/// What a failed run reports: a document that does not decode, or one
/// whose temperature reading is implausible.
#[derive(Clone, Copy, PartialEq, Eq, Structural, Debug)]
pub enum WeatherError {
    Malformed,
    Implausible,
}

/// The condition description the report leads with.
pub open spec fn spec_first_description(m: ReportModel) -> Seq<char> {
    if m.descriptions.len() > 0 {
        m.descriptions[0]
    } else {
        "Unknown"@
    }
}

impl WeatherReport {
    /// The temperature reading is not the implausible exact zero.
    pub fn plausible(&self) -> (r: bool)
        ensures
            r == (self@.temp != 0),
    {
        self.temp_centi != 0
    }

    /// The first condition description, or "Unknown" when none came.
    pub fn first_description(&self) -> (r: String)
        ensures
            r@ == spec_first_description(self@),
    {
        if self.descriptions.len() > 0 {
            let d = self.descriptions[0].clone();
            proof {
                assert(self@.descriptions[0] == self.descriptions@.map_values(|x: String| x@)[0]);
            }
            d
        } else {
            String::from_str("Unknown")
        }
    }
}

} // verus!
