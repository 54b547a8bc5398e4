//! Decoding a weather document into a [`WeatherReport`].
//!
//! The document is read permissively: a missing section or field keeps
//! its zero or empty default, unknown fields are ignored, and only a
//! malformed document — bad JSON, a wrongly typed field, a duplicated
//! known field, an integer field out of range — is an error.

use vstd::prelude::*;
use crate::convert::CENTI_LIMIT;
use crate::json::{
    entries_model, json_model, list_model, obj_first, skip_ws, spec_obj_first, spec_skip_ws,
    step_to, EntryList, Json, JsonList, JsonModel, MAX_DEPTH,
};
use crate::report::{default_model, default_report, ReportModel, WeatherError, WeatherReport};
use crate::text::{chars_of, string_from_chars};

verus! {

/// A centi-unit reading clamped to the fixed-point range.
pub open spec fn clamp_centi(c: int) -> int {
    if c > CENTI_LIMIT {
        CENTI_LIMIT as int
    } else if c < -CENTI_LIMIT {
        -(CENTI_LIMIT as int)
    } else {
        c
    }
}

fn clamp_exec(c: i64) -> (r: i64)
    ensures
        r == clamp_centi(c as int),
        -CENTI_LIMIT <= r <= CENTI_LIMIT,
{
    if c > CENTI_LIMIT {
        CENTI_LIMIT
    } else if c < -CENTI_LIMIT {
        -CENTI_LIMIT
    } else {
        c
    }
}

fn eq_chars(a: &Vec<char>, b: &Vec<char>) -> (r: bool)
    ensures
        r == (a@ == b@),
{
    if a.len() != b.len() {
        return false;
    }
    let n = a.len();
    let mut i: usize = 0;
    while i < n
        invariant
            n == a@.len() == b@.len(),
            i <= n,
            forall|k: int| 0 <= k < i ==> a@[k] == b@[k],
        decreases n - i,
    {
        if a[i] != b[i] {
            return false;
        }
        i += 1;
    }
    proof {
        assert(a@ =~= b@);
    }
    true
}

/// The `main` section: temperature, feels-like, humidity, pressure.
pub open spec fn spec_main_fold(
    es: Seq<(Seq<char>, JsonModel)>,
    st: (int, int, int, int),
    seen: (bool, bool, bool, bool),
) -> Option<(int, int, int, int)>
    decreases es.len(),
{
    if es.len() == 0 {
        Some(st)
    } else {
        let k = es[0].0;
        let v = es[0].1;
        if k == "temp"@ {
            if seen.0 {
                None
            } else {
                match v {
                    JsonModel::Num { centi, .. } => spec_main_fold(
                        es.drop_first(),
                        (clamp_centi(centi), st.1, st.2, st.3),
                        (true, seen.1, seen.2, seen.3),
                    ),
                    _ => None,
                }
            }
        } else if k == "feels_like"@ {
            if seen.1 {
                None
            } else {
                match v {
                    JsonModel::Num { centi, .. } => spec_main_fold(
                        es.drop_first(),
                        (st.0, clamp_centi(centi), st.2, st.3),
                        (seen.0, true, seen.2, seen.3),
                    ),
                    _ => None,
                }
            }
        } else if k == "humidity"@ {
            if seen.2 {
                None
            } else {
                match v {
                    JsonModel::Num { int_val: Some(n), .. } => if n <= 255 {
                        spec_main_fold(
                            es.drop_first(),
                            (st.0, st.1, n, st.3),
                            (seen.0, seen.1, true, seen.3),
                        )
                    } else {
                        None
                    },
                    _ => None,
                }
            }
        } else if k == "pressure"@ {
            if seen.3 {
                None
            } else {
                match v {
                    JsonModel::Num { int_val: Some(n), .. } => if n <= 65535 {
                        spec_main_fold(
                            es.drop_first(),
                            (st.0, st.1, st.2, n),
                            (seen.0, seen.1, seen.2, true),
                        )
                    } else {
                        None
                    },
                    _ => None,
                }
            }
        } else {
            spec_main_fold(es.drop_first(), st, seen)
        }
    }
}

fn main_fold(l: &EntryList, st: (i64, i64, u8, u16), seen: (bool, bool, bool, bool)) -> (r: Option<
    (i64, i64, u8, u16),
>)
    requires
        -CENTI_LIMIT <= st.0 <= CENTI_LIMIT,
        -CENTI_LIMIT <= st.1 <= CENTI_LIMIT,
    ensures
        ({
            let sp = spec_main_fold(
                entries_model(*l),
                (st.0 as int, st.1 as int, st.2 as int, st.3 as int),
                seen,
            );
            &&& (r is Some <==> sp is Some)
            &&& (r matches Some(t) ==> sp == Some((t.0 as int, t.1 as int, t.2 as int, t.3 as int)))
            &&& (r matches Some(t) ==> -CENTI_LIMIT <= t.0 <= CENTI_LIMIT && -CENTI_LIMIT <= t.1
                <= CENTI_LIMIT)
        }),
    decreases *l,
{
    match l {
        EntryList::Nil => Some(st),
        EntryList::Cons(k, v, rest) => {
            proof {
                let es = entries_model(*l);
                assert(es =~= seq![(k@, json_model(*v))] + entries_model(**rest));
                assert(es[0] == (k@, json_model(*v)));
                assert(es.drop_first() =~= entries_model(**rest));
            }
            if eq_chars(k, &chars_of("temp")) {
                if seen.0 {
                    None
                } else {
                    match v {
                        Json::Num { centi, .. } => main_fold(
                            rest,
                            (clamp_exec(*centi), st.1, st.2, st.3),
                            (true, seen.1, seen.2, seen.3),
                        ),
                        _ => None,
                    }
                }
            } else if eq_chars(k, &chars_of("feels_like")) {
                if seen.1 {
                    None
                } else {
                    match v {
                        Json::Num { centi, .. } => main_fold(
                            rest,
                            (st.0, clamp_exec(*centi), st.2, st.3),
                            (seen.0, true, seen.2, seen.3),
                        ),
                        _ => None,
                    }
                }
            } else if eq_chars(k, &chars_of("humidity")) {
                if seen.2 {
                    None
                } else {
                    match v {
                        Json::Num { int_val: Some(n), .. } => if *n <= 255 {
                            main_fold(
                                rest,
                                (st.0, st.1, *n as u8, st.3),
                                (seen.0, seen.1, true, seen.3),
                            )
                        } else {
                            None
                        },
                        _ => None,
                    }
                }
            } else if eq_chars(k, &chars_of("pressure")) {
                if seen.3 {
                    None
                } else {
                    match v {
                        Json::Num { int_val: Some(n), .. } => if *n <= 65535 {
                            main_fold(
                                rest,
                                (st.0, st.1, st.2, *n as u16),
                                (seen.0, seen.1, seen.2, true),
                            )
                        } else {
                            None
                        },
                        _ => None,
                    }
                }
            } else {
                main_fold(rest, st, seen)
            }
        },
    }
}

/// The `wind` section: only the speed is read.
pub open spec fn spec_wind_fold(
    es: Seq<(Seq<char>, JsonModel)>,
    st: int,
    seen: bool,
) -> Option<int>
    decreases es.len(),
{
    if es.len() == 0 {
        Some(st)
    } else {
        let k = es[0].0;
        let v = es[0].1;
        if k == "speed"@ {
            if seen {
                None
            } else {
                match v {
                    JsonModel::Num { centi, .. } => spec_wind_fold(
                        es.drop_first(),
                        clamp_centi(centi),
                        true,
                    ),
                    _ => None,
                }
            }
        } else {
            spec_wind_fold(es.drop_first(), st, seen)
        }
    }
}

fn wind_fold(l: &EntryList, st: i64, seen: bool) -> (r: Option<i64>)
    requires
        -CENTI_LIMIT <= st <= CENTI_LIMIT,
    ensures
        ({
            let sp = spec_wind_fold(entries_model(*l), st as int, seen);
            &&& (r is Some <==> sp is Some)
            &&& (r matches Some(t) ==> sp == Some(t as int))
            &&& (r matches Some(t) ==> -CENTI_LIMIT <= t <= CENTI_LIMIT)
        }),
    decreases *l,
{
    match l {
        EntryList::Nil => Some(st),
        EntryList::Cons(k, v, rest) => {
            proof {
                let es = entries_model(*l);
                assert(es =~= seq![(k@, json_model(*v))] + entries_model(**rest));
                assert(es[0] == (k@, json_model(*v)));
                assert(es.drop_first() =~= entries_model(**rest));
            }
            if eq_chars(k, &chars_of("speed")) {
                if seen {
                    None
                } else {
                    match v {
                        Json::Num { centi, .. } => wind_fold(rest, clamp_exec(*centi), true),
                        _ => None,
                    }
                }
            } else {
                wind_fold(rest, st, seen)
            }
        },
    }
}

/// One element of the `weather` list: its description text.
pub open spec fn spec_weather_entry(
    es: Seq<(Seq<char>, JsonModel)>,
    cur: Seq<char>,
    seen: bool,
) -> Option<Seq<char>>
    decreases es.len(),
{
    if es.len() == 0 {
        Some(cur)
    } else {
        let k = es[0].0;
        let v = es[0].1;
        if k == "description"@ {
            if seen {
                None
            } else {
                match v {
                    JsonModel::Str(t) => spec_weather_entry(es.drop_first(), t, true),
                    _ => None,
                }
            }
        } else {
            spec_weather_entry(es.drop_first(), cur, seen)
        }
    }
}

fn weather_entry(l: &EntryList, cur: String, seen: bool) -> (r: Option<String>)
    ensures
        ({
            let sp = spec_weather_entry(entries_model(*l), cur@, seen);
            &&& (r is Some <==> sp is Some)
            &&& (r matches Some(t) ==> sp == Some(t@))
        }),
    decreases *l,
{
    match l {
        EntryList::Nil => Some(cur),
        EntryList::Cons(k, v, rest) => {
            proof {
                let es = entries_model(*l);
                assert(es =~= seq![(k@, json_model(*v))] + entries_model(**rest));
                assert(es[0] == (k@, json_model(*v)));
                assert(es.drop_first() =~= entries_model(**rest));
            }
            if eq_chars(k, &chars_of("description")) {
                if seen {
                    None
                } else {
                    match v {
                        Json::Str(t) => weather_entry(rest, string_from_chars(t), true),
                        _ => None,
                    }
                }
            } else {
                weather_entry(rest, cur, seen)
            }
        },
    }
}

/// The `weather` list: the description of each condition entry.
pub open spec fn spec_weather_fold(items: Seq<JsonModel>) -> Option<Seq<Seq<char>>>
    decreases items.len(),
{
    if items.len() == 0 {
        Some(seq![])
    } else {
        match items[0] {
            JsonModel::Obj(es) => match spec_weather_entry(es, seq![], false) {
                None => None,
                Some(d) => match spec_weather_fold(items.drop_first()) {
                    None => None,
                    Some(rest) => Some(seq![d] + rest),
                },
            },
            _ => None,
        }
    }
}

fn weather_fold(l: &JsonList) -> (r: Option<Vec<String>>)
    ensures
        ({
            let sp = spec_weather_fold(list_model(*l));
            &&& (r is Some <==> sp is Some)
            &&& (r matches Some(v) ==> sp == Some(v@.map_values(|d: String| d@)))
        }),
    decreases *l,
{
    match l {
        JsonList::Nil => {
            let v: Vec<String> = Vec::new();
            proof {
                assert(v@.map_values(|d: String| d@) =~= Seq::<Seq<char>>::empty());
            }
            Some(v)
        },
        JsonList::Cons(j, rest) => {
            proof {
                let items = list_model(*l);
                assert(items =~= seq![json_model(*j)] + list_model(**rest));
                assert(items[0] == json_model(*j));
                assert(items.drop_first() =~= list_model(**rest));
            }
            match j {
                Json::Obj(es) => match weather_entry(&**es, String::new(), false) {
                    None => None,
                    Some(d) => match weather_fold(rest) {
                        None => None,
                        Some(v) => {
                            let mut v2 = v;
                            v2.insert(0, d);
                            proof {
                                assert(v2@.map_values(|x: String| x@) =~= seq![d@] + v@.map_values(
                                    |x: String| x@,
                                ));
                            }
                            Some(v2)
                        },
                    },
                },
                _ => None,
            }
        },
    }
}

/// The `sys` section: country code, sunrise, sunset.
pub open spec fn spec_sys_fold(
    es: Seq<(Seq<char>, JsonModel)>,
    st: (Seq<char>, int, int),
    seen: (bool, bool, bool),
) -> Option<(Seq<char>, int, int)>
    decreases es.len(),
{
    if es.len() == 0 {
        Some(st)
    } else {
        let k = es[0].0;
        let v = es[0].1;
        if k == "country"@ {
            if seen.0 {
                None
            } else {
                match v {
                    JsonModel::Str(t) => spec_sys_fold(
                        es.drop_first(),
                        (t, st.1, st.2),
                        (true, seen.1, seen.2),
                    ),
                    _ => None,
                }
            }
        } else if k == "sunrise"@ {
            if seen.1 {
                None
            } else {
                match v {
                    JsonModel::Num { int_val: Some(n), .. } => spec_sys_fold(
                        es.drop_first(),
                        (st.0, n, st.2),
                        (seen.0, true, seen.2),
                    ),
                    _ => None,
                }
            }
        } else if k == "sunset"@ {
            if seen.2 {
                None
            } else {
                match v {
                    JsonModel::Num { int_val: Some(n), .. } => spec_sys_fold(
                        es.drop_first(),
                        (st.0, st.1, n),
                        (seen.0, seen.1, true),
                    ),
                    _ => None,
                }
            }
        } else {
            spec_sys_fold(es.drop_first(), st, seen)
        }
    }
}

fn sys_fold(l: &EntryList, st: (String, u64, u64), seen: (bool, bool, bool)) -> (r: Option<
    (String, u64, u64),
>)
    ensures
        ({
            let sp = spec_sys_fold(entries_model(*l), (st.0@, st.1 as int, st.2 as int), seen);
            &&& (r is Some <==> sp is Some)
            &&& (r matches Some(t) ==> sp == Some((t.0@, t.1 as int, t.2 as int)))
        }),
    decreases *l,
{
    match l {
        EntryList::Nil => Some(st),
        EntryList::Cons(k, v, rest) => {
            proof {
                let es = entries_model(*l);
                assert(es =~= seq![(k@, json_model(*v))] + entries_model(**rest));
                assert(es[0] == (k@, json_model(*v)));
                assert(es.drop_first() =~= entries_model(**rest));
            }
            if eq_chars(k, &chars_of("country")) {
                if seen.0 {
                    None
                } else {
                    match v {
                        Json::Str(t) => sys_fold(
                            rest,
                            (string_from_chars(t), st.1, st.2),
                            (true, seen.1, seen.2),
                        ),
                        _ => None,
                    }
                }
            } else if eq_chars(k, &chars_of("sunrise")) {
                if seen.1 {
                    None
                } else {
                    match v {
                        Json::Num { int_val: Some(n), .. } => sys_fold(
                            rest,
                            (st.0, *n, st.2),
                            (seen.0, true, seen.2),
                        ),
                        _ => None,
                    }
                }
            } else if eq_chars(k, &chars_of("sunset")) {
                if seen.2 {
                    None
                } else {
                    match v {
                        Json::Num { int_val: Some(n), .. } => sys_fold(
                            rest,
                            (st.0, st.1, *n),
                            (seen.0, seen.1, true),
                        ),
                        _ => None,
                    }
                }
            } else {
                sys_fold(rest, st, seen)
            }
        },
    }
}

/// The top-level document: the five known sections, each at most once,
/// anything else ignored.
pub open spec fn spec_top_fold(
    es: Seq<(Seq<char>, JsonModel)>,
    st: ReportModel,
    seen: (bool, bool, bool, bool, bool),
) -> Option<ReportModel>
    decreases es.len(),
{
    if es.len() == 0 {
        Some(st)
    } else {
        let k = es[0].0;
        let v = es[0].1;
        if k == "main"@ {
            if seen.0 {
                None
            } else {
                match v {
                    JsonModel::Obj(mes) => match spec_main_fold(
                        mes,
                        (0, 0, 0, 0),
                        (false, false, false, false),
                    ) {
                        None => None,
                        Some(t) => spec_top_fold(
                            es.drop_first(),
                            ReportModel {
                                temp: t.0,
                                feels_like: t.1,
                                humidity: t.2,
                                pressure: t.3,
                                ..st
                            },
                            (true, seen.1, seen.2, seen.3, seen.4),
                        ),
                    },
                    _ => None,
                }
            }
        } else if k == "weather"@ {
            if seen.1 {
                None
            } else {
                match v {
                    JsonModel::Arr(items) => match spec_weather_fold(items) {
                        None => None,
                        Some(ds) => spec_top_fold(
                            es.drop_first(),
                            ReportModel { descriptions: ds, ..st },
                            (seen.0, true, seen.2, seen.3, seen.4),
                        ),
                    },
                    _ => None,
                }
            }
        } else if k == "wind"@ {
            if seen.2 {
                None
            } else {
                match v {
                    JsonModel::Obj(wes) => match spec_wind_fold(wes, 0, false) {
                        None => None,
                        Some(w) => spec_top_fold(
                            es.drop_first(),
                            ReportModel { wind_speed: w, ..st },
                            (seen.0, seen.1, true, seen.3, seen.4),
                        ),
                    },
                    _ => None,
                }
            }
        } else if k == "name"@ {
            if seen.3 {
                None
            } else {
                match v {
                    JsonModel::Str(t) => spec_top_fold(
                        es.drop_first(),
                        ReportModel { name: t, ..st },
                        (seen.0, seen.1, seen.2, true, seen.4),
                    ),
                    _ => None,
                }
            }
        } else if k == "sys"@ {
            if seen.4 {
                None
            } else {
                match v {
                    JsonModel::Obj(ses) => match spec_sys_fold(
                        ses,
                        (seq![], 0, 0),
                        (false, false, false),
                    ) {
                        None => None,
                        Some(t) => spec_top_fold(
                            es.drop_first(),
                            ReportModel { country: t.0, sunrise: t.1, sunset: t.2, ..st },
                            (seen.0, seen.1, seen.2, seen.3, true),
                        ),
                    },
                    _ => None,
                }
            }
        } else {
            spec_top_fold(es.drop_first(), st, seen)
        }
    }
}

fn top_fold(l: &EntryList, st: WeatherReport, seen: (bool, bool, bool, bool, bool)) -> (r: Option<
    WeatherReport,
>)
    requires
        st@.wf(),
    ensures
        ({
            let sp = spec_top_fold(entries_model(*l), st@, seen);
            &&& (r is Some <==> sp is Some)
            &&& (r matches Some(rep) ==> sp == Some(rep@))
            &&& (r matches Some(rep) ==> rep@.wf())
        }),
    decreases *l,
{
    match l {
        EntryList::Nil => Some(st),
        EntryList::Cons(k, v, rest) => {
            proof {
                let es = entries_model(*l);
                assert(es =~= seq![(k@, json_model(*v))] + entries_model(**rest));
                assert(es[0] == (k@, json_model(*v)));
                assert(es.drop_first() =~= entries_model(**rest));
            }
            if eq_chars(k, &chars_of("main")) {
                if seen.0 {
                    None
                } else {
                    match v {
                        Json::Obj(mes) => match main_fold(
                            &**mes,
                            (0, 0, 0, 0),
                            (false, false, false, false),
                        ) {
                            None => None,
                            Some(t) => {
                                let st2 = WeatherReport {
                                    temp_centi: t.0,
                                    feels_like_centi: t.1,
                                    humidity: t.2,
                                    pressure: t.3,
                                    ..st
                                };
                                top_fold(rest, st2, (true, seen.1, seen.2, seen.3, seen.4))
                            },
                        },
                        _ => None,
                    }
                }
            } else if eq_chars(k, &chars_of("weather")) {
                if seen.1 {
                    None
                } else {
                    match v {
                        Json::Arr(items) => match weather_fold(&**items) {
                            None => None,
                            Some(ds) => {
                                let st2 = WeatherReport { descriptions: ds, ..st };
                                top_fold(rest, st2, (seen.0, true, seen.2, seen.3, seen.4))
                            },
                        },
                        _ => None,
                    }
                }
            } else if eq_chars(k, &chars_of("wind")) {
                if seen.2 {
                    None
                } else {
                    match v {
                        Json::Obj(wes) => match wind_fold(&**wes, 0, false) {
                            None => None,
                            Some(w) => {
                                let st2 = WeatherReport { wind_speed_centi: w, ..st };
                                top_fold(rest, st2, (seen.0, seen.1, true, seen.3, seen.4))
                            },
                        },
                        _ => None,
                    }
                }
            } else if eq_chars(k, &chars_of("name")) {
                if seen.3 {
                    None
                } else {
                    match v {
                        Json::Str(t) => {
                            let st2 = WeatherReport { name: string_from_chars(t), ..st };
                            top_fold(rest, st2, (seen.0, seen.1, seen.2, true, seen.4))
                        },
                        _ => None,
                    }
                }
            } else if eq_chars(k, &chars_of("sys")) {
                if seen.4 {
                    None
                } else {
                    match v {
                        Json::Obj(ses) => match sys_fold(
                            &**ses,
                            (String::new(), 0, 0),
                            (false, false, false),
                        ) {
                            None => None,
                            Some(t) => {
                                let st2 = WeatherReport {
                                    country: t.0,
                                    sunrise: t.1,
                                    sunset: t.2,
                                    ..st
                                };
                                top_fold(rest, st2, (seen.0, seen.1, seen.2, seen.3, true))
                            },
                        },
                        _ => None,
                    }
                }
            } else {
                top_fold(rest, st, seen)
            }
        },
    }
}

/// A decoded document keeps a section's starting values wherever the
/// section's key never occurs: a missing `main`, `weather`, `wind`,
/// `name` or `sys` leaves its fields at their defaults rather than
/// failing the decode.
pub proof fn lemma_missing_section_defaults(
    es: Seq<(Seq<char>, JsonModel)>,
    st: ReportModel,
    seen: (bool, bool, bool, bool, bool),
    m: ReportModel,
)
    requires
        spec_top_fold(es, st, seen) == Some(m),
    ensures
        (forall|i: int| 0 <= i < es.len() ==> es[i].0 != "main"@) ==> (m.temp == st.temp
            && m.feels_like == st.feels_like && m.humidity == st.humidity && m.pressure
            == st.pressure),
        (forall|i: int| 0 <= i < es.len() ==> es[i].0 != "weather"@) ==> m.descriptions
            == st.descriptions,
        (forall|i: int| 0 <= i < es.len() ==> es[i].0 != "wind"@) ==> m.wind_speed
            == st.wind_speed,
        (forall|i: int| 0 <= i < es.len() ==> es[i].0 != "name"@) ==> m.name == st.name,
        (forall|i: int| 0 <= i < es.len() ==> es[i].0 != "sys"@) ==> (m.country == st.country
            && m.sunrise == st.sunrise && m.sunset == st.sunset),
    decreases es.len(),
{
    if es.len() > 0 {
        assert(forall|i: int| 0 <= i < es.drop_first().len() ==> es.drop_first()[i] == es[
            i + 1
        ]);
        let k = es[0].0;
        let v = es[0].1;
        if k == "main"@ {
            match v {
                JsonModel::Obj(mes) => {
                    let t = spec_main_fold(mes, (0, 0, 0, 0), (false, false, false, false))->0;
                    lemma_missing_section_defaults(
                        es.drop_first(),
                        ReportModel { temp: t.0, feels_like: t.1, humidity: t.2, pressure: t.3, ..st },
                        (true, seen.1, seen.2, seen.3, seen.4),
                        m,
                    );
                },
                _ => {},
            }
        } else if k == "weather"@ {
            match v {
                JsonModel::Arr(items) => {
                    let ds = spec_weather_fold(items)->0;
                    lemma_missing_section_defaults(
                        es.drop_first(),
                        ReportModel { descriptions: ds, ..st },
                        (seen.0, true, seen.2, seen.3, seen.4),
                        m,
                    );
                },
                _ => {},
            }
        } else if k == "wind"@ {
            match v {
                JsonModel::Obj(wes) => {
                    let w = spec_wind_fold(wes, 0, false)->0;
                    lemma_missing_section_defaults(
                        es.drop_first(),
                        ReportModel { wind_speed: w, ..st },
                        (seen.0, seen.1, true, seen.3, seen.4),
                        m,
                    );
                },
                _ => {},
            }
        } else if k == "name"@ {
            match v {
                JsonModel::Str(t) => {
                    lemma_missing_section_defaults(
                        es.drop_first(),
                        ReportModel { name: t, ..st },
                        (seen.0, seen.1, seen.2, true, seen.4),
                        m,
                    );
                },
                _ => {},
            }
        } else if k == "sys"@ {
            match v {
                JsonModel::Obj(ses) => {
                    let t = spec_sys_fold(ses, (seq![], 0, 0), (false, false, false))->0;
                    lemma_missing_section_defaults(
                        es.drop_first(),
                        ReportModel { country: t.0, sunrise: t.1, sunset: t.2, ..st },
                        (seen.0, seen.1, seen.2, seen.3, true),
                        m,
                    );
                },
                _ => {},
            }
        } else {
            lemma_missing_section_defaults(es.drop_first(), st, seen, m);
        }
    }
}

/// The report a document decodes to, if it decodes at all.
pub open spec fn spec_decode(text: Seq<char>) -> Option<ReportModel> {
    let len = text.len() as int;
    let i0 = spec_skip_ws(text, 0);
    if !(i0 < len && text[i0] == '{') {
        None
    } else {
        match spec_obj_first(text, i0 + 1, MAX_DEPTH - 1) {
            None => None,
            Some((es, e)) => {
                let e2 = spec_skip_ws(text, step_to(e, i0, len));
                if e2 != len {
                    None
                } else {
                    spec_top_fold(es, default_model(), (false, false, false, false, false))
                }
            },
        }
    }
}

/// Decode a weather document. `Ok` exactly when the text decodes; the
/// report then carries the document's readings with defaults filled in.
pub fn decode(text: &str) -> (r: Result<WeatherReport, WeatherError>)
    ensures
        r is Ok <==> spec_decode(text@) is Some,
        r matches Ok(rep) ==> spec_decode(text@) == Some(rep@) && rep@.wf(),
        r matches Err(e) ==> e == WeatherError::Malformed,
{
    let s = chars_of(text);
    let i0 = skip_ws(&s, 0);
    if !(i0 < s.len() && s[i0] == '{') {
        return Err(WeatherError::Malformed);
    }
    match obj_first(&s, i0 + 1, MAX_DEPTH - 1) {
        None => Err(WeatherError::Malformed),
        Some((es, e)) => {
            let e2 = skip_ws(&s, e);
            if e2 != s.len() {
                Err(WeatherError::Malformed)
            } else {
                match top_fold(&es, default_report(), (false, false, false, false, false)) {
                    None => Err(WeatherError::Malformed),
                    Some(rep) => Ok(rep),
                }
            }
        },
    }
}

/// Decode and sanity-check a weather document: a report whose
/// temperature reading is exactly zero is refused as implausible.
pub fn load(text: &str) -> (r: Result<WeatherReport, WeatherError>)
    ensures
        spec_decode(text@) is None ==> r == Result::<WeatherReport, WeatherError>::Err(
            WeatherError::Malformed,
        ),
        spec_decode(text@) matches Some(m) ==> (if m.temp == 0 {
            r == Result::<WeatherReport, WeatherError>::Err(WeatherError::Implausible)
        } else {
            r matches Ok(rep) && rep@ == m && rep@.wf()
        }),
{
    match decode(text) {
        Err(e) => Err(e),
        Ok(rep) => {
            if rep.plausible() {
                Ok(rep)
            } else {
                Err(WeatherError::Implausible)
            }
        },
    }
}

} // verus!
