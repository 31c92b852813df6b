use power_user_weather::decode::{
    decode_daily, decode_response_to_daily_data_columnar_format, DailyDataColumnarFormat,
};
use power_user_weather::error::WeatherError;
use power_user_weather::resolver::MeasureAndModel;

fn key(measure: &str, model: &str) -> MeasureAndModel {
    MeasureAndModel {
        measure: measure.to_string(),
        model: model.to_string(),
    }
}

fn values(data: &DailyDataColumnarFormat, measure: &str, model: &str) -> Vec<Option<f64>> {
    data.get(&key(measure, model))
        .expect("field present")
        .iter()
        .map(|v| v.as_ref().map(|n| n.as_f64().expect("finite number")))
        .collect()
}

fn decode(text: &str) -> Result<DailyDataColumnarFormat, WeatherError> {
    decode_response_to_daily_data_columnar_format(text.to_string())
}

#[test]
fn decoded_values_keep_each_day() {
    let data = decode(
        r#"{"daily": {"time": ["2026-02-13", "2026-02-14"], "rain_sum_best_match": [0.0, 0.5]}}"#,
    )
    .expect("decodes");
    assert_eq!(data.time, vec!["2026-02-13", "2026-02-14"]);
    assert_eq!(data.data_fields.len(), 1);
    assert_eq!(values(&data, "rain_sum", "best_match"), vec![Some(0.0), Some(0.5)]);
}

#[test]
fn decoded_nulls_stay_missing() {
    let data = decode(
        r#"{"daily": {"time": ["2026-02-13", "2026-02-14"], "rain_sum_best_match": [0.0, null]}}"#,
    )
    .expect("decodes");
    assert_eq!(values(&data, "rain_sum", "best_match"), vec![Some(0.0), None]);
}

#[test]
fn decoded_fields_cover_every_member() {
    let data = decode(
        r#"{"daily": {"time": ["d1"], "rain_sum_kma_gdps": [1], "snowfall_sum_ecmwf_ifs025": [2.5],
            "precipitation_hours_icon_seamless_eps": [null]}}"#,
    )
    .expect("decodes");
    assert_eq!(data.data_fields.len(), 3);
    assert_eq!(values(&data, "rain_sum", "kma_gdps"), vec![Some(1.0)]);
    assert_eq!(values(&data, "snowfall_sum", "ecmwf_ifs025"), vec![Some(2.5)]);
    assert_eq!(values(&data, "precipitation_hours", "icon_seamless_eps"), vec![None]);
    assert!(data.get(&key("rain_sum", "icon_seamless")).is_none());
}

#[test]
fn mixed_null_response_keeps_values() {
    let text = r#"{"daily": {"time": ["a", "b", "c"], "rain_sum_best_match": [0.1, null, 0.7],
        "showers_sum_best_match": [null, null, 0.0]}}"#;
    let data = decode(text).expect("decodes");
    assert_eq!(values(&data, "rain_sum", "best_match"), vec![Some(0.1), None, Some(0.7)]);
    assert_eq!(values(&data, "showers_sum", "best_match"), vec![None, None, Some(0.0)]);
}

#[test]
fn text_that_is_not_json_is_malformed() {
    assert!(matches!(decode("not json"), Err(WeatherError::MalformedResponse(_))));
}

#[test]
fn missing_daily_is_malformed() {
    assert!(matches!(decode(r#"{"hourly": {}}"#), Err(WeatherError::MalformedResponse(_))));
    assert!(matches!(decode(r#"{"daily": null}"#), Err(WeatherError::MalformedResponse(_))));
    assert!(matches!(decode(r#"[1, 2]"#), Err(WeatherError::MalformedResponse(_))));
    assert!(matches!(decode(r#"{"daily": [1]}"#), Err(WeatherError::MalformedResponse(_))));
}

#[test]
fn ill_shaped_daily_is_malformed() {
    assert!(matches!(
        decode(r#"{"daily": {"rain_sum_best_match": [1.0]}}"#),
        Err(WeatherError::MalformedResponse(_))
    ));
    assert!(matches!(
        decode(r#"{"daily": {"time": [1], "rain_sum_best_match": [1.0]}}"#),
        Err(WeatherError::MalformedResponse(_))
    ));
    assert!(matches!(
        decode(r#"{"daily": {"time": ["d"], "rain_sum_best_match": ["x"]}}"#),
        Err(WeatherError::MalformedResponse(_))
    ));
    assert!(matches!(
        decode(r#"{"daily": {"time": ["d"], "rain_sum_best_match": 3}}"#),
        Err(WeatherError::MalformedResponse(_))
    ));
}

#[test]
fn ill_shaped_values_win_over_unknown_names() {
    assert!(matches!(
        decode(r#"{"daily": {"time": ["d"], "rain_sum_unknown_model": [1.0], "zzz_best_match": true}}"#),
        Err(WeatherError::MalformedResponse(_))
    ));
}

#[test]
fn unknown_field_name_fails_the_whole_decode() {
    let result = decode(
        r#"{"daily": {"time": ["d"], "rain_sum_best_match": [1.0], "rain_sum_unknown_model": [2.0]}}"#,
    );
    match result {
        Err(WeatherError::UnresolvableFieldKey(k)) => assert_eq!(k, "rain_sum_unknown_model"),
        _ => panic!("expected an unresolvable field name"),
    }
}

#[test]
fn glued_field_name_fails_the_whole_decode() {
    let result = decode(r#"{"daily": {"time": ["d"], "rain_sumbest_match": [1.0]}}"#);
    match result {
        Err(WeatherError::MissingKeySeparator(k)) => assert_eq!(k, "rain_sumbest_match"),
        _ => panic!("expected a missing separator"),
    }
}

#[test]
fn decode_daily_reads_a_parsed_document() {
    let doc: serde_json::Value =
        serde_json::from_str(r#"{"daily": {"time": [], "rain_sum_era5": []}}"#).expect("json");
    let data = decode_daily(&doc).expect("decodes");
    assert!(data.time.is_empty());
    assert_eq!(values(&data, "rain_sum", "era5"), Vec::<Option<f64>>::new());
}

#[test]
fn daily_with_only_time_has_no_fields() {
    let data = decode(r#"{"daily": {"time": ["d"]}}"#).expect("decodes");
    assert_eq!(data.time, vec!["d"]);
    assert!(data.data_fields.is_empty());
}
