use power_user_weather::decode::decode_response_to_daily_data_columnar_format;
use power_user_weather::resolver::response_key_to_measure_and_model;

const TEST_MODELS: [&str; 5] = [
    "meteoswiss_icon_seamless",
    "italia_meteo_arpae_icon_2i",
    "kma_gdps",
    "kma_ldps",
    "kma_seamless",
];

const TEST_MEASURES: [&str; 5] = [
    "rain_sum",
    "showers_sum",
    "snowfall_sum",
    "precipitation_sum",
    "precipitation_hours",
];

#[test]
fn parses_some_measure_model_combinations() {
    // Note: icon_seamless is a substring of certain other ones.
    let result =
        response_key_to_measure_and_model("rain_sum_meteoswiss_icon_seamless".to_string())
            .expect("Expected valid parse");
    assert_eq!(result.measure, "rain_sum");
    assert_eq!(result.model, "meteoswiss_icon_seamless");
}

#[test]
fn parses_all_measure_model_combinations() {
    for measure in TEST_MEASURES {
        for model in TEST_MODELS {
            let key = format!("{}_{}", measure, model);

            let result =
                response_key_to_measure_and_model(key.clone()).expect("Expected valid parse");

            assert_eq!(result.measure, measure);
            assert_eq!(result.model, model);
        }
    }
}

#[test]
fn errors_when_no_model_matches() {
    let key = "rain_sum_unknown_model".to_string();
    let result = response_key_to_measure_and_model(key);

    assert!(result.is_err());
}

#[test]
fn errors_when_separator_missing() {
    // Ends with a valid model but missing underscore separator.
    // rain_sum AND meteoswiss_icon_seamless
    let key = "rain_summeteoswiss_icon_seamless".to_string();
    let result = response_key_to_measure_and_model(key);

    assert!(result.is_err());
}

#[test]
fn selects_full_model_when_models_overlap() {
    let key = "rain_sum_kma_gdps".to_string();

    let result = response_key_to_measure_and_model(key).expect("Expected valid parse");

    assert_eq!(result.measure, "rain_sum");
    assert_eq!(result.model, "kma_gdps");
}

#[test]
fn measure_can_contain_underscores() {
    let key = "precipitation_hours_kma_ldps".to_string();

    let result = response_key_to_measure_and_model(key).expect("Expected valid parse");

    assert_eq!(result.measure, "precipitation_hours");
    assert_eq!(result.model, "kma_ldps");
}

const ALL_FLOATS: &str = r#"
{
    "latitude": 40.710335,
    "longitude": -73.99308,
    "generationtime_ms": 1.6531944274902344,
    "utc_offset_seconds": 0,
    "timezone": "GMT",
    "timezone_abbreviation": "GMT",
    "elevation": 51.0,
    "daily_units": {
        "time": "iso8601",
        "rain_sum_best_match": "mm",
        "showers_sum_best_match": "mm"
    },
    "daily": {
        "time": [
            "2026-02-13",
            "2026-02-14",
            "2026-02-15",
            "2026-02-16",
            "2026-02-17",
            "2026-02-18",
            "2026-02-19",
            "2026-02-20",
            "2026-02-21"
        ],
        "rain_sum_best_match": [
            0.00,
            0.50,
            0.00,
            0.10,
            0.00,
            0.30,
            0.30,
            2.60,
            0.70
        ],
        "showers_sum_best_match": [
            0.00,
            0.00,
            0.00,
            0.00,
            0.00,
            0.00,
            0.00,
            0.00,
            0.00
        ]
    }
}
    "#;

const MIXED_NULLS: &str = r#"
{
    "latitude": 40.710335,
    "longitude": -73.99308,
    "generationtime_ms": 1.6531944274902344,
    "utc_offset_seconds": 0,
    "timezone": "GMT",
    "timezone_abbreviation": "GMT",
    "elevation": 51.0,
    "daily_units": {
        "time": "iso8601",
        "rain_sum_best_match": "mm",
        "showers_sum_best_match": "mm"
    },
    "daily": {
        "time": [
            "2026-02-13",
            "2026-02-14",
            "2026-02-15",
            "2026-02-16",
            "2026-02-17",
            "2026-02-18",
            "2026-02-19",
            "2026-02-20",
            "2026-02-21"
        ],
        "rain_sum_best_match": [
            0.00,
            0.50,
            0.00,
            0.10,
            0.00,
            null,
            null,
            null,
            null
        ],
        "showers_sum_best_match": [
            0.00,
            0.00,
            0.00,
            0.00,
            0.00,
            0.00,
            0.00,
            0.00,
            null
        ]
    }
}
    "#;

#[test]
fn parse_response_all_floats() {
    let response_json = ALL_FLOATS;

    // Confirm this is valid JSON.
    let _: serde_json::Value = serde_json::from_str(response_json).expect("Failed to parse JSON");

    let decode = decode_response_to_daily_data_columnar_format(response_json.to_string());

    assert!(decode.is_ok());

    let expected_time = vec![
        "2026-02-13",
        "2026-02-14",
        "2026-02-15",
        "2026-02-16",
        "2026-02-17",
        "2026-02-18",
        "2026-02-19",
        "2026-02-20",
        "2026-02-21",
    ];

    assert_eq!(decode.unwrap().time, expected_time);
}

#[test]
fn parse_response_mixed_nulls_and_floats() {
    let response_json = MIXED_NULLS;

    // Confirm this is valid JSON.
    let _: serde_json::Value = serde_json::from_str(response_json).expect("Failed to parse JSON");

    let decode = decode_response_to_daily_data_columnar_format(response_json.to_string());

    assert!(decode.is_ok());

    let expected_time = vec![
        "2026-02-13",
        "2026-02-14",
        "2026-02-15",
        "2026-02-16",
        "2026-02-17",
        "2026-02-18",
        "2026-02-19",
        "2026-02-20",
        "2026-02-21",
    ];

    assert_eq!(decode.unwrap().time, expected_time);
}
