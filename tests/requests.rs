use power_user_weather::geocoding::{geocoding_url, location_display_name};
use power_user_weather::models::WeatherDataSource;
use power_user_weather::precipitation::{forecast_url, historical_url, PrecipSource};
use power_user_weather::request::{summable_precipitation_url, weather_data_url, PrecipitationUnit};

#[test]
fn precipitation_unit_names() {
    assert_eq!(PrecipitationUnit::try_from("mm"), Ok(PrecipitationUnit::Millimeters));
    assert_eq!(PrecipitationUnit::try_from("inch"), Ok(PrecipitationUnit::Inches));
    assert_eq!(
        PrecipitationUnit::try_from("cm"),
        Err("Invalid precipitation unit: cm".to_string())
    );
    assert_eq!(PrecipitationUnit::Millimeters.as_str(), "mm");
    assert_eq!(PrecipitationUnit::Inches.as_str(), "inch");
}

#[test]
fn weather_url_lists_measures_and_models() {
    let url = weather_data_url(
        "api.open-meteo.com/v1/forecast",
        "40.7",
        "-74",
        "2026-02-13",
        "2026-02-14",
        PrecipitationUnit::Inches,
        "UTC",
        &["kma_gdps", "best_match"],
        &["rain_sum", "snowfall_sum"],
    );
    assert_eq!(
        url,
        "https://api.open-meteo.com/v1/forecast?latitude=40.7&longitude=-74&start_date=2026-02-13&\
         end_date=2026-02-14&daily=rain_sum,snowfall_sum&precipitation_unit=inch&timezone=UTC&\
         models=kma_gdps,best_match"
    );
    let empty = weather_data_url("h", "1", "2", "s", "e", PrecipitationUnit::Millimeters, "z", &[], &[]);
    assert_eq!(
        empty,
        "https://h?latitude=1&longitude=2&start_date=s&end_date=e&daily=&precipitation_unit=mm&timezone=z&models="
    );
}

#[test]
fn archive_url_asks_for_every_summable_measure() {
    let url = summable_precipitation_url(
        WeatherDataSource::HistoricalArchive,
        "1",
        "2",
        "2026-01-01",
        "2026-01-02",
        PrecipitationUnit::Millimeters,
        "UTC",
    );
    assert_eq!(
        url,
        "https://archive-api.open-meteo.com/v1/archive?latitude=1&longitude=2&start_date=2026-01-01&\
         end_date=2026-01-02&daily=rain_sum,snowfall_sum,precipitation_sum,precipitation_hours&\
         precipitation_unit=mm&timezone=UTC&models=best_match,ecmwf_ifs,ecmwf_ifs_analysis_long_window,\
         era5_seamless,era5,era5_land,era5_ensemble,cerra"
    );
}

#[test]
fn geocoding_url_encodes_the_city() {
    assert_eq!(
        geocoding_url("New York, NY"),
        "https://geocoding-api.open-meteo.com/v1/search?name=New%20York%2C%20NY&count=1&language=en&format=json"
    );
    assert_eq!(
        geocoding_url("Zürich"),
        "https://geocoding-api.open-meteo.com/v1/search?name=Z%C3%BCrich&count=1&language=en&format=json"
    );
}

#[test]
fn place_names() {
    assert_eq!(location_display_name("Seattle", Some("Washington"), Some("US")), "Seattle, Washington");
    assert_eq!(location_display_name("Paris", None, Some("France")), "Paris, France");
    assert_eq!(location_display_name("Nowhere", None, None), "Nowhere, Unknown");
}

#[test]
fn precipitation_urls() {
    assert_eq!(
        historical_url("1", "2", "a", "b", "mm", "UTC"),
        "https://archive-api.open-meteo.com/v1/archive?latitude=1&longitude=2&start_date=a&end_date=b&\
         daily=precipitation_sum&precipitation_unit=mm&timezone=UTC"
    );
    assert_eq!(
        forecast_url("1", "2", "a", "b", "inch", "UTC", true),
        "https://ensemble-api.open-meteo.com/v1/ensemble?latitude=1&longitude=2&start_date=a&end_date=b&\
         daily=precipitation_sum_mean,precipitation_sum_min,precipitation_sum_max&precipitation_unit=inch&timezone=UTC"
    );
    assert_eq!(
        forecast_url("1", "2", "a", "b", "mm", "UTC", false),
        "https://api.open-meteo.com/v1/forecast?latitude=1&longitude=2&start_date=a&end_date=b&\
         daily=precipitation_sum&precipitation_unit=mm&timezone=UTC"
    );
}

#[test]
fn precip_source_labels() {
    assert_eq!(PrecipSource::HistoricalArchive.label(), "Historical Archive");
    assert_eq!(PrecipSource::ForecastStandard.label(), "Standard Forecast");
    assert_eq!(PrecipSource::ForecastEnsemble.label(), "Ensemble Forecast");
}
