use power_user_weather::error::WeatherError;
use power_user_weather::models::{
    daily_summable_precipitation_measures_for_weather_data_source, models_for_weather_data_source,
    WeatherDataSource,
};
use power_user_weather::resolver::{response_key_to_measure_and_model, ModelRegistry};

fn registry_models() -> Vec<&'static str> {
    let registry = ModelRegistry::new();
    (0..registry.len()).map(|i| registry.get(i)).collect()
}

#[test]
fn registry_holds_each_model_once() {
    let models = registry_models();
    assert_eq!(models.len(), 70);
    let mut sorted = models.clone();
    sorted.sort();
    sorted.dedup();
    assert_eq!(sorted.len(), 70);
    for source in [
        WeatherDataSource::HistoricalArchive,
        WeatherDataSource::ForecastStandard,
        WeatherDataSource::ForecastEnsemble,
    ] {
        for m in models_for_weather_data_source(source) {
            assert!(models.contains(m));
        }
    }
}

#[test]
fn registry_is_longest_first_then_alphabetical() {
    let models = registry_models();
    for pair in models.windows(2) {
        assert!(
            pair[0].len() > pair[1].len() || (pair[0].len() == pair[1].len() && pair[0] < pair[1])
        );
    }
    assert_eq!(models[0], "knmi_harmonie_arome_netherlands");
    assert_eq!(models[1], "ecmwf_ifs_analysis_long_window");
    assert_eq!(models[2], "ukmo_global_deterministic_10km");
    assert_eq!(models[models.len() - 1], "era5");
}

#[test]
fn rebuilding_the_registry_gives_the_same_order() {
    assert_eq!(registry_models(), registry_models());
}

#[test]
fn resolve_picks_the_longest_model() {
    let registry = ModelRegistry::new();
    let r = registry.resolve("rain_sum_meteoswiss_icon_seamless").expect("resolves");
    assert_eq!(r.measure, "rain_sum");
    assert_eq!(r.model, "meteoswiss_icon_seamless");
    let r = registry.resolve("snowfall_sum_icon_seamless").expect("resolves");
    assert_eq!(r.measure, "snowfall_sum");
    assert_eq!(r.model, "icon_seamless");
    let r = registry.resolve("rain_sum_ecmwf_ifs025_ensemble").expect("resolves");
    assert_eq!(r.model, "ecmwf_ifs025_ensemble");
}

#[test]
fn resolve_reports_the_offending_name() {
    assert_eq!(
        response_key_to_measure_and_model("rain_sum_unknown_model".to_string()),
        Err(WeatherError::UnresolvableFieldKey("rain_sum_unknown_model".to_string()))
    );
    assert_eq!(
        response_key_to_measure_and_model("rain_summeteoswiss_icon_seamless".to_string()),
        Err(WeatherError::MissingKeySeparator("rain_summeteoswiss_icon_seamless".to_string()))
    );
}

#[test]
fn resolve_edge_cases() {
    // The model alone has nothing before it.
    assert!(matches!(
        response_key_to_measure_and_model("kma_gdps".to_string()),
        Err(WeatherError::MissingKeySeparator(_))
    ));
    // An empty measure is accepted as it is.
    let r = response_key_to_measure_and_model("_kma_gdps".to_string()).expect("resolves");
    assert_eq!(r.measure, "");
    assert_eq!(r.model, "kma_gdps");
    assert!(matches!(
        response_key_to_measure_and_model(String::new()),
        Err(WeatherError::UnresolvableFieldKey(_))
    ));
}

#[test]
fn source_lists() {
    let archive = models_for_weather_data_source(WeatherDataSource::HistoricalArchive);
    assert_eq!(archive.len(), 8);
    assert_eq!(archive[0], "best_match");
    assert_eq!(models_for_weather_data_source(WeatherDataSource::ForecastStandard).len(), 48);
    assert_eq!(models_for_weather_data_source(WeatherDataSource::ForecastEnsemble).len(), 16);
    assert_eq!(
        daily_summable_precipitation_measures_for_weather_data_source(
            WeatherDataSource::ForecastStandard
        ),
        &["rain_sum", "showers_sum", "snowfall_sum", "precipitation_sum", "precipitation_hours"]
    );
    assert_eq!(
        daily_summable_precipitation_measures_for_weather_data_source(
            WeatherDataSource::HistoricalArchive
        ),
        &["rain_sum", "snowfall_sum", "precipitation_sum", "precipitation_hours"]
    );
}

#[test]
fn source_labels_and_endpoints() {
    assert_eq!(WeatherDataSource::HistoricalArchive.label(), "Historical Archive");
    assert_eq!(WeatherDataSource::ForecastStandard.label(), "Standard Forecast");
    assert_eq!(WeatherDataSource::ForecastEnsemble.label(), "Ensemble Forecast");
    assert_eq!(
        WeatherDataSource::ForecastEnsemble.url_base(),
        "ensemble-api.open-meteo.com/v1/ensemble"
    );
}
