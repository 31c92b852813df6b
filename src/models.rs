use vstd::prelude::*;

verus! {

/// The three services of the weather API.
#[derive(Debug, Clone, Copy, PartialEq, Eq)]
pub enum WeatherDataSource {
    HistoricalArchive,
    ForecastStandard,
    ForecastEnsemble,
}

/// The characters of each text of a list.
pub open spec fn texts_of(s: Seq<&str>) -> Seq<Seq<char>> {
    s.map_values(|t: &str| t@)
}

/// Models that the historical archive serves.
pub open spec fn archive_model_names() -> Seq<Seq<char>> {
    seq![
        "best_match"@,
        "ecmwf_ifs"@,
        "ecmwf_ifs_analysis_long_window"@,
        "era5_seamless"@,
        "era5"@,
        "era5_land"@,
        "era5_ensemble"@,
        "cerra"@,
    ]
}

/// Models that the historical archive serves.
pub fn archive_models() -> (r: &'static [&'static str])
    ensures
        texts_of(r@) == archive_model_names(),
{
    let r: &'static [&'static str] = &[
        "best_match",
        "ecmwf_ifs",
        "ecmwf_ifs_analysis_long_window",
        "era5_seamless",
        "era5",
        "era5_land",
        "era5_ensemble",
        "cerra",
    ];
    assert(texts_of(r@) =~= archive_model_names());
    r
}

/// Daily precipitation measures of the historical archive that can be summed over days.
pub open spec fn archive_measure_names() -> Seq<Seq<char>> {
    seq![
        "rain_sum"@,
        "snowfall_sum"@,
        "precipitation_sum"@,
        "precipitation_hours"@,
    ]
}

/// Daily precipitation measures of the historical archive that can be summed over days.
pub fn archive_measures() -> (r: &'static [&'static str])
    ensures
        texts_of(r@) == archive_measure_names(),
{
    let r: &'static [&'static str] = &[
        "rain_sum",
        "snowfall_sum",
        "precipitation_sum",
        "precipitation_hours",
    ];
    assert(texts_of(r@) =~= archive_measure_names());
    r
}

/// Models that the standard forecast serves.
pub open spec fn forecast_model_names() -> Seq<Seq<char>> {
    seq![
        "best_match"@,
        "ecmwf_ifs"@,
        "ecmwf_ifs025"@,
        "ecmwf_aifs025_single"@,
        "cma_grapes_global"@,
        "bom_access_global"@,
        "icon_seamless"@,
        "icon_global"@,
        "icon_eu"@,
        "icon_d2"@,
        "metno_seamless"@,
        "metno_nordic"@,
        "dmi_harmonie_arome_europe"@,
        "dmi_seamless"@,
        "knmi_harmonie_arome_netherlands"@,
        "knmi_harmonie_arome_europe"@,
        "knmi_seamless"@,
        "gem_hrdps_west"@,
        "gem_hrdps_continental"@,
        "gem_regional"@,
        "gem_global"@,
        "gem_seamless"@,
        "ncep_hgefs025_ensemble_mean"@,
        "ncep_aigfs025"@,
        "gfs_graphcast025"@,
        "ncep_nam_conus"@,
        "ncep_nbm_conus"@,
        "gfs_hrrr"@,
        "gfs_global"@,
        "gfs_seamless"@,
        "jma_seamless"@,
        "jma_msm"@,
        "jma_gsm"@,
        "meteofrance_seamless"@,
        "meteofrance_arpege_world"@,
        "meteofrance_arpege_europe"@,
        "meteofrance_arome_france"@,
        "meteofrance_arome_france_hd"@,
        "ukmo_seamless"@,
        "ukmo_global_deterministic_10km"@,
        "ukmo_uk_deterministic_2km"@,
        "meteoswiss_icon_ch2"@,
        "meteoswiss_icon_ch1"@,
        "meteoswiss_icon_seamless"@,
        "italia_meteo_arpae_icon_2i"@,
        "kma_gdps"@,
        "kma_ldps"@,
        "kma_seamless"@,
    ]
}

/// Models that the standard forecast serves.
pub fn forecast_models() -> (r: &'static [&'static str])
    ensures
        texts_of(r@) == forecast_model_names(),
{
    let r: &'static [&'static str] = &[
        "best_match",
        "ecmwf_ifs",
        "ecmwf_ifs025",
        "ecmwf_aifs025_single",
        "cma_grapes_global",
        "bom_access_global",
        "icon_seamless",
        "icon_global",
        "icon_eu",
        "icon_d2",
        "metno_seamless",
        "metno_nordic",
        "dmi_harmonie_arome_europe",
        "dmi_seamless",
        "knmi_harmonie_arome_netherlands",
        "knmi_harmonie_arome_europe",
        "knmi_seamless",
        "gem_hrdps_west",
        "gem_hrdps_continental",
        "gem_regional",
        "gem_global",
        "gem_seamless",
        "ncep_hgefs025_ensemble_mean",
        "ncep_aigfs025",
        "gfs_graphcast025",
        "ncep_nam_conus",
        "ncep_nbm_conus",
        "gfs_hrrr",
        "gfs_global",
        "gfs_seamless",
        "jma_seamless",
        "jma_msm",
        "jma_gsm",
        "meteofrance_seamless",
        "meteofrance_arpege_world",
        "meteofrance_arpege_europe",
        "meteofrance_arome_france",
        "meteofrance_arome_france_hd",
        "ukmo_seamless",
        "ukmo_global_deterministic_10km",
        "ukmo_uk_deterministic_2km",
        "meteoswiss_icon_ch2",
        "meteoswiss_icon_ch1",
        "meteoswiss_icon_seamless",
        "italia_meteo_arpae_icon_2i",
        "kma_gdps",
        "kma_ldps",
        "kma_seamless",
    ];
    assert(texts_of(r@) =~= forecast_model_names());
    r
}

/// Daily precipitation measures of the standard forecast that can be summed over days.
pub open spec fn forecast_measure_names() -> Seq<Seq<char>> {
    seq![
        "rain_sum"@,
        "showers_sum"@,
        "snowfall_sum"@,
        "precipitation_sum"@,
        "precipitation_hours"@,
    ]
}

/// Daily precipitation measures of the standard forecast that can be summed over days.
pub fn forecast_measures() -> (r: &'static [&'static str])
    ensures
        texts_of(r@) == forecast_measure_names(),
{
    let r: &'static [&'static str] = &[
        "rain_sum",
        "showers_sum",
        "snowfall_sum",
        "precipitation_sum",
        "precipitation_hours",
    ];
    assert(texts_of(r@) =~= forecast_measure_names());
    r
}

/// Models that the ensemble forecast serves.
pub open spec fn ensemble_model_names() -> Seq<Seq<char>> {
    seq![
        "icon_seamless_eps"@,
        "icon_global_eps"@,
        "icon_eu_eps"@,
        "icon_d2_eps"@,
        "meteoswiss_icon_ch1_ensemble"@,
        "meteoswiss_icon_ch2_ensemble"@,
        "ncep_aigefs025"@,
        "ncep_gefs025"@,
        "ncep_gefs05"@,
        "ncep_gefs_seamless"@,
        "bom_access_global_ensemble"@,
        "gem_global_ensemble"@,
        "ecmwf_ifs025_ensemble"@,
        "ecmwf_aifs025_ensemble"@,
        "ukmo_global_ensemble_20km"@,
        "ukmo_uk_ensemble_2km"@,
    ]
}

/// Models that the ensemble forecast serves.
pub fn ensemble_models() -> (r: &'static [&'static str])
    ensures
        texts_of(r@) == ensemble_model_names(),
{
    let r: &'static [&'static str] = &[
        "icon_seamless_eps",
        "icon_global_eps",
        "icon_eu_eps",
        "icon_d2_eps",
        "meteoswiss_icon_ch1_ensemble",
        "meteoswiss_icon_ch2_ensemble",
        "ncep_aigefs025",
        "ncep_gefs025",
        "ncep_gefs05",
        "ncep_gefs_seamless",
        "bom_access_global_ensemble",
        "gem_global_ensemble",
        "ecmwf_ifs025_ensemble",
        "ecmwf_aifs025_ensemble",
        "ukmo_global_ensemble_20km",
        "ukmo_uk_ensemble_2km",
    ];
    assert(texts_of(r@) =~= ensemble_model_names());
    r
}

/// Daily precipitation measures of the ensemble forecast that can be summed over days.
pub open spec fn ensemble_measure_names() -> Seq<Seq<char>> {
    seq![
        "rain_sum"@,
        "snowfall_sum"@,
        "precipitation_sum"@,
        "precipitation_hours"@,
    ]
}

/// Daily precipitation measures of the ensemble forecast that can be summed over days.
pub fn ensemble_measures() -> (r: &'static [&'static str])
    ensures
        texts_of(r@) == ensemble_measure_names(),
{
    let r: &'static [&'static str] = &[
        "rain_sum",
        "snowfall_sum",
        "precipitation_sum",
        "precipitation_hours",
    ];
    assert(texts_of(r@) =~= ensemble_measure_names());
    r
}

/// The model list of a source.
pub open spec fn source_model_names(source: WeatherDataSource) -> Seq<Seq<char>> {
    match source {
        WeatherDataSource::HistoricalArchive => archive_model_names(),
        WeatherDataSource::ForecastStandard => forecast_model_names(),
        WeatherDataSource::ForecastEnsemble => ensemble_model_names(),
    }
}

/// The summable measure list of a source.
pub open spec fn source_measure_names(source: WeatherDataSource) -> Seq<Seq<char>> {
    match source {
        WeatherDataSource::HistoricalArchive => archive_measure_names(),
        WeatherDataSource::ForecastStandard => forecast_measure_names(),
        WeatherDataSource::ForecastEnsemble => ensemble_measure_names(),
    }
}

/// The models to request from a source.
pub fn models_for_weather_data_source(weather_data_source: WeatherDataSource) -> (r: &'static [&'static str])
    ensures
        texts_of(r@) == source_model_names(weather_data_source),
{
    match weather_data_source {
        WeatherDataSource::HistoricalArchive => archive_models(),
        WeatherDataSource::ForecastStandard => forecast_models(),
        WeatherDataSource::ForecastEnsemble => ensemble_models(),
    }
}

/// The summable daily precipitation measures to request from a source.
pub fn daily_summable_precipitation_measures_for_weather_data_source(
    weather_data_source: WeatherDataSource,
) -> (r: &'static [&'static str])
    ensures
        texts_of(r@) == source_measure_names(weather_data_source),
{
    match weather_data_source {
        WeatherDataSource::HistoricalArchive => archive_measures(),
        WeatherDataSource::ForecastStandard => forecast_measures(),
        WeatherDataSource::ForecastEnsemble => ensemble_measures(),
    }
}

impl WeatherDataSource {
    /// The name of the source as shown to a reader.
    pub fn label(&self) -> (r: &'static str)
        ensures
            r@ == match self {
                WeatherDataSource::HistoricalArchive => "Historical Archive"@,
                WeatherDataSource::ForecastStandard => "Standard Forecast"@,
                WeatherDataSource::ForecastEnsemble => "Ensemble Forecast"@,
            },
    {
        match self {
            WeatherDataSource::HistoricalArchive => "Historical Archive",
            WeatherDataSource::ForecastStandard => "Standard Forecast",
            WeatherDataSource::ForecastEnsemble => "Ensemble Forecast",
        }
    }

    /// The API endpoint of a source, without scheme.
    pub open spec fn url_base_text(&self) -> Seq<char> {
        match self {
            WeatherDataSource::HistoricalArchive => "archive-api.open-meteo.com/v1/archive"@,
            WeatherDataSource::ForecastStandard => "api.open-meteo.com/v1/forecast"@,
            WeatherDataSource::ForecastEnsemble => "ensemble-api.open-meteo.com/v1/ensemble"@,
        }
    }

    /// The API endpoint of the source, without scheme.
    pub fn url_base(&self) -> (r: &'static str)
        ensures
            r@ == self.url_base_text(),
    {
        match self {
            WeatherDataSource::HistoricalArchive => "archive-api.open-meteo.com/v1/archive",
            WeatherDataSource::ForecastStandard => "api.open-meteo.com/v1/forecast",
            WeatherDataSource::ForecastEnsemble => "ensemble-api.open-meteo.com/v1/ensemble",
        }
    }
}

} // verus!
