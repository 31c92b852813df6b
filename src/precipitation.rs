use vstd::prelude::*;

verus! {

/// Where a precipitation series comes from.
#[derive(Debug, Clone, Copy, PartialEq, Eq)]
pub enum PrecipSource {
    HistoricalArchive,
    ForecastStandard,
    ForecastEnsemble,
}

impl PrecipSource {
    /// The name of the source as shown to a reader.
    pub fn label(&self) -> (r: &'static str)
        ensures
            r@ == match self {
                PrecipSource::HistoricalArchive => "Historical Archive"@,
                PrecipSource::ForecastStandard => "Standard Forecast"@,
                PrecipSource::ForecastEnsemble => "Ensemble Forecast"@,
            },
    {
        match self {
            PrecipSource::HistoricalArchive => "Historical Archive",
            PrecipSource::ForecastStandard => "Standard Forecast",
            PrecipSource::ForecastEnsemble => "Ensemble Forecast",
        }
    }
}

/// A precipitation request: the endpoint, then the location, the date range,
/// the daily series, the unit and the time zone as query parameters.
pub open spec fn precipitation_url(
    endpoint: Seq<char>,
    latitude: Seq<char>,
    longitude: Seq<char>,
    start_date: Seq<char>,
    end_date: Seq<char>,
    daily: Seq<char>,
    unit: Seq<char>,
    timezone: Seq<char>,
) -> Seq<char> {
    endpoint + "?latitude="@ + latitude + "&longitude="@ + longitude + "&start_date="@ + start_date
        + "&end_date="@ + end_date + "&daily="@ + daily + "&precipitation_unit="@ + unit
        + "&timezone="@ + timezone
}

/// Builds a precipitation request URL.
fn build_precipitation_url(
    endpoint: &str,
    latitude: &str,
    longitude: &str,
    start_date: &str,
    end_date: &str,
    daily: &str,
    unit: &str,
    timezone: &str,
) -> (r: String)
    ensures
        r@ == precipitation_url(
            endpoint@,
            latitude@,
            longitude@,
            start_date@,
            end_date@,
            daily@,
            unit@,
            timezone@,
        ),
{
    let mut url = String::new();
    url.append(endpoint);
    url.append("?latitude=");
    url.append(latitude);
    url.append("&longitude=");
    url.append(longitude);
    url.append("&start_date=");
    url.append(start_date);
    url.append("&end_date=");
    url.append(end_date);
    url.append("&daily=");
    url.append(daily);
    url.append("&precipitation_unit=");
    url.append(unit);
    url.append("&timezone=");
    url.append(timezone);
    assert(url@ =~= precipitation_url(
        endpoint@,
        latitude@,
        longitude@,
        start_date@,
        end_date@,
        daily@,
        unit@,
        timezone@,
    ));
    url
}

/// The archive request for observed daily precipitation sums.
pub fn historical_url(
    latitude: &str,
    longitude: &str,
    start_date: &str,
    end_date: &str,
    unit: &str,
    timezone: &str,
) -> (r: String)
    ensures
        r@ == precipitation_url(
            "https://archive-api.open-meteo.com/v1/archive"@,
            latitude@,
            longitude@,
            start_date@,
            end_date@,
            "precipitation_sum"@,
            unit@,
            timezone@,
        ),
{
    build_precipitation_url(
        "https://archive-api.open-meteo.com/v1/archive",
        latitude,
        longitude,
        start_date,
        end_date,
        "precipitation_sum",
        unit,
        timezone,
    )
}

/// The forecast request for predicted daily precipitation: the ensemble
/// service asks for the mean with its minimum and maximum, the standard one
/// for the sum.
pub fn forecast_url(
    latitude: &str,
    longitude: &str,
    start_date: &str,
    end_date: &str,
    unit: &str,
    timezone: &str,
    ensemble: bool,
) -> (r: String)
    ensures
        r@ == precipitation_url(
            if ensemble {
                "https://ensemble-api.open-meteo.com/v1/ensemble"@
            } else {
                "https://api.open-meteo.com/v1/forecast"@
            },
            latitude@,
            longitude@,
            start_date@,
            end_date@,
            if ensemble {
                "precipitation_sum_mean,precipitation_sum_min,precipitation_sum_max"@
            } else {
                "precipitation_sum"@
            },
            unit@,
            timezone@,
        ),
{
    let endpoint = if ensemble {
        "https://ensemble-api.open-meteo.com/v1/ensemble"
    } else {
        "https://api.open-meteo.com/v1/forecast"
    };
    let daily = if ensemble {
        "precipitation_sum_mean,precipitation_sum_min,precipitation_sum_max"
    } else {
        "precipitation_sum"
    };
    build_precipitation_url(endpoint, latitude, longitude, start_date, end_date, daily, unit, timezone)
}

} // verus!
