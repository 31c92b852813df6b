use vstd::prelude::*;

use crate::models::{
    daily_summable_precipitation_measures_for_weather_data_source, models_for_weather_data_source,
    source_measure_names, source_model_names, texts_of, WeatherDataSource,
};
use crate::text::push_char;

verus! {

/// The unit in which precipitation amounts are requested.
#[derive(Debug, Clone, Copy, PartialEq, Eq)]
pub enum PrecipitationUnit {
    Millimeters,
    Inches,
}

/// The name of a unit in requests and on screen.
pub open spec fn unit_name(u: PrecipitationUnit) -> Seq<char> {
    match u {
        PrecipitationUnit::Millimeters => "mm"@,
        PrecipitationUnit::Inches => "inch"@,
    }
}

impl PrecipitationUnit {
    /// The name of the unit: `mm` or `inch`.
    pub fn as_str(&self) -> (r: &'static str)
        ensures
            r@ == unit_name(*self),
    {
        match self {
            PrecipitationUnit::Millimeters => "mm",
            PrecipitationUnit::Inches => "inch",
        }
    }

    /// Reads a unit from its name; any other text is refused with a message
    /// that quotes it.
    pub fn try_from(value: &str) -> (r: Result<PrecipitationUnit, String>)
        ensures
            value@ == "inch"@ ==> r == Ok::<PrecipitationUnit, String>(PrecipitationUnit::Inches),
            value@ == "mm"@ ==> r == Ok::<PrecipitationUnit, String>(PrecipitationUnit::Millimeters),
            value@ != "inch"@ && value@ != "mm"@ ==> r is Err && r->Err_0@
                == "Invalid precipitation unit: "@ + value@,
    {
        proof {
            reveal_strlit("mm");
            reveal_strlit("inch");
            assert("mm"@.len() != "inch"@.len());
        }
        if crate::text::same_text(value, "inch") {
            Ok(PrecipitationUnit::Inches)
        } else if crate::text::same_text(value, "mm") {
            Ok(PrecipitationUnit::Millimeters)
        } else {
            let mut message = String::new();
            message.append("Invalid precipitation unit: ");
            message.append(value);
            Err(message)
        }
    }
}

/// The texts separated by `sep`.
pub open spec fn joined(items: Seq<Seq<char>>, sep: char) -> Seq<char>
    decreases items.len(),
{
    if items.len() == 0 {
        Seq::empty()
    } else if items.len() == 1 {
        items[0]
    } else {
        joined(items.drop_last(), sep) + seq![sep] + items.last()
    }
}

/// Appends the texts to `out`, separated by `sep`.
pub fn append_joined(out: &mut String, items: &[&str], sep: char)
    ensures
        final(out)@ == old(out)@ + joined(texts_of(items@), sep),
{
    let ghost start = out@;
    let ghost all = texts_of(items@);
    let mut i: usize = 0;
    while i < items.len()
        invariant
            all == texts_of(items@),
            i <= items@.len(),
            out@ == start + joined(all.subrange(0, i as int), sep),
        decreases items@.len() - i,
    {
        if i > 0 {
            push_char(out, sep);
        }
        out.append(items[i]);
        assert(all.subrange(0, i + 1).drop_last() =~= all.subrange(0, i as int));
        assert(all.subrange(0, i + 1).last() == items@[i as int]@);
        if i == 0 {
            assert(joined(all.subrange(0, 0), sep) =~= Seq::empty());
        }
        i += 1;
    }
    assert(all.subrange(0, items@.len() as int) =~= all);
}

/// The request URL for daily data: the endpoint, then the location, the date
/// range, the measures, the unit, the time zone and the models as query
/// parameters, in that order.
pub open spec fn weather_url(
    url_base: Seq<char>,
    latitude: Seq<char>,
    longitude: Seq<char>,
    start_date: Seq<char>,
    end_date: Seq<char>,
    daily: Seq<char>,
    unit: Seq<char>,
    timezone: Seq<char>,
    models: Seq<char>,
) -> Seq<char> {
    "https://"@ + url_base + "?latitude="@ + latitude + "&longitude="@ + longitude
        + "&start_date="@ + start_date + "&end_date="@ + end_date + "&daily="@ + daily
        + "&precipitation_unit="@ + unit + "&timezone="@ + timezone + "&models="@ + models
}

/// Builds the request URL for daily data. The coordinates and dates come as
/// the texts to send.
pub fn weather_data_url(
    url_base: &str,
    latitude: &str,
    longitude: &str,
    start_date: &str,
    end_date: &str,
    precipitation_unit: PrecipitationUnit,
    timezone: &str,
    models: &[&str],
    daily_measures: &[&str],
) -> (r: String)
    ensures
        r@ == weather_url(
            url_base@,
            latitude@,
            longitude@,
            start_date@,
            end_date@,
            joined(texts_of(daily_measures@), ','),
            unit_name(precipitation_unit),
            timezone@,
            joined(texts_of(models@), ','),
        ),
{
    let mut url = String::new();
    url.append("https://");
    url.append(url_base);
    url.append("?latitude=");
    url.append(latitude);
    url.append("&longitude=");
    url.append(longitude);
    url.append("&start_date=");
    url.append(start_date);
    url.append("&end_date=");
    url.append(end_date);
    url.append("&daily=");
    append_joined(&mut url, daily_measures, ',');
    url.append("&precipitation_unit=");
    url.append(precipitation_unit.as_str());
    url.append("&timezone=");
    url.append(timezone);
    url.append("&models=");
    append_joined(&mut url, models, ',');
    assert(url@ =~= weather_url(
        url_base@,
        latitude@,
        longitude@,
        start_date@,
        end_date@,
        joined(texts_of(daily_measures@), ','),
        unit_name(precipitation_unit),
        timezone@,
        joined(texts_of(models@), ','),
    ));
    url
}

/// The request URL for every summable precipitation measure of every model
/// of a source.
pub fn summable_precipitation_url(
    weather_data_source: WeatherDataSource,
    latitude: &str,
    longitude: &str,
    start_date: &str,
    end_date: &str,
    precipitation_unit: PrecipitationUnit,
    timezone: &str,
) -> (r: String)
    ensures
        r@ == weather_url(
            weather_data_source.url_base_text(),
            latitude@,
            longitude@,
            start_date@,
            end_date@,
            joined(source_measure_names(weather_data_source), ','),
            unit_name(precipitation_unit),
            timezone@,
            joined(source_model_names(weather_data_source), ','),
        ),
{
    let models = models_for_weather_data_source(weather_data_source);
    let measures = daily_summable_precipitation_measures_for_weather_data_source(
        weather_data_source,
    );
    weather_data_url(
        weather_data_source.url_base(),
        latitude,
        longitude,
        start_date,
        end_date,
        precipitation_unit,
        timezone,
        models,
        measures,
    )
}

} // verus!
