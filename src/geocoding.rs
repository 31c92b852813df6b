use vstd::prelude::*;

use vstd::utf8::encode_utf8;

verus! {

/// Bytes that percent-encoding leaves as they are: ASCII letters and digits,
/// `-`, `.`, `_` and `~`.
pub open spec fn is_unreserved(b: u8) -> bool {
    (48 <= b <= 57) || (65 <= b <= 90) || (97 <= b <= 122) || b == 45 || b == 46 || b == 95
        || b == 126
}

/// The upper-case hexadecimal digit of a value below 16.
pub open spec fn hex_upper_digit(v: int) -> char {
    seq!['0', '1', '2', '3', '4', '5', '6', '7', '8', '9', 'A', 'B', 'C', 'D', 'E', 'F'][v]
}

/// One byte, percent-encoded.
pub open spec fn byte_encoded(b: u8) -> Seq<char> {
    if is_unreserved(b) {
        seq![b as char]
    } else {
        seq!['%', hex_upper_digit(b as int / 16), hex_upper_digit(b as int % 16)]
    }
}

/// Bytes, percent-encoded one after another.
pub open spec fn percent_encoded(bytes: Seq<u8>) -> Seq<char>
    decreases bytes.len(),
{
    if bytes.len() == 0 {
        Seq::empty()
    } else {
        byte_encoded(bytes[0]) + percent_encoded(bytes.drop_first())
    }
}

/// Relies on urlencoding::encode: each byte of the UTF-8 text that is not an
/// ASCII letter or digit or one of `-._~` becomes `%` and two upper-case
/// hexadecimal digits.
#[verifier::external_body]
fn url_encode(text: &str) -> (r: String)
    ensures
        r@ == percent_encoded(encode_utf8(text@)),
{
    urlencoding::encode(text).into_owned()
}

/// The geocoding request for a city: its name percent-encoded, asking for the
/// single best match in English.
pub open spec fn geocoding_url_text(city: Seq<char>) -> Seq<char> {
    "https://geocoding-api.open-meteo.com/v1/search?name="@ + percent_encoded(encode_utf8(city))
        + "&count=1&language=en&format=json"@
}

/// Builds the geocoding request URL for a city name.
pub fn geocoding_url(city: &str) -> (r: String)
    ensures
        r@ == geocoding_url_text(city@),
{
    let encoded = url_encode(city);
    let mut url = String::new();
    url.append("https://geocoding-api.open-meteo.com/v1/search?name=");
    url.append(encoded.as_str());
    url.append("&count=1&language=en&format=json");
    url
}

/// The name shown for a place: its name, then its region, or else its
/// country, or else `Unknown`.
pub open spec fn display_name(
    name: Seq<char>,
    admin1: Option<Seq<char>>,
    country: Option<Seq<char>>,
) -> Seq<char> {
    let area = match admin1 {
        Some(a) => a,
        None => match country {
            Some(c) => c,
            None => "Unknown"@,
        },
    };
    name + ", "@ + area
}

/// Builds the name shown for a geocoded place.
pub fn location_display_name(name: &str, admin1: Option<&str>, country: Option<&str>) -> (r:
    String)
    ensures
        r@ == display_name(
            name@,
            match admin1 {
                Some(a) => Some(a@),
                None => None,
            },
            match country {
                Some(c) => Some(c@),
                None => None,
            },
        ),
{
    let mut out = String::new();
    out.append(name);
    out.append(", ");
    match admin1 {
        Some(a) => out.append(a),
        None => match country {
            Some(c) => out.append(c),
            None => out.append("Unknown"),
        },
    }
    out
}

} // verus!
