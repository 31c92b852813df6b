use vstd::prelude::*;

use serde_json::{Number, Value};

use crate::error::WeatherError;
use crate::json::{
    array_of, is_json_null, members_of, number_of, object_member, object_members, object_of,
    parse_json, parsed_json, text_of,
};
use crate::resolver::{
    all_model_names, field_key, field_key_outcome, in_registry_order, is_longest_suffix,
    lemma_longest_suffix_unique, lemma_registry_resolution, lemma_resolved_key_is_written_form,
    separated, MeasureAndModel, ModelRegistry,
};
use crate::text::same_text;

verus! {

/// The values of one field: `null` is a day without a value. None unless the
/// value is an array of numbers and nulls.
pub open spec fn column_values(v: Value) -> Option<Seq<Option<Number>>> {
    match array_of(v) {
        Some(items) => if forall|i: int|
            0 <= i < items.len() ==> is_json_null(#[trigger] items[i]) || number_of(items[i]) is Some {
            Some(
                Seq::new(
                    items.len(),
                    |i: int|
                        if is_json_null(items[i]) {
                            None
                        } else {
                            number_of(items[i])
                        },
                ),
            )
        } else {
            None
        },
        None => None,
    }
}

/// The dates of the time axis. None unless the value is an array of strings.
pub open spec fn time_values(v: Value) -> Option<Seq<Seq<char>>> {
    match array_of(v) {
        Some(items) => if forall|i: int| 0 <= i < items.len() ==> (#[trigger] text_of(items[i])) is Some {
            Some(Seq::new(items.len(), |i: int| text_of(items[i])->0))
        } else {
            None
        },
        None => None,
    }
}

/// The members of the document's `daily` object, when the document is an
/// object with a `daily` member that is an object.
pub open spec fn daily_members(doc: Value) -> Option<Map<Seq<char>, Value>> {
    match object_of(doc) {
        Some(top) => {
            let t = members_of(top);
            if t.contains_key("daily"@) && !is_json_null(t["daily"@]) {
                match object_of(t["daily"@]) {
                    Some(d) => Some(members_of(d)),
                    None => None,
                }
            } else {
                None
            }
        },
        None => None,
    }
}

/// The `daily` object has a `time` list of strings, and every other member
/// is a list of numbers and nulls.
pub open spec fn well_shaped(d: Map<Seq<char>, Value>) -> bool {
    &&& d.contains_key("time"@)
    &&& time_values(d["time"@]) is Some
    &&& forall|k: Seq<char>|
        #[trigger] d.contains_key(k) && k != "time"@ ==> column_values(d[k]) is Some
}

/// A known model ends `key` and follows a `_` there.
pub open spec fn resolves(models: Set<Seq<char>>, key: Seq<char>) -> bool {
    exists|m: Seq<char>| is_longest_suffix(models, key, m) && separated(m, key)
}

/// A member of the `daily` object other than `time`.
pub open spec fn is_field(d: Map<Seq<char>, Value>, k: Seq<char>) -> bool {
    d.contains_key(k) && k != "time"@
}

/// The characters of each string of a list.
pub open spec fn strings_of(s: Seq<String>) -> Seq<Seq<char>> {
    s.map_values(|t: String| t@)
}

/// An entry holds the values of the member whose name its measure and model
/// are resolved from.
pub open spec fn entry_matches(
    d: Map<Seq<char>, Value>,
    e: (MeasureAndModel, Vec<Option<Number>>),
) -> bool {
    let k = field_key(e.0.measure@, e.0.model@);
    &&& is_field(d, k)
    &&& field_key_outcome(all_model_names(), k, Ok(e.0))
    &&& Some(e.1@) == column_values(d[k])
}

/// A decoded daily response: the time axis, and for each measure and model
/// the value of each day (None where the response had `null`).
pub struct DailyDataColumnarFormat {
    pub time: Vec<String>,
    pub data_fields: Vec<(MeasureAndModel, Vec<Option<Number>>)>,
}

impl DailyDataColumnarFormat {
    /// The field name that entry `i` came from.
    pub open spec fn key_at(&self, i: int) -> Seq<char> {
        field_key(self.data_fields@[i].0.measure@, self.data_fields@[i].0.model@)
    }

    /// No two entries have the same measure and model.
    pub open spec fn keys_distinct(&self) -> bool {
        forall|i: int, j: int|
            0 <= i < j < self.data_fields@.len() ==> (self.data_fields@[i].0.measure@,
            self.data_fields@[i].0.model@) != (self.data_fields@[j].0.measure@,
            self.data_fields@[j].0.model@)
    }

    /// This dataset holds exactly what the members `d` of a `daily` object
    /// say: its dates, and one entry per other member, under the measure and
    /// model its name resolves to, with that member's values.
    pub open spec fn describes(&self, d: Map<Seq<char>, Value>) -> bool {
        &&& Some(strings_of(self.time@)) == time_values(d["time"@])
        &&& self.keys_distinct()
        &&& forall|i: int|
            0 <= i < self.data_fields@.len() ==> #[trigger] entry_matches(d, self.data_fields@[i])
        &&& forall|k: Seq<char>|
            #[trigger] is_field(d, k) ==> exists|i: int|
                0 <= i < self.data_fields@.len() && self.key_at(i) == k
    }

    /// The values recorded for a measure and model, if any.
    pub fn get(&self, key: &MeasureAndModel) -> (r: Option<&Vec<Option<Number>>>)
        ensures
            match r {
                Some(v) => exists|i: int|
                    0 <= i < self.data_fields@.len() && self.data_fields@[i].0.measure@
                        == key.measure@ && self.data_fields@[i].0.model@ == key.model@ && *v
                        == self.data_fields@[i].1,
                None => forall|i: int|
                    0 <= i < self.data_fields@.len() ==> !(self.data_fields@[i].0.measure@
                        == key.measure@ && self.data_fields@[i].0.model@ == key.model@),
            },
    {
        let n = self.data_fields.len();
        let mut i: usize = 0;
        while i < n
            invariant
                n == self.data_fields@.len(),
                i <= n,
                forall|j: int|
                    0 <= j < i ==> !(self.data_fields@[j].0.measure@ == key.measure@
                        && self.data_fields@[j].0.model@ == key.model@),
            decreases n - i,
        {
            let entry = &self.data_fields[i];
            if same_text(entry.0.measure.as_str(), key.measure.as_str()) && same_text(
                entry.0.model.as_str(),
                key.model.as_str(),
            ) {
                return Some(&entry.1);
            }
            i += 1;
        }
        None
    }
}

/// What decoding a parsed document gives: a malformed-response error unless
/// the `daily` object is present and well shaped, else the error of a field
/// name that does not resolve, if there is one, else the dataset.
pub open spec fn decode_outcome(doc: Value, r: Result<DailyDataColumnarFormat, WeatherError>) -> bool {
    match daily_members(doc) {
        None => r is Err && r->Err_0 is MalformedResponse,
        Some(d) => if !well_shaped(d) {
            r is Err && r->Err_0 is MalformedResponse
        } else if exists|k: Seq<char>| #[trigger] is_field(d, k) && !resolves(all_model_names(), k) {
            match r {
                Ok(_) => false,
                Err(e) => exists|k: Seq<char>|
                    #[trigger] is_field(d, k) && !resolves(all_model_names(), k)
                        && field_key_outcome(all_model_names(), k, Err(e)),
            }
        } else {
            match r {
                Ok(data) => data.describes(d),
                Err(_) => false,
            }
        },
    }
}

/// Reads the time axis: the texts of an array of strings.
fn time_column(v: &Value) -> (r: Option<Vec<String>>)
    ensures
        match r {
            Some(t) => time_values(*v) == Some(strings_of(t@)),
            None => time_values(*v) is None,
        },
{
    let items = match v.as_array() {
        Some(items) => items,
        None => return None,
    };
    let mut out: Vec<String> = Vec::new();
    let mut i: usize = 0;
    while i < items.len()
        invariant
            array_of(*v) == Some(items@),
            i <= items@.len(),
            out@.len() == i,
            forall|j: int| 0 <= j < i ==> text_of(#[trigger] items@[j]) == Some(out@[j]@),
        decreases items@.len() - i,
    {
        match items[i].as_str() {
            Some(s) => out.push(s.to_owned()),
            None => return None,
        }
        i += 1;
    }
    assert(strings_of(out@) =~= Seq::new(items@.len(), |j: int| text_of(items@[j])->0));
    Some(out)
}

/// Reads the values of one field: an array of numbers and nulls.
fn number_column(v: &Value) -> (r: Option<Vec<Option<Number>>>)
    ensures
        match r {
            Some(c) => column_values(*v) == Some(c@),
            None => column_values(*v) is None,
        },
{
    let items = match v.as_array() {
        Some(items) => items,
        None => return None,
    };
    let mut out: Vec<Option<Number>> = Vec::new();
    let mut i: usize = 0;
    while i < items.len()
        invariant
            array_of(*v) == Some(items@),
            i <= items@.len(),
            out@.len() == i,
            forall|j: int|
                0 <= j < i ==> (is_json_null(#[trigger] items@[j]) && out@[j] is None) || (
                !is_json_null(items@[j]) && number_of(items@[j]) is Some && out@[j]
                    == number_of(items@[j])),
        decreases items@.len() - i,
    {
        if items[i].is_null() {
            out.push(None);
        } else {
            match items[i].as_number() {
                Some(n) => out.push(Some(n.clone())),
                None => return None,
            }
        }
        i += 1;
    }
    assert(out@ =~= Seq::new(
        items@.len(),
        |j: int|
            if is_json_null(items@[j]) {
                None
            } else {
                number_of(items@[j])
            },
    ));
    Some(out)
}

/// Whether every member other than `time` is a list of numbers and nulls.
fn fields_well_shaped(members: &Vec<(String, Value)>) -> (r: bool)
    ensures
        r == forall|j: int|
            0 <= j < members@.len() && members@[j].0@ != "time"@ ==> (column_values(
                #[trigger] members@[j].1,
            ) is Some),
{
    let n = members.len();
    let mut i: usize = 0;
    while i < n
        invariant
            n == members@.len(),
            i <= n,
            forall|j: int|
                0 <= j < i && members@[j].0@ != "time"@ ==> (column_values(
                    #[trigger] members@[j].1,
                ) is Some),
        decreases n - i,
    {
        if !same_text(members[i].0.as_str(), "time") && number_column(&members[i].1).is_none() {
            return false;
        }
        i += 1;
    }
    true
}

/// The members listed in `members` are exactly those of `dm`, each once.
pub open spec fn lists_members(members: Seq<(String, Value)>, dm: Map<Seq<char>, Value>) -> bool {
    &&& forall|j: int|
        0 <= j < members.len() ==> dm.contains_key(#[trigger] members[j].0@) && dm[members[j].0@]
            == members[j].1
    &&& forall|a: int, b: int| 0 <= a < b < members.len() ==> members[a].0@ != members[b].0@
    &&& forall|k: Seq<char>|
        #[trigger] dm.contains_key(k) ==> exists|j: int| 0 <= j < members.len() && members[j].0@ == k
}

/// Resolves the name of every member other than `time`, and pairs the
/// measure and model with the member's values.
fn resolve_fields(
    registry: &ModelRegistry,
    members: &Vec<(String, Value)>,
    dm: Ghost<Map<Seq<char>, Value>>,
) -> (r: Result<Vec<(MeasureAndModel, Vec<Option<Number>>)>, WeatherError>)
    requires
        in_registry_order(registry@),
        registry@.to_set() == all_model_names(),
        lists_members(members@, dm@),
        well_shaped(dm@),
    ensures
        match r {
            Ok(fields) => {
                &&& forall|f: int| 0 <= f < fields@.len() ==> #[trigger] entry_matches(dm@, fields@[f])
                &&& forall|f: int, g: int|
                    0 <= f < g < fields@.len() ==> field_key(fields@[f].0.measure@, fields@[f].0.model@)
                        != field_key(fields@[g].0.measure@, fields@[g].0.model@)
                &&& forall|k: Seq<char>|
                    #[trigger] is_field(dm@, k) ==> resolves(all_model_names(), k) && exists|f: int|
                        0 <= f < fields@.len() && field_key(fields@[f].0.measure@, fields@[f].0.model@) == k
            },
            Err(e) => exists|k: Seq<char>|
                #[trigger] is_field(dm@, k) && !resolves(all_model_names(), k) && field_key_outcome(
                    all_model_names(),
                    k,
                    Err(e),
                ),
        },
{
    let n = members.len();
    let mut fields: Vec<(MeasureAndModel, Vec<Option<Number>>)> = Vec::new();
    let ghost mut src: Seq<int> = Seq::empty();
    let ghost mut pos: Seq<int> = Seq::empty();
    let mut i: usize = 0;
    while i < n
        invariant
            n == members@.len(),
            i <= n,
            well_shaped(dm@),
            registry@.to_set() == all_model_names(),
            in_registry_order(registry@),
            lists_members(members@, dm@),
            src.len() == fields@.len(),
            pos.len() == i,
            forall|f: int| 0 <= f < fields@.len() ==> #[trigger] entry_matches(dm@, fields@[f]),
            forall|f: int|
                0 <= f < fields@.len() ==> 0 <= #[trigger] src[f] < i && members@[src[f]].0@
                    == field_key(fields@[f].0.measure@, fields@[f].0.model@),
            forall|f: int, g: int| 0 <= f < g < fields@.len() ==> src[f] < src[g],
            forall|j: int|
                0 <= j < i && members@[j].0@ != "time"@ ==> resolves(
                    all_model_names(),
                    #[trigger] members@[j].0@,
                ) && 0 <= pos[j] < fields@.len() && field_key(
                    fields@[pos[j]].0.measure@,
                    fields@[pos[j]].0.model@,
                ) == members@[j].0@,
        decreases n - i,
    {
        let name = &members[i].0;
        assert(dm@.contains_key(members@[i as int].0@));
        if !same_text(name.as_str(), "time") {
            assert(is_field(dm@, name@));
            let r = registry.resolve(name.as_str());
            proof {
                lemma_registry_resolution(registry@, name@, r);
            }
            match r {
                Err(e) => {
                    proof {
                        lemma_failed_resolution(name@, e);
                    }
                    return Err(e);
                },
                Ok(mm) => {
                    let col = match number_column(&members[i].1) {
                        Some(col) => col,
                        None => {
                            return Err(
                                WeatherError::MalformedResponse(
                                    "daily field is not a list of numbers".to_owned(),
                                ),
                            );
                        },
                    };
                    proof {
                        lemma_resolved_key_is_written_form(mm.model@, name@);
                        lemma_resolved(name@, mm);
                    }
                    let ghost before = fields@;
                    fields.push((mm, col));
                    proof {
                        assert(entry_matches(dm@, fields@[before.len() as int]));
                        src = src.push(i as int);
                        pos = pos.push(before.len() as int);
                        assert(forall|f: int| 0 <= f < before.len() ==> fields@[f] == before[f]);
                    }
                },
            }
        } else {
            proof {
                pos = pos.push(-1);
            }
        }
        i += 1;
    }
    proof {
        assert forall|k: Seq<char>| #[trigger] is_field(dm@, k) implies resolves(all_model_names(), k)
            && exists|f: int|
            0 <= f < fields@.len() && field_key(fields@[f].0.measure@, fields@[f].0.model@) == k by {
            let j = choose|j: int| 0 <= j < members@.len() && members@[j].0@ == k;
            assert(members@[j].0@ == k);
            assert(field_key(fields@[pos[j]].0.measure@, fields@[pos[j]].0.model@) == k);
        }
        assert forall|f: int, g: int| 0 <= f < g < fields@.len() implies field_key(
            fields@[f].0.measure@,
            fields@[f].0.model@,
        ) != field_key(fields@[g].0.measure@, fields@[g].0.model@) by {
            assert(src[f] < src[g]);
        }
    }
    Ok(fields)
}

/// A field name whose resolution fails does not resolve.
proof fn lemma_failed_resolution(key: Seq<char>, e: WeatherError)
    requires
        field_key_outcome(all_model_names(), key, Err(e)),
    ensures
        !resolves(all_model_names(), key),
{
    if resolves(all_model_names(), key) {
        let m = choose|m: Seq<char>|
            is_longest_suffix(all_model_names(), key, m) && separated(m, key);
        if e is MissingKeySeparator {
            let m2 = choose|m2: Seq<char>|
                is_longest_suffix(all_model_names(), key, m2) && !separated(m2, key);
            lemma_longest_suffix_unique(all_model_names(), key, m, m2);
        }
    }
}

/// A field name whose resolution succeeds resolves.
proof fn lemma_resolved(key: Seq<char>, mm: MeasureAndModel)
    requires
        field_key_outcome(all_model_names(), key, Ok(mm)),
    ensures
        resolves(all_model_names(), key),
{
    assert(is_longest_suffix(all_model_names(), key, mm.model@) && separated(mm.model@, key));
}

/// Decodes a parsed response: the `daily` object's time axis, and the values
/// of every other member under the measure and model its name resolves to.
/// Fails as a whole when the object is missing or ill shaped, or when any
/// field name does not resolve.
pub fn decode_daily(doc: &Value) -> (r: Result<DailyDataColumnarFormat, WeatherError>)
    ensures
        decode_outcome(*doc, r),
{
    let top = match doc.as_object() {
        Some(top) => top,
        None => {
            return Err(WeatherError::MalformedResponse("response is not a JSON object".to_owned()));
        },
    };
    let daily = match object_member(top, "daily") {
        Some(daily) => daily,
        None => {
            return Err(WeatherError::MalformedResponse("No daily data in response".to_owned()));
        },
    };
    if daily.is_null() {
        return Err(WeatherError::MalformedResponse("No daily data in response".to_owned()));
    }
    let d = match daily.as_object() {
        Some(d) => d,
        None => {
            return Err(
                WeatherError::MalformedResponse("daily data is not a JSON object".to_owned()),
            );
        },
    };
    let ghost dm = members_of(*d);
    assert(daily_members(*doc) == Some(dm));
    let time = match object_member(d, "time") {
        Some(t) => match time_column(t) {
            Some(time) => time,
            None => {
                return Err(
                    WeatherError::MalformedResponse("daily time is not a list of dates".to_owned()),
                );
            },
        },
        None => {
            return Err(WeatherError::MalformedResponse("daily data has no time".to_owned()));
        },
    };
    let members = object_members(d);
    assert(lists_members(members@, dm));
    if !fields_well_shaped(&members) {
        proof {
            let j = choose|j: int|
                !(0 <= j < members@.len() && members@[j].0@ != "time"@ ==> (column_values(
                    #[trigger] members@[j].1,
                ) is Some));
            assert(is_field(dm, members@[j].0@));
        }
        return Err(
            WeatherError::MalformedResponse("daily field is not a list of numbers".to_owned()),
        );
    }
    assert forall|k: Seq<char>| #[trigger] dm.contains_key(k) && k != "time"@ implies column_values(
        dm[k],
    ) is Some by {
        let j = choose|j: int| 0 <= j < members@.len() && members@[j].0@ == k;
        assert(column_values(members@[j].1) is Some);
    }
    assert(well_shaped(dm));
    let registry = ModelRegistry::new();
    let fields = match resolve_fields(&registry, &members, Ghost(dm)) {
        Ok(fields) => fields,
        Err(e) => {
            return Err(e);
        },
    };
    let data = DailyDataColumnarFormat { time, data_fields: fields };
    proof {
        assert forall|a: int, b: int| 0 <= a < b < data.data_fields@.len() implies (
        data.data_fields@[a].0.measure@, data.data_fields@[a].0.model@) != (
        data.data_fields@[b].0.measure@, data.data_fields@[b].0.model@) by {
            assert(data.key_at(a) != data.key_at(b));
        }
        assert forall|k: Seq<char>| #[trigger] is_field(dm, k) implies exists|i: int|
            0 <= i < data.data_fields@.len() && data.key_at(i) == k by {
            let f = choose|f: int|
                0 <= f < fields@.len() && field_key(fields@[f].0.measure@, fields@[f].0.model@) == k;
            assert(data.key_at(f) == k);
        }
    }
    Ok(data)
}

/// Decodes a raw response body. A body that is not JSON is a malformed
/// response; otherwise the result is that of `decode_daily` on the parsed
/// document.
pub fn decode_response_to_daily_data_columnar_format(response: String) -> (r: Result<
    DailyDataColumnarFormat,
    WeatherError,
>)
    ensures
        match parsed_json(response@) {
            Some(doc) => decode_outcome(doc, r),
            None => r is Err && r->Err_0 is MalformedResponse,
        },
{
    match parse_json(response.as_str()) {
        Ok(doc) => decode_daily(&doc),
        Err(_) => Err(
            WeatherError::MalformedResponse("Failed to parse weather data response".to_owned()),
        ),
    }
}

} // verus!
