use vstd::prelude::*;

use crate::error::WeatherError;
use crate::models::{
    archive_model_names, archive_models, ensemble_model_names, ensemble_models,
    forecast_model_names, forecast_models, texts_of,
};
use crate::text::{
    ends_with_text, is_suffix_of, lemma_precedes_total, lemma_precedes_transitive, precedes,
    precedes_text, same_text,
};

verus! {

/// Every model that any source serves.
pub open spec fn all_model_names() -> Set<Seq<char>> {
    archive_model_names().to_set() + forecast_model_names().to_set()
        + ensemble_model_names().to_set()
}

/// Each text comes before every later one in registry order (so none repeats).
pub open spec fn in_registry_order(s: Seq<Seq<char>>) -> bool {
    forall|i: int, j: int| 0 <= i < j < s.len() ==> precedes(s[i], s[j])
}

/// The known forecast models, each once, longest first, equal lengths in
/// character order.
pub struct ModelRegistry {
    models: Vec<&'static str>,
}

impl View for ModelRegistry {
    type V = Seq<Seq<char>>;

    closed spec fn view(&self) -> Seq<Seq<char>> {
        texts_of(self.models@)
    }
}

/// Puts `name` into its place in an ordered list, unless it is there already.
fn insert_in_order(models: &mut Vec<&'static str>, name: &'static str)
    requires
        in_registry_order(texts_of(old(models)@)),
    ensures
        in_registry_order(texts_of(final(models)@)),
        texts_of(final(models)@).to_set() == texts_of(old(models)@).to_set().insert(name@),
{
    let ghost s = texts_of(models@);
    let len = models.len();
    let mut p: usize = 0;
    while p < len
        invariant
            len == models@.len(),
            s == texts_of(models@),
            p <= len,
            forall|i: int| 0 <= i < p ==> precedes(#[trigger] s[i], name@),
        ensures
            p <= len,
            forall|i: int| 0 <= i < p ==> precedes(#[trigger] s[i], name@),
            p < len ==> !precedes(s[p as int], name@),
        decreases len - p,
    {
        if !precedes_text(models[p], name) {
            break;
        }
        p += 1;
    }
    if p < len && same_text(models[p], name) {
        assert(s[p as int] == name@);
        assert(s.contains(name@));
        assert(s.to_set().insert(name@) =~= s.to_set());
        return;
    }
    if p < len {
        proof {
            lemma_precedes_total(s[p as int], name@);
        }
        assert forall|j: int| p <= j < len implies precedes(name@, #[trigger] s[j]) by {
            if j > p {
                lemma_precedes_transitive(name@, s[p as int], s[j]);
            }
        }
    }
    models.insert(p, name);
    let ghost t = texts_of(models@);
    assert(t =~= s.insert(p as int, name@));
    assert forall|i: int, j: int| 0 <= i < j < t.len() implies precedes(t[i], t[j]) by {
        if j < p {
        } else if j == p {
        } else if i < p {
            lemma_precedes_transitive(s[i], name@, s[j - 1]);
        } else if i == p {
        } else {
        }
    }
    assert forall|x: Seq<char>| t.contains(x) <==> s.contains(x) || x == name@ by {
        if s.contains(x) {
            let k = choose|k: int| 0 <= k < s.len() && s[k] == x;
            if k < p {
                assert(t[k] == x);
            } else {
                assert(t[k + 1] == x);
            }
        }
        if x == name@ {
            assert(t[p as int] == x);
        }
        if t.contains(x) {
            let k = choose|k: int| 0 <= k < t.len() && t[k] == x;
            if k < p {
                assert(s[k] == x);
            } else if k > p {
                assert(s[k - 1] == x);
            }
        }
    }
    assert(t.to_set() =~= s.to_set().insert(name@));
}

/// Puts every name of a list into its place in an ordered list.
fn insert_all_in_order(models: &mut Vec<&'static str>, names: &'static [&'static str])
    requires
        in_registry_order(texts_of(old(models)@)),
    ensures
        in_registry_order(texts_of(final(models)@)),
        texts_of(final(models)@).to_set() == texts_of(old(models)@).to_set() + texts_of(
            names@,
        ).to_set(),
{
    let ghost start = texts_of(models@).to_set();
    let ghost all = texts_of(names@);
    let mut k: usize = 0;
    while k < names.len()
        invariant
            all == texts_of(names@),
            k <= names@.len(),
            in_registry_order(texts_of(models@)),
            texts_of(models@).to_set() == start + all.subrange(0, k as int).to_set(),
        decreases names@.len() - k,
    {
        let name = names[k];
        insert_in_order(models, name);
        proof {
            assert(all.subrange(0, k + 1) =~= all.subrange(0, k as int).push(name@));
            all.subrange(0, k as int).lemma_push_to_set_commute(name@);
        }
        k += 1;
    }
    assert(all.subrange(0, names@.len() as int) =~= all);
}

impl ModelRegistry {
    /// Builds the registry from the model lists of the three sources.
    pub fn new() -> (r: ModelRegistry)
        ensures
            in_registry_order(r@),
            r@.to_set() == all_model_names(),
    {
        let mut models: Vec<&'static str> = Vec::new();
        assert(texts_of(models@).to_set() =~= Set::empty());
        insert_all_in_order(&mut models, archive_models());
        insert_all_in_order(&mut models, forecast_models());
        insert_all_in_order(&mut models, ensemble_models());
        assert(texts_of(models@).to_set() =~= all_model_names());
        ModelRegistry { models }
    }

    /// Number of models.
    pub fn len(&self) -> (r: usize)
        ensures
            r == self@.len(),
    {
        self.models.len()
    }

    /// The model at position `i`.
    pub fn get(&self, i: usize) -> (r: &'static str)
        requires
            i < self@.len(),
        ensures
            r@ == self@[i as int],
    {
        self.models[i]
    }
}

/// A field name split into what is measured and the model that produced it.
#[derive(Debug, Clone, PartialEq, Eq, Hash)]
pub struct MeasureAndModel {
    pub measure: String,
    pub model: String,
}

/// `models[i]` ends `key`, and no model before it does.
pub open spec fn is_first_suffix(models: Seq<Seq<char>>, key: Seq<char>, i: int) -> bool {
    &&& 0 <= i < models.len()
    &&& is_suffix_of(models[i], key)
    &&& forall|j: int| 0 <= j < i ==> !is_suffix_of(#[trigger] models[j], key)
}

/// The character just before the trailing `model` in `key` is `_`.
pub open spec fn separated(model: Seq<char>, key: Seq<char>) -> bool {
    key.len() > model.len() && key[key.len() - model.len() - 1] == '_'
}

/// What is left of `key` once `_` and the trailing `model` are taken off.
pub open spec fn measure_before(model: Seq<char>, key: Seq<char>) -> Seq<char> {
    key.subrange(0, key.len() - model.len() - 1)
}

/// The field name that a measure and a model are written as.
pub open spec fn field_key(measure: Seq<char>, model: Seq<char>) -> Seq<char> {
    measure + seq!['_'] + model
}

/// What resolving `key` against the ordered list `models` gives: the first
/// model that ends the key, which must follow a `_`.
pub open spec fn resolution_outcome(
    models: Seq<Seq<char>>,
    key: Seq<char>,
    r: Result<MeasureAndModel, WeatherError>,
) -> bool {
    match r {
        Ok(mm) => exists|i: int|
            #[trigger] is_first_suffix(models, key, i) && separated(models[i], key) && mm.model@
                == models[i] && mm.measure@ == measure_before(models[i], key),
        Err(WeatherError::UnresolvableFieldKey(k)) => k@ == key && forall|i: int|
            0 <= i < models.len() ==> !is_suffix_of(#[trigger] models[i], key),
        Err(WeatherError::MissingKeySeparator(k)) => k@ == key && exists|i: int|
            #[trigger] is_first_suffix(models, key, i) && !separated(models[i], key),
        Err(_) => false,
    }
}

/// `m` is a model of the set that ends `key`, and no longer one does.
pub open spec fn is_longest_suffix(models: Set<Seq<char>>, key: Seq<char>, m: Seq<char>) -> bool {
    &&& models.contains(m)
    &&& is_suffix_of(m, key)
    &&& forall|m2: Seq<char>|
        models.contains(m2) && is_suffix_of(m2, key) ==> m2.len() <= m.len()
}

/// What resolving `key` against a set of models gives: the longest model
/// that ends the key, which must follow a `_`.
pub open spec fn field_key_outcome(
    models: Set<Seq<char>>,
    key: Seq<char>,
    r: Result<MeasureAndModel, WeatherError>,
) -> bool {
    match r {
        Ok(mm) => is_longest_suffix(models, key, mm.model@) && separated(mm.model@, key)
            && mm.measure@ == measure_before(mm.model@, key),
        Err(WeatherError::UnresolvableFieldKey(k)) => k@ == key && forall|m: Seq<char>|
            models.contains(m) ==> !is_suffix_of(m, key),
        Err(WeatherError::MissingKeySeparator(k)) => k@ == key && exists|m: Seq<char>|
            is_longest_suffix(models, key, m) && !separated(m, key),
        Err(_) => false,
    }
}

/// Two models that end the same key with the same length are the same model,
/// so the longest suffix model of a key is unique.
pub proof fn lemma_longest_suffix_unique(
    models: Set<Seq<char>>,
    key: Seq<char>,
    m1: Seq<char>,
    m2: Seq<char>,
)
    requires
        is_longest_suffix(models, key, m1),
        is_longest_suffix(models, key, m2),
    ensures
        m1 == m2,
{
    assert(m1.len() == m2.len());
}

/// In a list in registry order, the first model that ends a key is the
/// longest model of the list that ends it.
pub proof fn lemma_first_suffix_is_longest(models: Seq<Seq<char>>, key: Seq<char>, i: int)
    requires
        in_registry_order(models),
        is_first_suffix(models, key, i),
    ensures
        is_longest_suffix(models.to_set(), key, models[i]),
{
    assert(models.to_set().contains(models[i]));
    assert forall|m2: Seq<char>|
        models.to_set().contains(m2) && is_suffix_of(m2, key) implies m2.len() <= models[i].len() by {
        let j = choose|j: int| 0 <= j < models.len() && models[j] == m2;
        if j > i {
            assert(precedes(models[i], models[j]));
        }
    }
}

/// Resolving against a list in registry order gives what resolving against
/// its set of models does: first match and longest match agree.
pub proof fn lemma_registry_resolution(
    models: Seq<Seq<char>>,
    key: Seq<char>,
    r: Result<MeasureAndModel, WeatherError>,
)
    requires
        in_registry_order(models),
        resolution_outcome(models, key, r),
    ensures
        field_key_outcome(models.to_set(), key, r),
{
    match r {
        Ok(mm) => {
            let i = choose|i: int|
                #[trigger] is_first_suffix(models, key, i) && separated(models[i], key)
                    && mm.model@ == models[i] && mm.measure@ == measure_before(models[i], key);
            lemma_first_suffix_is_longest(models, key, i);
        },
        Err(WeatherError::UnresolvableFieldKey(k)) => {
            assert forall|m: Seq<char>| models.to_set().contains(m) implies !is_suffix_of(m, key) by {
                let j = choose|j: int| 0 <= j < models.len() && models[j] == m;
                assert(!is_suffix_of(models[j], key));
            }
        },
        Err(WeatherError::MissingKeySeparator(k)) => {
            let i = choose|i: int| #[trigger] is_first_suffix(models, key, i) && !separated(models[i], key);
            lemma_first_suffix_is_longest(models, key, i);
        },
        Err(_) => {},
    }
}

/// The field name is the measure, `_`, then the model.
pub proof fn lemma_resolved_key_is_written_form(model: Seq<char>, key: Seq<char>)
    requires
        is_suffix_of(model, key),
        separated(model, key),
    ensures
        key == field_key(measure_before(model, key), model),
{
    assert(key =~= field_key(measure_before(model, key), model));
}

impl ModelRegistry {
    /// Splits a field name into measure and model: the first model of the
    /// registry that ends the name is taken, and a `_` must come before it.
    pub fn resolve(&self, key: &str) -> (r: Result<MeasureAndModel, WeatherError>)
        ensures
            resolution_outcome(self@, key@, r),
    {
        let n = self.models.len();
        let mut i: usize = 0;
        while i < n
            invariant
                n == self@.len(),
                i <= n,
                forall|j: int| 0 <= j < i ==> !is_suffix_of(#[trigger] self@[j], key@),
            decreases n - i,
        {
            let model = self.models[i];
            assert(model@ == self@[i as int]);
            if ends_with_text(key, model) {
                assert(is_first_suffix(self@, key@, i as int));
                let klen = key.unicode_len();
                let mlen = model.unicode_len();
                if klen > mlen && key.get_char(klen - mlen - 1) == '_' {
                    let measure = key.substring_char(0, klen - mlen - 1);
                    return Ok(MeasureAndModel { measure: measure.to_owned(), model: model.to_owned() });
                } else {
                    return Err(WeatherError::MissingKeySeparator(key.to_owned()));
                }
            }
            i += 1;
        }
        Err(WeatherError::UnresolvableFieldKey(key.to_owned()))
    }
}

/// Splits an API field name such as `rain_sum_kma_gdps` into its measure and
/// the longest known model that ends it.
pub fn response_key_to_measure_and_model(key: String) -> (r: Result<MeasureAndModel, WeatherError>)
    ensures
        field_key_outcome(all_model_names(), key@, r),
{
    let registry = ModelRegistry::new();
    let r = registry.resolve(key.as_str());
    proof {
        lemma_registry_resolution(registry@, key@, r);
    }
    r
}

} // verus!
