//! Reference vocabularies for the population and claim generators: name
//! lists, city/state/zip triples, provider types and taxonomy codes. Each
//! list may come from an outside source; entries with empty fields are
//! dropped on construction, and a built-in default set stands in when nothing
//! is supplied.

use vstd::prelude::*;

verus! {

/// One city/state/zip triple.
#[derive(Debug, Clone)]
pub struct CityEntry {
    pub city: String,
    pub state: String,
    pub zip: String,
}

/// Whether every string in the list is non-empty.
pub open spec fn all_nonempty(v: Seq<String>) -> bool {
    forall|i: int| 0 <= i < v.len() ==> (#[trigger] v[i])@.len() > 0
}

/// Whether some list entry reads `s`.
pub open spec fn contains_view(v: Seq<String>, s: Seq<char>) -> bool {
    exists|i: int| 0 <= i < v.len() && (#[trigger] v[i])@ == s
}

/// Whether every city entry has non-empty city, state and zip.
pub open spec fn cities_nonempty(v: Seq<CityEntry>) -> bool {
    forall|i: int|
        0 <= i < v.len() ==> (#[trigger] v[i]).city@.len() > 0 && v[i].state@.len() > 0
            && v[i].zip@.len() > 0
}

/// The lookup tables that generation samples from.
#[derive(Debug, Clone)]
pub struct Vocabularies {
    /// First names offered for gender code `M`.
    pub first_names_m: Vec<String>,
    /// First names offered for gender code `F`.
    pub first_names_f: Vec<String>,
    /// Last names.
    pub last_names: Vec<String>,
    /// City/state/zip triples.
    pub cities: Vec<CityEntry>,
    /// Provider type names.
    pub provider_types: Vec<String>,
    /// Provider taxonomy codes.
    pub taxonomy_codes: Vec<String>,
}

/// The built-in default vocabularies, listed entry by entry.
pub open spec fn is_default_vocab(v: Vocabularies) -> bool {
    &&& v.first_names_m@.len() == 2
    &&& v.first_names_m@[0]@ == "John"@ && v.first_names_m@[1]@ == "Robert"@
    &&& v.first_names_f@.len() == 2
    &&& v.first_names_f@[0]@ == "Jane"@ && v.first_names_f@[1]@ == "Mary"@
    &&& v.last_names@.len() == 3
    &&& v.last_names@[0]@ == "Doe"@ && v.last_names@[1]@ == "Smith"@ && v.last_names@[2]@
        == "Johnson"@
    &&& v.cities@.len() == 1
    &&& v.cities@[0].city@ == "Anytown"@ && v.cities@[0].state@ == "CA"@ && v.cities@[0].zip@
        == "12345"@
    &&& v.provider_types@.len() == 1 && v.provider_types@[0]@ == "General Practice"@
    &&& v.taxonomy_codes@.len() == 1 && v.taxonomy_codes@[0]@ == "207Q00000X"@
}

impl Vocabularies {
    /// Every entry of every list is usable: no empty strings.
    pub open spec fn wf(self) -> bool {
        all_nonempty(self.first_names_m@) && all_nonempty(self.first_names_f@) && all_nonempty(
            self.last_names@,
        ) && cities_nonempty(self.cities@) && all_nonempty(self.provider_types@) && all_nonempty(
            self.taxonomy_codes@,
        )
    }

    /// The built-in default tables, used when no outside source supplies any.
    pub fn default_set() -> (v: Vocabularies)
        ensures
            v.wf(),
            is_default_vocab(v),
    {
        proof {
            reveal_strlit("John");
            reveal_strlit("Robert");
            reveal_strlit("Jane");
            reveal_strlit("Mary");
            reveal_strlit("Doe");
            reveal_strlit("Smith");
            reveal_strlit("Johnson");
            reveal_strlit("Anytown");
            reveal_strlit("CA");
            reveal_strlit("12345");
            reveal_strlit("General Practice");
            reveal_strlit("207Q00000X");
        }
        let mut first_names_m: Vec<String> = Vec::new();
        first_names_m.push(String::from_str("John"));
        first_names_m.push(String::from_str("Robert"));
        let mut first_names_f: Vec<String> = Vec::new();
        first_names_f.push(String::from_str("Jane"));
        first_names_f.push(String::from_str("Mary"));
        let mut last_names: Vec<String> = Vec::new();
        last_names.push(String::from_str("Doe"));
        last_names.push(String::from_str("Smith"));
        last_names.push(String::from_str("Johnson"));
        let mut cities: Vec<CityEntry> = Vec::new();
        cities.push(
            CityEntry {
                city: String::from_str("Anytown"),
                state: String::from_str("CA"),
                zip: String::from_str("12345"),
            },
        );
        let mut provider_types: Vec<String> = Vec::new();
        provider_types.push(String::from_str("General Practice"));
        let mut taxonomy_codes: Vec<String> = Vec::new();
        taxonomy_codes.push(String::from_str("207Q00000X"));
        Vocabularies {
            first_names_m,
            first_names_f,
            last_names,
            cities,
            provider_types,
            taxonomy_codes,
        }
    }

    /// Builds a vocabulary from outside-sourced lists, dropping entries with
    /// an empty field. Every kept entry comes from the input, and every
    /// usable input entry is kept.
    pub fn from_lists(
        first_names_m: Vec<String>,
        first_names_f: Vec<String>,
        last_names: Vec<String>,
        cities: Vec<CityEntry>,
        provider_types: Vec<String>,
        taxonomy_codes: Vec<String>,
    ) -> (v: Vocabularies)
        ensures
            v.wf(),
            kept_exactly(first_names_m@, v.first_names_m@),
            kept_exactly(first_names_f@, v.first_names_f@),
            kept_exactly(last_names@, v.last_names@),
            kept_exactly(provider_types@, v.provider_types@),
            kept_exactly(taxonomy_codes@, v.taxonomy_codes@),
    {
        Vocabularies {
            first_names_m: filter_nonempty(first_names_m),
            first_names_f: filter_nonempty(first_names_f),
            last_names: filter_nonempty(last_names),
            cities: filter_usable_cities(cities),
            provider_types: filter_nonempty(provider_types),
            taxonomy_codes: filter_nonempty(taxonomy_codes),
        }
    }
}

/// The kept list holds every non-empty input entry and nothing else.
pub open spec fn kept_exactly(input: Seq<String>, kept: Seq<String>) -> bool {
    &&& forall|j: int|
        0 <= j < input.len() && (#[trigger] input[j])@.len() > 0 ==> contains_view(
            kept,
            input[j]@,
        )
    &&& forall|i: int| 0 <= i < kept.len() ==> contains_view(input, (#[trigger] kept[i])@)
}

/// Keeps the non-empty strings of `list`, in order: every kept entry occurs
/// in the input, and every non-empty input entry is kept.
pub fn filter_nonempty(list: Vec<String>) -> (r: Vec<String>)
    ensures
        all_nonempty(r@),
        kept_exactly(list@, r@),
{
    let mut r: Vec<String> = Vec::new();
    let mut k: usize = 0;
    while k < list.len()
        invariant
            k <= list@.len(),
            all_nonempty(r@),
            forall|j: int|
                0 <= j < k && (#[trigger] list@[j])@.len() > 0 ==> contains_view(r@, list@[j]@),
            forall|i: int| 0 <= i < r@.len() ==> contains_view(list@, (#[trigger] r@[i])@),
        decreases list@.len() - k,
    {
        if !list[k].as_str().is_empty() {
            let ghost old_r = r@;
            r.push(list[k].clone());
            assert(r@[r@.len() - 1]@ == list@[k as int]@);
            assert(forall|i: int| 0 <= i < old_r.len() ==> r@[i] == old_r[i]);
            assert(contains_view(r@, list@[k as int]@));
            assert(forall|s2: Seq<char>| contains_view(old_r, s2) ==> contains_view(r@, s2)) by {
                assert forall|s2: Seq<char>| contains_view(old_r, s2) implies contains_view(
                    r@,
                    s2,
                ) by {
                    let i = choose|i: int| 0 <= i < old_r.len() && (#[trigger] old_r[i])@ == s2;
                    assert(r@[i]@ == s2);
                }
            }
        }
        k = k + 1;
    }
    r
}

/// Keeps the city entries whose three fields are all non-empty.
pub fn filter_usable_cities(list: Vec<CityEntry>) -> (r: Vec<CityEntry>)
    ensures
        cities_nonempty(r@),
{
    let mut r: Vec<CityEntry> = Vec::new();
    let mut k: usize = 0;
    while k < list.len()
        invariant
            k <= list@.len(),
            cities_nonempty(r@),
        decreases list@.len() - k,
    {
        let e = &list[k];
        if !e.city.as_str().is_empty() && !e.state.as_str().is_empty()
            && !e.zip.as_str().is_empty() {
            let kept = CityEntry {
                city: e.city.clone(),
                state: e.state.clone(),
                zip: e.zip.clone(),
            };
            r.push(kept);
        }
        k = k + 1;
    }
    r
}

} // verus!
