//! Resolved locations and the normal form of location labels.
use vstd::prelude::*;
use vstd::string::*;
use crate::state_manager::FetchError;
use crate::text::{
    count_from, first_field, join_words, pascal, pascal_of, second_field, split_words, to_upper,
    trim, trimmed_of, two_fields, upper_of, words_of, comma_count_up_to_two,
};

verus! {

/// How long, in seconds, a resolved location stays fresh: four hours.
pub const LOCATION_CACHE_SECONDS: u64 = 14400;

/// A resolved location. Latitude and longitude are held in tenths of a
/// degree, so they are always rounded to one decimal place.
#[derive(Debug, Clone, Default)]
pub struct LocationData {
    pub city: String,
    pub country_code: String,
    pub latitude: i32,
    pub longitude: i32,
    pub location: String,
    pub created_at: u64,
}

/// A city name in normal form: each word in Pascal case, joined by single spaces.
pub open spec fn city_name_of(city: Seq<char>) -> Seq<char> {
    join_words(words_of(city).map_values(|w: Seq<char>| pascal_of(w)))
}

/// A location label in normal form: "City, CC" with the city's words in Pascal
/// case and the country code in upper case, when the label holds exactly one
/// comma; otherwise the label unchanged.
pub open spec fn normalized_label(s: Seq<char>) -> Seq<char> {
    if s.len() > 0 && count_from(s, ',', 0) == 1 {
        city_name_of(trimmed_of(first_field(s))) + ", "@ + upper_of(trimmed_of(second_field(s)))
    } else {
        s
    }
}

impl LocationData {
    /// Puts a city name in normal form ("new york" becomes "New York").
    pub fn normalize_city_name(city: &str) -> (r: String)
        ensures
            r@ == city_name_of(city@),
    {
        let words = split_words(city);
        let ghost ws = words@.map_values(|w: String| w@);
        let ghost ps = ws.map_values(|w: Seq<char>| pascal_of(w));
        let mut out = String::new();
        let mut i: usize = 0;
        while i < words.len()
            invariant
                ws == words@.map_values(|w: String| w@),
                ps == ws.map_values(|w: Seq<char>| pascal_of(w)),
                i <= words.len(),
                out@ == join_words(ps.subrange(0, i as int)),
            decreases words.len() - i,
        {
            let p = pascal(words[i].as_str());
            proof {
                assert(ps.subrange(0, i + 1).drop_last() =~= ps.subrange(0, i as int));
            }
            if i > 0 {
                out.append(" ");
            }
            out.append(p.as_str());
            i = i + 1;
        }
        proof {
            assert(ps.subrange(0, words.len() as int) =~= ps);
        }
        out
    }

    /// Puts a location label in normal form ("new york, us" becomes
    /// "New York, US"); a label without exactly one comma is kept as it is.
    pub fn normalize_location_string(location: &str) -> (r: String)
        ensures
            r@ == normalized_label(location@),
    {
        if location.unicode_len() == 0 {
            return String::from_str(location);
        }
        if comma_count_up_to_two(location) != 1 {
            return String::from_str(location);
        }
        let (a, b) = two_fields(location);
        let city = trim(a.as_str());
        let country = trim(b.as_str());
        let mut out = Self::normalize_city_name(city.as_str());
        let code = to_upper(country.as_str());
        out.append(", ");
        out.append(code.as_str());
        out
    }

    /// Puts the city in normal form and the country code in upper case, and,
    /// when both are non-empty, sets the label to "City, CC".
    pub fn normalize(&mut self)
        ensures
            final(self).city@ == city_name_of(old(self).city@),
            final(self).country_code@ == upper_of(old(self).country_code@),
            final(self).location@ == (if final(self).city@.len() > 0
                && final(self).country_code@.len() > 0 {
                final(self).city@ + ", "@ + final(self).country_code@
            } else {
                old(self).location@
            }),
            final(self).latitude == old(self).latitude,
            final(self).longitude == old(self).longitude,
            final(self).created_at == old(self).created_at,
    {
        self.city = Self::normalize_city_name(self.city.as_str());
        self.country_code = to_upper(self.country_code.as_str());
        if self.city.unicode_len() > 0 && self.country_code.unicode_len() > 0 {
            let mut label = self.city.clone();
            label.append(", ");
            label.append(self.country_code.as_str());
            self.location = label;
        }
    }

    /// Whether a stored location answers a query at time `now`: its label is
    /// the query's normal form, it has a creation time, and it is younger than
    /// four hours.
    pub fn is_fresh_for(&self, query: &str, now: u64) -> (r: bool)
        ensures
            r == (self.location@ == normalized_label(query@) && self.created_at > 0 && now
                >= self.created_at && now - self.created_at < LOCATION_CACHE_SECONDS),
    {
        let q = Self::normalize_location_string(query);
        crate::text::text_eq(self.location.as_str(), q.as_str()) && self.created_at > 0
            && now >= self.created_at && now - self.created_at < LOCATION_CACHE_SECONDS
    }
}

/// How a location query is resolved.
#[derive(Debug, Clone)]
pub enum LookupPlan {
    /// Locate this machine's network address.
    ByAddress,
    /// Geocode a city (in normal form) in a country (in upper case).
    ByName { name: String, country_code: String },
}

/// Decides how to resolve a location query: an empty query by network
/// address, a "City, CC" query (exactly one comma) by name; any other query is
/// refused.
pub fn lookup_plan(query: &str) -> (r: Result<LookupPlan, FetchError>)
    ensures
        query@.len() == 0 ==> r matches Ok(LookupPlan::ByAddress),
        query@.len() > 0 && count_from(query@, ',', 0) == 1 ==> (r matches Ok(
            LookupPlan::ByName { name, country_code },
        ) && name@ == city_name_of(trimmed_of(first_field(query@))) && country_code@ == upper_of(
            trimmed_of(second_field(query@)),
        )),
        query@.len() > 0 && count_from(query@, ',', 0) != 1 ==> r == Err::<LookupPlan, FetchError>(
            FetchError::InvalidLocation,
        ),
{
    if query.unicode_len() == 0 {
        return Ok(LookupPlan::ByAddress);
    }
    if comma_count_up_to_two(query) != 1 {
        return Err(FetchError::InvalidLocation);
    }
    let (a, b) = two_fields(query);
    let city = trim(a.as_str());
    let country = trim(b.as_str());
    let name = LocationData::normalize_city_name(city.as_str());
    let country_code = to_upper(country.as_str());
    Ok(LookupPlan::ByName { name, country_code })
}

impl LocationData {
    /// A location resolved at time `now` from a service's answer, in normal
    /// form, labelled "City, CC" when both parts are non-empty and `label`
    /// otherwise.
    pub fn resolved(
        city: String,
        country_code: String,
        latitude: i32,
        longitude: i32,
        label: String,
        now: u64,
    ) -> (r: LocationData)
        ensures
            r.city@ == city_name_of(city@),
            r.country_code@ == upper_of(country_code@),
            r.location@ == (if r.city@.len() > 0 && r.country_code@.len() > 0 {
                r.city@ + ", "@ + r.country_code@
            } else {
                label@
            }),
            r.latitude == latitude,
            r.longitude == longitude,
            r.created_at == now,
    {
        let mut d = LocationData { city, country_code, latitude, longitude, location: label, created_at: now };
        d.normalize();
        d
    }
}

} // verus!
