//! The bike-sharing data source: availability of the cargo bikes at the
//! home station.
//!
//! The provider's map data arrives as plain records: countries holding
//! cities holding places, each place listing its bike numbers. The finder
//! walks to the home station — the first country, city and place matching
//! the fixed home coordinates — and reports whether any of the listed
//! cargo-bike numbers is docked there.

use vstd::prelude::*;
use vstd::string::StringExecFns;

verus! {

/// One station of the bike-sharing network.
#[derive(Clone, Debug, PartialEq, Eq)]
pub struct Place {
    pub number: i32,
    pub bike_numbers: Vec<String>,
}

/// One city of the bike-sharing network.
#[derive(Clone, Debug, PartialEq, Eq)]
pub struct City {
    pub name: String,
    pub places: Vec<Place>,
}

/// One country of the bike-sharing network.
#[derive(Clone, Debug, PartialEq, Eq)]
pub struct Country {
    pub name: String,
    pub cities: Vec<City>,
}

/// The provider's whole map listing.
#[derive(Clone, Debug, PartialEq, Eq)]
pub struct Data {
    pub countries: Vec<Country>,
}

/// The first element satisfying the predicate, searching front to back.
pub open spec fn spec_find_first<T>(s: Seq<T>, p: spec_fn(T) -> bool) -> Option<T>
    decreases s.len(),
{
    if s.len() == 0 {
        None
    } else if p(s[0]) {
        Some(s[0])
    } else {
        spec_find_first(s.subrange(1, s.len() as int), p)
    }
}

/// A search that hits at the first matching index returns that element.
proof fn lemma_find_first_hit<T>(s: Seq<T>, p: spec_fn(T) -> bool, i: int)
    requires
        0 <= i < s.len(),
        forall|j: int| 0 <= j < i ==> !p(#[trigger] s[j]),
        p(s[i]),
    ensures
        spec_find_first(s, p) == Some(s[i]),
    decreases i,
{
    if i > 0 {
        let rest = s.subrange(1, s.len() as int);
        assert(forall|j: int| 0 <= j < i - 1 ==> !p(#[trigger] rest[j]));
        lemma_find_first_hit(rest, p, i - 1);
        assert(rest[i - 1] == s[i]);
    }
}

/// A search with no matching element returns nothing.
proof fn lemma_find_first_miss<T>(s: Seq<T>, p: spec_fn(T) -> bool)
    requires
        forall|j: int| 0 <= j < s.len() ==> !p(#[trigger] s[j]),
    ensures
        spec_find_first(s, p) is None,
    decreases s.len(),
{
    if s.len() > 0 {
        let rest = s.subrange(1, s.len() as int);
        assert(forall|j: int| 0 <= j < rest.len() ==> !p(#[trigger] rest[j]));
        lemma_find_first_miss(rest, p);
    }
}

/// The home station: station 4101 in Leipzig, Germany.
pub open spec fn spec_home_country_pred() -> spec_fn(Country) -> bool {
    |c: Country| c.name@ == "Germany"@
}

/// The home station's city.
pub open spec fn spec_home_city_pred() -> spec_fn(City) -> bool {
    |c: City| c.name@ == "Leipzig"@
}

/// The home station's place number.
pub open spec fn spec_home_place_pred() -> spec_fn(Place) -> bool {
    |p: Place| p.number == 4101
}

/// Whether a bike number is one of the cargo bikes watched for.
pub open spec fn spec_is_ecargo_bike(n: Seq<char>) -> bool {
    n == "20091"@ || n == "20095"@ || n == "20096"@ || n == "20111"@ || n == "20118"@ || n
        == "20119"@
}

/// Whether any of the watched cargo bikes is docked at the place.
pub open spec fn spec_place_has_ecargo(p: Place) -> bool {
    exists|i: int| 0 <= i < p.bike_numbers@.len() && spec_is_ecargo_bike(p.bike_numbers@[i]@)
}

/// Whether a cargo bike is available at the home station: the first country
/// named Germany, its first city named Leipzig, that city's first place
/// numbered 4101, and any watched bike number docked there.
pub open spec fn spec_ecargo_available(data: Data) -> bool {
    match spec_find_first(data.countries@, spec_home_country_pred()) {
        None => false,
        Some(country) => match spec_find_first(country.cities@, spec_home_city_pred()) {
            None => false,
            Some(city) => match spec_find_first(city.places@, spec_home_place_pred()) {
                None => false,
                Some(place) => spec_place_has_ecargo(place),
            },
        },
    }
}

/// Find the first country named Germany.
fn find_home_country(countries: &Vec<Country>) -> (r: Option<&Country>)
    ensures
        r is Some <==> spec_find_first(countries@, spec_home_country_pred()) is Some,
        r is Some ==> Some(*r->0) == spec_find_first(countries@, spec_home_country_pred()),
{
    let target = String::from_str("Germany");
    let mut i: usize = 0;
    while i < countries.len()
        invariant
            target@ == "Germany"@,
            i <= countries@.len(),
            forall|j: int| 0 <= j < i ==> !spec_home_country_pred()(#[trigger] countries@[j]),
        decreases countries@.len() - i,
    {
        if countries[i].name == target {
            proof {
                lemma_find_first_hit(countries@, spec_home_country_pred(), i as int);
            }
            return Some(&countries[i]);
        }
        i = i + 1;
    }
    proof {
        lemma_find_first_miss(countries@, spec_home_country_pred());
    }
    None
}

/// Find the first city named Leipzig.
fn find_home_city(cities: &Vec<City>) -> (r: Option<&City>)
    ensures
        r is Some <==> spec_find_first(cities@, spec_home_city_pred()) is Some,
        r is Some ==> Some(*r->0) == spec_find_first(cities@, spec_home_city_pred()),
{
    let target = String::from_str("Leipzig");
    let mut i: usize = 0;
    while i < cities.len()
        invariant
            target@ == "Leipzig"@,
            i <= cities@.len(),
            forall|j: int| 0 <= j < i ==> !spec_home_city_pred()(#[trigger] cities@[j]),
        decreases cities@.len() - i,
    {
        if cities[i].name == target {
            proof {
                lemma_find_first_hit(cities@, spec_home_city_pred(), i as int);
            }
            return Some(&cities[i]);
        }
        i = i + 1;
    }
    proof {
        lemma_find_first_miss(cities@, spec_home_city_pred());
    }
    None
}

/// Find the first place numbered 4101.
fn find_home_place(places: &Vec<Place>) -> (r: Option<&Place>)
    ensures
        r is Some <==> spec_find_first(places@, spec_home_place_pred()) is Some,
        r is Some ==> Some(*r->0) == spec_find_first(places@, spec_home_place_pred()),
{
    let mut i: usize = 0;
    while i < places.len()
        invariant
            i <= places@.len(),
            forall|j: int| 0 <= j < i ==> !spec_home_place_pred()(#[trigger] places@[j]),
        decreases places@.len() - i,
    {
        if places[i].number == 4101 {
            proof {
                lemma_find_first_hit(places@, spec_home_place_pred(), i as int);
            }
            return Some(&places[i]);
        }
        i = i + 1;
    }
    proof {
        lemma_find_first_miss(places@, spec_home_place_pred());
    }
    None
}

/// Whether a bike number is one of the cargo bikes watched for.
fn is_ecargo_bike(n: &String) -> (r: bool)
    ensures
        r == spec_is_ecargo_bike(n@),
{
    *n == String::from_str("20091") || *n == String::from_str("20095") || *n == String::from_str(
        "20096",
    ) || *n == String::from_str("20111") || *n == String::from_str("20118") || *n
        == String::from_str("20119")
}

/// Whether any of the watched cargo bikes is docked at the place.
fn place_has_ecargo(place: &Place) -> (r: bool)
    ensures
        r == spec_place_has_ecargo(*place),
{
    let mut i: usize = 0;
    while i < place.bike_numbers.len()
        invariant
            i <= place.bike_numbers@.len(),
            forall|j: int|
                0 <= j < i ==> !spec_is_ecargo_bike((#[trigger] place.bike_numbers@[j])@),
        decreases place.bike_numbers@.len() - i,
    {
        if is_ecargo_bike(&place.bike_numbers[i]) {
            return true;
        }
        i = i + 1;
    }
    false
}

/// Report whether a cargo bike is available at the home station: the first
/// country named Germany, its first city named Leipzig, that city's first
/// place numbered 4101, and any watched bike number docked there.
pub fn bike_finder(data: Data) -> (r: Option<()>)
    ensures
        r is Some <==> spec_ecargo_available(data),
{
    let country = match find_home_country(&data.countries) {
        Some(c) => c,
        None => {
            return None;
        },
    };
    let city = match find_home_city(&country.cities) {
        Some(c) => c,
        None => {
            return None;
        },
    };
    let place = match find_home_place(&city.places) {
        Some(p) => p,
        None => {
            return None;
        },
    };
    if place_has_ecargo(place) {
        Some(())
    } else {
        None
    }
}

} // verus!
