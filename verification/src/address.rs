//! Mock addresses: streets, cities, states, zip codes, countries and
//! coordinates.

use crate::data::address::{
    COUNTRY, COUNTRY_ABR, NUMBER, STATE, STATE_ABR, STREET_PREFIX, STREET_SUFFIX, ZIP,
};
use crate::data::name::{FIRST, LAST};
use crate::misc::{
    all_digits, fills_one_of, offers, random, random_data, range_accepted,
    replace_with_numbers, value_in_range,
};
use crate::name;
use vstd::prelude::*;

verus! {

/// A street line in one of its two shapes, with the parts it is made of.
/// The parts are `String`s in a value and `Seq<char>`s in its view.
#[derive(Debug)]
pub enum Street<T> {
    /// Number, prefix, name and suffix.
    Prefixed { number: T, prefix: T, name: T, suffix: T },
    /// Number, name and suffix.
    Plain { number: T, name: T, suffix: T },
}

impl View for Street<String> {
    type V = Street<Seq<char>>;

    open spec fn view(&self) -> Street<Seq<char>> {
        match self {
            Street::Prefixed { number, prefix, name, suffix } => Street::Prefixed {
                number: number@,
                prefix: prefix@,
                name: name@,
                suffix: suffix@,
            },
            Street::Plain { number, name, suffix } => Street::Plain {
                number: number@,
                name: name@,
                suffix: suffix@,
            },
        }
    }
}

impl Street<Seq<char>> {
    /// Every part is one that its generator can return.
    pub open spec fn well_formed(self) -> bool {
        match self {
            Street::Prefixed { number, prefix, name, suffix } => {
                &&& fills_one_of(NUMBER@, number)
                &&& offers(STREET_PREFIX@, prefix)
                &&& offers(STATE@, name)
                &&& offers(STREET_SUFFIX@, suffix)
            },
            Street::Plain { number, name, suffix } => {
                &&& fills_one_of(NUMBER@, number)
                &&& offers(STATE@, name)
                &&& offers(STREET_SUFFIX@, suffix)
            },
        }
    }

    /// The line as text: the parts in order, one space between neighbours.
    pub open spec fn text(self) -> Seq<char> {
        match self {
            Street::Prefixed { number, prefix, name, suffix } => number + seq![' '] + prefix
                + seq![' '] + name + seq![' '] + suffix,
            Street::Plain { number, name, suffix } => number + seq![' '] + name + seq![' ']
                + suffix,
        }
    }
}

impl Street<String> {
    /// Writes the line out.
    pub fn render(&self) -> (s: String)
        ensures
            s@ == self@.text(),
    {
        match self {
            Street::Prefixed { number, prefix, name, suffix } => {
                let mut s = number.clone();
                s.push(' ');
                s.append(prefix.as_str());
                s.push(' ');
                s.append(name.as_str());
                s.push(' ');
                s.append(suffix.as_str());
                assert(s@ =~= self@.text());
                s
            },
            Street::Plain { number, name, suffix } => {
                let mut s = number.clone();
                s.push(' ');
                s.append(name.as_str());
                s.push(' ');
                s.append(suffix.as_str());
                assert(s@ =~= self@.text());
                s
            },
        }
    }

    /// Picks one of the two shapes at random and draws its parts.
    pub fn generate() -> (street: Street<String>)
        ensures
            street@.well_formed(),
    {
        if random(1, 2) == 1 {
            Street::Prefixed {
                number: street_number(),
                prefix: street_prefix(),
                name: street_name(),
                suffix: street_suffix(),
            }
        } else {
            Street::Plain { number: street_number(), name: street_name(), suffix: street_suffix() }
        }
    }
}

/// `s` is the text of some well-formed street line.
pub open spec fn is_street(s: Seq<char>) -> bool {
    exists|street: Street<Seq<char>>| #[trigger] street.well_formed() && street.text() == s
}

/// A random street line, such as `1128 South North Dakota borough`.
pub fn street() -> (s: String)
    ensures
        is_street(s@),
{
    Street::generate().render()
}

/// A random street number: a digit pattern with its digits filled in,
/// which makes three to five digits.
pub fn street_number() -> (s: String)
    ensures
        fills_one_of(NUMBER@, s@),
        3 <= s@.len() <= 5,
        all_digits(s@),
{
    let s = replace_with_numbers(random_data(&NUMBER).as_str());
    proof {
        reveal_strlit("#####");
        reveal_strlit("####");
        reveal_strlit("###");
    }
    s
}

/// A random word that may open a street name, such as `North` or `Lake`.
pub fn street_prefix() -> (s: String)
    ensures
        offers(STREET_PREFIX@, s@),
{
    random_data(&STREET_PREFIX)
}

/// A random street name.
pub fn street_name() -> (s: String)
    ensures
        offers(STATE@, s@),
{
    random_data(&STATE)
}

/// A random ending of a street name, such as `town` or `view`.
pub fn street_suffix() -> (s: String)
    ensures
        offers(STREET_SUFFIX@, s@),
{
    random_data(&STREET_SUFFIX)
}

/// A city name in one of its three shapes, with the parts it is made of.
/// The parts are `String`s in a value and `Seq<char>`s in its view.
#[derive(Debug)]
pub enum City<T> {
    /// A given name with a suffix attached.
    FirstSuffix { first: T, suffix: T },
    /// A family name with a suffix attached.
    LastSuffix { last: T, suffix: T },
    /// A prefix, a space and a family name.
    PrefixLast { prefix: T, last: T },
}

impl View for City<String> {
    type V = City<Seq<char>>;

    open spec fn view(&self) -> City<Seq<char>> {
        match self {
            City::FirstSuffix { first, suffix } => City::FirstSuffix {
                first: first@,
                suffix: suffix@,
            },
            City::LastSuffix { last, suffix } => City::LastSuffix { last: last@, suffix: suffix@ },
            City::PrefixLast { prefix, last } => City::PrefixLast { prefix: prefix@, last: last@ },
        }
    }
}

impl City<Seq<char>> {
    /// Every part is one that its generator can return.
    pub open spec fn well_formed(self) -> bool {
        match self {
            City::FirstSuffix { first, suffix } => {
                &&& offers(FIRST@, first)
                &&& offers(STREET_SUFFIX@, suffix)
            },
            City::LastSuffix { last, suffix } => {
                &&& offers(LAST@, last)
                &&& offers(STREET_SUFFIX@, suffix)
            },
            City::PrefixLast { prefix, last } => {
                &&& offers(STREET_PREFIX@, prefix)
                &&& offers(LAST@, last)
            },
        }
    }

    /// The name as text.
    pub open spec fn text(self) -> Seq<char> {
        match self {
            City::FirstSuffix { first, suffix } => first + suffix,
            City::LastSuffix { last, suffix } => last + suffix,
            City::PrefixLast { prefix, last } => prefix + seq![' '] + last,
        }
    }
}

impl City<String> {
    /// Writes the name out.
    pub fn render(&self) -> (s: String)
        ensures
            s@ == self@.text(),
    {
        match self {
            City::FirstSuffix { first, suffix } => {
                let mut s = first.clone();
                s.append(suffix.as_str());
                s
            },
            City::LastSuffix { last, suffix } => {
                let mut s = last.clone();
                s.append(suffix.as_str());
                s
            },
            City::PrefixLast { prefix, last } => {
                let mut s = prefix.clone();
                s.push(' ');
                s.append(last.as_str());
                assert(s@ =~= self@.text());
                s
            },
        }
    }

    /// Picks one of the three shapes at random and draws its parts.
    pub fn generate() -> (city: City<String>)
        ensures
            city@.well_formed(),
    {
        let shape: i64 = random(1, 3);
        if shape == 1 {
            City::FirstSuffix { first: name::first(), suffix: street_suffix() }
        } else if shape == 2 {
            City::LastSuffix { last: name::last(), suffix: street_suffix() }
        } else {
            City::PrefixLast { prefix: street_prefix(), last: name::last() }
        }
    }
}

/// `s` is the text of some well-formed city name.
pub open spec fn is_city(s: Seq<char>) -> bool {
    exists|city: City<Seq<char>>| #[trigger] city.well_formed() && city.text() == s
}

/// A random city name, such as `Schmelerburgh`.
pub fn city() -> (s: String)
    ensures
        is_city(s@),
{
    City::generate().render()
}

/// A random state of the USA.
pub fn state() -> (s: String)
    ensures
        offers(STATE@, s@),
{
    random_data(&STATE)
}

/// A random two-letter code of a state of the USA.
pub fn state_abr() -> (s: String)
    ensures
        offers(STATE_ABR@, s@),
{
    random_data(&STATE_ABR)
}

/// A random zip code: five digits.
pub fn zip() -> (s: String)
    ensures
        fills_one_of(ZIP@, s@),
        s@.len() == 5,
        all_digits(s@),
{
    let s = replace_with_numbers(random_data(&ZIP).as_str());
    proof {
        reveal_strlit("#####");
    }
    s
}

/// A random country.
pub fn country() -> (s: String)
    ensures
        offers(COUNTRY@, s@),
{
    random_data(&COUNTRY)
}

/// A random two-letter country code.
pub fn country_abr() -> (s: String)
    ensures
        offers(COUNTRY_ABR@, s@),
{
    random_data(&COUNTRY_ABR)
}

/// Coordinates are fixed-point numbers: an `i64` that counts millionths of
/// a degree. This is the number of such units in one degree.
pub const UNITS_PER_DEGREE: i64 = 1_000_000;

/// The largest latitude, 90 degrees; the smallest is its negative.
pub const LATITUDE_LIMIT: i64 = 90_000_000;

/// The largest longitude, 180 degrees; the smallest is its negative.
pub const LONGITUDE_LIMIT: i64 = 180_000_000;

/// `v` is a latitude: it lies between -90 and 90 degrees.
pub open spec fn is_latitude(v: int) -> bool {
    -LATITUDE_LIMIT <= v <= LATITUDE_LIMIT
}

/// `v` is a longitude: it lies between -180 and 180 degrees.
pub open spec fn is_longitude(v: int) -> bool {
    -LONGITUDE_LIMIT <= v <= LONGITUDE_LIMIT
}

/// The request `[min, max]` is one that `latitude_in_range` honours.
pub open spec fn latitude_range_accepted(min: int, max: int) -> bool {
    range_accepted(min, max, -LATITUDE_LIMIT, LATITUDE_LIMIT as int)
}

/// The request `[min, max]` is one that `longitude_in_range` honours.
pub open spec fn longitude_range_accepted(min: int, max: int) -> bool {
    range_accepted(min, max, -LONGITUDE_LIMIT, LONGITUDE_LIMIT as int)
}

/// A random latitude.
pub fn latitude() -> (v: i64)
    ensures
        is_latitude(v as int),
{
    random(-LATITUDE_LIMIT, LATITUDE_LIMIT)
}

/// A random latitude between `min` and `max`. If the request is inverted
/// or reaches beyond 90 degrees on either side it is ignored, and any
/// latitude may come back.
pub fn latitude_in_range(min: i64, max: i64) -> (v: i64)
    ensures
        latitude_range_accepted(min as int, max as int) ==> min <= v <= max,
        is_latitude(v as int),
        max < -LATITUDE_LIMIT || LATITUDE_LIMIT < min ==> !(min <= v <= max),
{
    value_in_range(min, max, -LATITUDE_LIMIT, LATITUDE_LIMIT, latitude)
}

/// A random longitude.
pub fn longitude() -> (v: i64)
    ensures
        is_longitude(v as int),
{
    random(-LONGITUDE_LIMIT, LONGITUDE_LIMIT)
}

/// A random longitude between `min` and `max`. If the request is inverted
/// or reaches beyond 180 degrees on either side it is ignored, and any
/// longitude may come back.
pub fn longitude_in_range(min: i64, max: i64) -> (v: i64)
    ensures
        longitude_range_accepted(min as int, max as int) ==> min <= v <= max,
        is_longitude(v as int),
        max < -LONGITUDE_LIMIT || LONGITUDE_LIMIT < min ==> !(min <= v <= max),
{
    value_in_range(min, max, -LONGITUDE_LIMIT, LONGITUDE_LIMIT, longitude)
}

/// The text of a full address line: street, city, state and zip code.
pub open spec fn address_line_text(
    street: Seq<char>,
    city: Seq<char>,
    state: Seq<char>,
    zip: Seq<char>,
) -> Seq<char> {
    street + seq![',', ' '] + city + seq![',', ' '] + state + seq![' '] + zip
}

/// `s` is an address line whose four parts are each one that its generator
/// can return.
pub open spec fn is_address_line(s: Seq<char>) -> bool {
    exists|street: Seq<char>, city: Seq<char>, state: Seq<char>, zip: Seq<char>|
        {
            &&& is_street(street)
            &&& is_city(city)
            &&& offers(STATE@, state)
            &&& fills_one_of(ZIP@, zip)
            &&& s == #[trigger] address_line_text(street, city, state, zip)
        }
}

/// Joins street, city, state and zip code into one address line.
pub fn address_line(street: &str, city: &str, state: &str, zip: &str) -> (s: String)
    ensures
        s@ == address_line_text(street@, city@, state@, zip@),
{
    let mut s = street.to_owned();
    s.push(',');
    s.push(' ');
    s.append(city);
    s.push(',');
    s.push(' ');
    s.append(state);
    s.push(' ');
    s.append(zip);
    assert(s@ =~= address_line_text(street@, city@, state@, zip@));
    s
}

/// An address with its parts and coordinates.
#[derive(Debug)]
pub struct Info {
    /// A full address line: street, city, state and zip code. It is drawn
    /// on its own, so its parts need not be those of the other fields.
    pub address: String,
    pub street: String,
    pub city: String,
    pub state: String,
    pub zip: String,
    pub country: String,
    /// In millionths of a degree.
    pub latitude: i64,
    /// In millionths of a degree.
    pub longitude: i64,
}

impl Info {
    /// Every field holds a value that its generator can return.
    pub open spec fn well_formed(&self) -> bool {
        &&& is_address_line(self.address@)
        &&& is_street(self.street@)
        &&& is_city(self.city@)
        &&& offers(STATE@, self.state@)
        &&& fills_one_of(ZIP@, self.zip@)
        &&& offers(COUNTRY@, self.country@)
        &&& is_latitude(self.latitude as int)
        &&& is_longitude(self.longitude as int)
    }
}

/// A random address with all of its fields filled in.
pub fn info() -> (i: Info)
    ensures
        i.well_formed(),
{
    let line_street = street();
    let line_city = city();
    let line_state = state();
    let line_zip = zip();
    Info {
        address: address_line(
            line_street.as_str(),
            line_city.as_str(),
            line_state.as_str(),
            line_zip.as_str(),
        ),
        street: street(),
        city: city(),
        state: state(),
        zip: zip(),
        country: country(),
        latitude: latitude(),
        longitude: longitude(),
    }
}

} // verus!
