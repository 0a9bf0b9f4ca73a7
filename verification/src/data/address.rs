//! Word lists and digit patterns for addresses.

use vstd::prelude::*;

verus! {

/// Digit patterns of street numbers.
pub const NUMBER: [&'static str; 3] = ["#####", "####", "###"];

/// Words that may open a street or city name.
pub const STREET_PREFIX: [&'static str; 7] = [
    "North", "East", "West", "South", "New", "Lake", "Port",
];

/// Endings of street and city names.
pub const STREET_SUFFIX: [&'static str; 18] = [
    "town", "ton", "land", "ville", "berg", "burgh", "borough", "bury", "view", "port",
    "mouth", "stad", "furt", "chester", "fort", "haven", "side", "shire",
];

/// Names of the states of the USA.
pub const STATE: [&'static str; 50] = [
    "Alabama", "Alaska", "Arizona", "Arkansas", "California", "Colorado", "Connecticut",
    "Delaware", "Florida", "Georgia", "Hawaii", "Idaho", "Illinois", "Indiana", "Iowa",
    "Kansas", "Kentucky", "Louisiana", "Maine", "Maryland", "Massachusetts", "Michigan",
    "Minnesota", "Mississippi", "Missouri", "Montana", "Nebraska", "Nevada",
    "New Hampshire", "New Jersey", "New Mexico", "New York", "North Carolina",
    "North Dakota", "Ohio", "Oklahoma", "Oregon", "Pennsylvania", "Rhode Island",
    "South Carolina", "South Dakota", "Tennessee", "Texas", "Utah", "Vermont", "Virginia",
    "Washington", "West Virginia", "Wisconsin", "Wyoming",
];

/// Two-letter codes of the states of the USA.
pub const STATE_ABR: [&'static str; 50] = [
    "AL", "AK", "AZ", "AR", "CA", "CO", "CT", "DE", "FL", "GA", "HI", "ID", "IL", "IN",
    "IA", "KS", "KY", "LA", "ME", "MD", "MA", "MI", "MN", "MS", "MO", "MT", "NE", "NV",
    "NH", "NJ", "NM", "NY", "NC", "ND", "OH", "OK", "OR", "PA", "RI", "SC", "SD", "TN",
    "TX", "UT", "VT", "VA", "WA", "WV", "WI", "WY",
];

/// Digit patterns of zip codes.
pub const ZIP: [&'static str; 1] = ["#####"];

/// Names of countries.
pub const COUNTRY: [&'static str; 36] = [
    "Argentina", "Austria", "Bolivia", "Cambodia", "Canada", "China", "Croatia", "Cyprus",
    "Denmark", "Estonia", "Fiji", "France", "Greece", "Hungary", "Indonesia", "Israel",
    "Jamaica", "Kenya", "Lebanon", "Luxembourg", "Malta", "Mongolia", "Nepal", "Nigeria",
    "Pakistan", "Peru", "Poland", "Romania", "Singapore", "Slovenia", "Spain",
    "Switzerland", "Tunisia", "Uganda", "United States of America", "Venezuela",
];

/// Two-letter codes of countries.
pub const COUNTRY_ABR: [&'static str; 36] = [
    "AR", "AT", "BO", "KH", "CA", "CN", "HR", "CY", "DK", "EE", "FJ", "FR", "GR", "HU",
    "ID", "IL", "JM", "KE", "LB", "LU", "MT", "MN", "NP", "NG", "PK", "PE", "PL", "RO",
    "SG", "SI", "ES", "CH", "TN", "UG", "US", "VE",
];

} // verus!
