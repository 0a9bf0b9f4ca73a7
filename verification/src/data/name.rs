//! Word lists for personal names.

use vstd::prelude::*;

verus! {

/// Given names.
pub const FIRST: [&'static str; 36] = [
    "Aaliyah", "Adam", "Alexander", "Andrew", "Aria", "Brandon", "Camila", "Charlotte",
    "Claire", "David", "Elena", "Elizabeth", "Emma", "Evelyn", "Hannah", "Henry",
    "Isabella", "Jackson", "Jayden", "Joseph", "Julian", "Leah", "Liam", "Lincoln", "Lucy",
    "Madison", "Matthew", "Michael", "Natalie", "Noah", "Olivia", "Riley", "Sarah", "Sofia",
    "Thomas", "William",
];

/// Family names.
pub const LAST: [&'static str; 36] = [
    "Abbott", "Bartell", "Boyle", "Collier", "Deckow", "Emmerich", "Friesen", "Gutmann",
    "Hartmann", "Hintz", "Jenkins", "Kihn", "Kris", "Larkin", "Lindgren", "Marquardt",
    "McLaughlin", "Monahan", "Murray", "Olson", "Parker", "Prosacco", "Reichert", "Robel",
    "Runolfsdottir", "Sawayn", "Schmitt", "Senger", "Spinka", "Stoltenberg", "Tillman",
    "Turcotte", "Waelchi", "Weissnat", "Willms", "Wuckert",
];

} // verus!
