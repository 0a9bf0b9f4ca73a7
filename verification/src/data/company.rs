//! Word lists for companies.

use vstd::prelude::*;

verus! {

/// Legal forms that may close a company name.
pub const SUFFIX: [&'static str; 3] = ["Inc", "LLC", "Group"];

/// Adjectives of corporate speech.
pub const BUZZWORDS: [&'static str; 36] = [
    "Adaptive", "Ameliorated", "Balanced", "Cloned", "Cross-group", "Customer-focused",
    "De-engineered", "Distributed", "Enhanced", "Exclusive", "Extended", "Front-line",
    "Fundamental", "Horizontal", "Innovative", "Inverse", "Monitored", "Multi-layered",
    "Object-based", "Open-source", "Optional", "Persevering", "Polarised", "Proactive",
    "Programmable", "Quality-focused", "Re-contextualized", "Reverse-engineered", "Robust",
    "Self-enabling", "Streamlined", "Synergistic", "Team-oriented", "Universal",
    "User-centric", "Virtual",
];

/// Verbs, adjectives and nouns of corporate speech.
pub const BS: [&'static str; 36] = [
    "aggregate", "cultivate", "e-enable", "engage", "expedite", "generate", "incubate",
    "leverage", "morph", "recontextualize", "revolutionize", "streamline", "transform",
    "visualize", "bleeding-edge", "compelling", "dot-com", "enterprise", "granular",
    "integrated", "magnetic", "open-source", "revolutionary", "seamless", "transparent",
    "value-added", "web-enabled", "applications", "content", "e-commerce", "eyeballs",
    "initiatives", "mindshare", "paradigms", "ROI", "synergies",
];

} // verus!
