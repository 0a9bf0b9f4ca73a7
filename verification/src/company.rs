//! Mock companies: names, legal forms and corporate speech.

use crate::data::company::{BS, BUZZWORDS, SUFFIX};
use crate::data::name::LAST;
use crate::misc::{offers, random, random_data};
use crate::name;
use vstd::prelude::*;

verus! {

/// A company name in one of its three shapes, with the parts it is made of.
/// The parts are `String`s in a value and `Seq<char>`s in its view.
#[derive(Debug)]
pub enum Company<T> {
    /// Three family names, as in `Rowe, Schoen and Kuhn`.
    Partners { first: T, second: T, third: T },
    /// Two family names joined by a hyphen, as in `Rowe-Schoen`.
    Pair { first: T, second: T },
    /// A family name and a legal form, as in `Rowe Group`.
    Titled { name: T, suffix: T },
}

impl View for Company<String> {
    type V = Company<Seq<char>>;

    open spec fn view(&self) -> Company<Seq<char>> {
        match self {
            Company::Partners { first, second, third } => Company::Partners {
                first: first@,
                second: second@,
                third: third@,
            },
            Company::Pair { first, second } => Company::Pair { first: first@, second: second@ },
            Company::Titled { name, suffix } => Company::Titled { name: name@, suffix: suffix@ },
        }
    }
}

impl Company<Seq<char>> {
    /// Every part is one that its generator can return.
    pub open spec fn well_formed(self) -> bool {
        match self {
            Company::Partners { first, second, third } => {
                &&& offers(LAST@, first)
                &&& offers(LAST@, second)
                &&& offers(LAST@, third)
            },
            Company::Pair { first, second } => {
                &&& offers(LAST@, first)
                &&& offers(LAST@, second)
            },
            Company::Titled { name, suffix } => {
                &&& offers(LAST@, name)
                &&& offers(SUFFIX@, suffix)
            },
        }
    }

    /// The name as text.
    pub open spec fn text(self) -> Seq<char> {
        match self {
            Company::Partners { first, second, third } => first + seq![',', ' '] + second
                + seq![' ', 'a', 'n', 'd', ' '] + third,
            Company::Pair { first, second } => first + seq!['-'] + second,
            Company::Titled { name, suffix } => name + seq![' '] + suffix,
        }
    }
}

impl Company<String> {
    /// Writes the name out.
    pub fn render(&self) -> (s: String)
        ensures
            s@ == self@.text(),
    {
        match self {
            Company::Partners { first, second, third } => {
                let mut s = first.clone();
                s.push(',');
                s.push(' ');
                s.append(second.as_str());
                s.push(' ');
                s.push('a');
                s.push('n');
                s.push('d');
                s.push(' ');
                s.append(third.as_str());
                assert(s@ =~= self@.text());
                s
            },
            Company::Pair { first, second } => {
                let mut s = first.clone();
                s.push('-');
                s.append(second.as_str());
                assert(s@ =~= self@.text());
                s
            },
            Company::Titled { name, suffix } => {
                let mut s = name.clone();
                s.push(' ');
                s.append(suffix.as_str());
                assert(s@ =~= self@.text());
                s
            },
        }
    }

    /// Picks one of the three shapes at random and draws its parts.
    pub fn generate() -> (company: Company<String>)
        ensures
            company@.well_formed(),
    {
        let shape: i64 = random(1, 3);
        if shape == 1 {
            Company::Partners { first: name::last(), second: name::last(), third: name::last() }
        } else if shape == 2 {
            Company::Pair { first: name::last(), second: name::last() }
        } else {
            Company::Titled { name: name::last(), suffix: company_suffix() }
        }
    }
}

/// `s` is the text of some well-formed company name.
pub open spec fn is_company(s: Seq<char>) -> bool {
    exists|company: Company<Seq<char>>| #[trigger] company.well_formed() && company.text() == s
}

/// A random company name, such as `Rowe-Schoen`.
pub fn company() -> (s: String)
    ensures
        is_company(s@),
{
    Company::generate().render()
}

/// A random legal form, such as `Inc`.
pub fn company_suffix() -> (s: String)
    ensures
        offers(SUFFIX@, s@),
{
    random_data(&SUFFIX)
}

/// A random buzzword, such as `Streamlined`.
pub fn buzzword() -> (s: String)
    ensures
        offers(BUZZWORDS@, s@),
{
    random_data(&BUZZWORDS)
}

/// A random word of corporate speech, such as `strategic`.
pub fn bs() -> (s: String)
    ensures
        offers(BS@, s@),
{
    random_data(&BS)
}

} // verus!
