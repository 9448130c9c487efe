//! The one kind of record that the store holds.

use crate::decimal::{integer_text, push_i32};
use vstd::prelude::*;

verus! {

/// A row of a table: a key and three texts.
#[derive(Debug, Clone, PartialEq, Eq)]
pub struct Person {
    pub id: i32,
    pub name: String,
    pub gender: String,
    pub city: String,
}

/// What a record is, as mathematics.
pub struct PersonView {
    pub id: int,
    pub name: Seq<char>,
    pub gender: Seq<char>,
    pub city: Seq<char>,
}

impl View for Person {
    type V = PersonView;

    open spec fn view(&self) -> PersonView {
        PersonView { id: self.id as int, name: self.name@, gender: self.gender@, city: self.city@ }
    }
}

/// The line that shows a record: `ID: 11, Name: Remi, Gender: female, City: Durham`.
pub open spec fn line_view(person: PersonView) -> Seq<char> {
    "ID: "@ + integer_text(person.id) + ", Name: "@ + person.name + ", Gender: "@ + person.gender
        + ", City: "@ + person.city
}

/// The views of a list of records.
pub open spec fn people_view(people: Seq<Person>) -> Seq<PersonView> {
    people.map_values(|p: Person| p@)
}

impl Person {
    /// The line that shows this record.
    pub fn line(&self) -> (out: String)
        ensures
            out@ == line_view(self@),
    {
        let mut out = String::from_str("ID: ");
        push_i32(&mut out, self.id);
        out.append(", Name: ");
        out.append(self.name.as_str());
        out.append(", Gender: ");
        out.append(self.gender.as_str());
        out.append(", City: ");
        out.append(self.city.as_str());
        out
    }
}

/// The lines that show `people`, one for each record and in their order.
pub fn listing(people: &Vec<Person>) -> (lines: Vec<String>)
    ensures
        lines@.len() == people@.len(),
        forall|i: int| 0 <= i < people@.len() ==> (#[trigger] lines@[i])@ == line_view(people@[i]@),
{
    let mut lines: Vec<String> = Vec::new();
    let mut i: usize = 0;
    while i < people.len()
        invariant
            i <= people.len(),
            lines@.len() == i,
            forall|k: int| 0 <= k < i ==> (#[trigger] lines@[k])@ == line_view(people@[k]@),
        decreases people.len() - i,
    {
        lines.push(people[i].line());
        i += 1;
    }
    lines
}

} // verus!
