//! The record kept by the store: a person's age, gender and nationality.

use vstd::prelude::*;
use vstd::string::*;
use crate::text::{append_int, int_text};

verus! {

/// A person's gender.
#[derive(Debug, Clone, Copy, PartialEq, Eq, Structural)]
pub enum Gender {
    Male,
    Female,
    Others,
}

/// The mathematical value of a record.
pub struct CriteriaModel {
    pub age: i32,
    pub gender: Gender,
    pub nationality: Seq<char>,
}

impl CriteriaModel {
    /// A record the store accepts: a non-negative age and a non-empty nationality.
    pub open spec fn is_valid(self) -> bool {
        self.age >= 0 && self.nationality.len() > 0
    }
}

/// The name of a gender, as it appears in text.
pub open spec fn gender_text(g: Gender) -> Seq<char> {
    match g {
        Gender::Male => seq!['M', 'a', 'l', 'e'],
        Gender::Female => seq!['F', 'e', 'm', 'a', 'l', 'e'],
        Gender::Others => seq!['O', 't', 'h', 'e', 'r', 's'],
    }
}

/// The name of `g`.
pub fn gender_name(g: Gender) -> (r: &'static str)
    ensures
        r@ == gender_text(g),
{
    match g {
        Gender::Male => {
            proof { reveal_strlit("Male"); }
            "Male"
        },
        Gender::Female => {
            proof { reveal_strlit("Female"); }
            "Female"
        },
        Gender::Others => {
            proof { reveal_strlit("Others"); }
            "Others"
        },
    }
}

/// The one-line summary of a record.
pub open spec fn stats_text(c: CriteriaModel) -> Seq<char> {
    "Your age is "@ + int_text(c.age as int) + ", nationality "@ + c.nationality
        + ", And you are a "@ + gender_text(c.gender) + "!!"@
}

/// A person's age, gender and nationality.
#[derive(Debug)]
pub struct Criteria {
    age: i32,
    gender: Gender,
    nationality: String,
}

impl View for Criteria {
    type V = CriteriaModel;

    closed spec fn view(&self) -> CriteriaModel {
        CriteriaModel { age: self.age, gender: self.gender, nationality: self.nationality@ }
    }
}

impl Clone for Criteria {
    fn clone(&self) -> (r: Self)
        ensures
            r@ == self@,
    {
        Criteria { age: self.age, gender: self.gender, nationality: self.nationality.clone() }
    }
}

impl Criteria {
    pub fn new(age: i32, gender: Gender, nationality: String) -> (r: Criteria)
        ensures
            r@ == (CriteriaModel { age, gender, nationality: nationality@ }),
    {
        Criteria { age, gender, nationality }
    }

    pub fn age(&self) -> (r: i32)
        ensures
            r == self@.age,
    {
        self.age
    }

    pub fn gender(&self) -> (r: Gender)
        ensures
            r == self@.gender,
    {
        self.gender
    }

    pub fn nationality(&self) -> (r: &str)
        ensures
            r@ == self@.nationality,
    {
        self.nationality.as_str()
    }

    /// Whether the store accepts this record.
    pub fn is_valid(&self) -> (r: bool)
        ensures
            r == self@.is_valid(),
    {
        self.age >= 0 && self.nationality.as_str().unicode_len() > 0
    }

    /// Marks the gender as `Others`, keeping the other fields.
    pub fn mutable_opt(&mut self)
        ensures
            final(self)@ == (CriteriaModel { gender: Gender::Others, ..old(self)@ }),
    {
        self.gender = Gender::Others;
    }

    /// The one-line summary of the record: age, nationality and gender.
    pub fn stats_line(&self) -> (r: String)
        ensures
            r@ == stats_text(self@),
    {
        let mut out = String::from_str("Your age is ");
        append_int(&mut out, self.age as i64);
        out.append(", nationality ");
        out.append(self.nationality.as_str());
        out.append(", And you are a ");
        out.append(gender_name(self.gender));
        out.append("!!");
        proof {
            reveal_strlit("Your age is ");
            reveal_strlit(", nationality ");
            reveal_strlit(", And you are a ");
            reveal_strlit("!!");
        }
        assert(out@ =~= stats_text(self@));
        out
    }
}

} // verus!
