//! The record, and the six fields that an object must hold to be one.

use vstd::prelude::*;

verus! {

/// One imported record.
#[derive(Debug, PartialEq, Eq)]
pub struct Record {
    pub id: i32,
    pub first_name: String,
    pub last_name: String,
    pub email: String,
    pub gender: String,
    /// The address as the document spells it; its form is not examined.
    pub ip_address: String,
}

/// The mathematical value of a [`Record`].
pub ghost struct RecordModel {
    pub id: int,
    pub first_name: Seq<char>,
    pub last_name: Seq<char>,
    pub email: Seq<char>,
    pub gender: Seq<char>,
    pub ip_address: Seq<char>,
}

impl RecordModel {
    /// Whether a [`Record`] can hold this value: the identifier fits `i32`.
    pub open spec fn valid(self) -> bool {
        i32::MIN <= self.id <= i32::MAX
    }
}

impl View for Record {
    type V = RecordModel;

    open spec fn view(&self) -> RecordModel {
        RecordModel {
            id: self.id as int,
            first_name: self.first_name@,
            last_name: self.last_name@,
            email: self.email@,
            gender: self.gender@,
            ip_address: self.ip_address@,
        }
    }
}

impl DeepView for Record {
    type V = RecordModel;

    open spec fn deep_view(&self) -> RecordModel {
        self@
    }
}

/// A field of the record, in the order in which the record declares them.
#[derive(Debug, Clone, Copy, PartialEq, Eq)]
pub enum Field {
    Id,
    FirstName,
    LastName,
    Email,
    Gender,
    IpAddress,
}

impl Field {
    /// The key under which a document holds the field.
    pub open spec fn key(self) -> Seq<char> {
        match self {
            Field::Id => "id"@,
            Field::FirstName => "first_name"@,
            Field::LastName => "last_name"@,
            Field::Email => "email"@,
            Field::Gender => "gender"@,
            Field::IpAddress => "ip_address"@,
        }
    }

    /// The key under which a document holds the field.
    pub fn name(self) -> (name: &'static str)
        ensures
            name@ == self.key(),
    {
        match self {
            Field::Id => "id",
            Field::FirstName => "first_name",
            Field::LastName => "last_name",
            Field::Email => "email",
            Field::Gender => "gender",
            Field::IpAddress => "ip_address",
        }
    }
}

/// No two fields share a key.
pub proof fn lemma_keys_distinct(a: Field, b: Field)
    ensures
        a.key() == b.key() <==> a == b,
{
    reveal_strlit("id");
    reveal_strlit("first_name");
    reveal_strlit("last_name");
    reveal_strlit("email");
    reveal_strlit("gender");
    reveal_strlit("ip_address");
    if a != b {
        if a.key().len() == b.key().len() {
            assert(a.key()[0] != b.key()[0]);
        }
    }
}

} // verus!
