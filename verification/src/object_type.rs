//! What a node stands for in the content layer, and its persisted code.

use vstd::prelude::*;
use crate::text::str_eq;

verus! {

/// What a node stands for.
#[derive(Debug, Clone, Copy, PartialEq, Eq, Structural)]
pub enum ObjectType {
    Reserved,
    Filter,
    BundleRoot,
    BundleElement,
    OrgDir,
}

/// The persisted code of an object type.
pub open spec fn spec_object_type_code(kind: ObjectType) -> Seq<char> {
    match kind {
        ObjectType::Reserved => "R"@,
        ObjectType::Filter => "F"@,
        ObjectType::BundleRoot => "BR"@,
        ObjectType::BundleElement => "BE"@,
        ObjectType::OrgDir => "O"@,
    }
}

/// The object type that a persisted code stands for, if it stands for one.
pub open spec fn spec_object_type_of(code: Seq<char>) -> Option<ObjectType> {
    if code == "R"@ {
        Some(ObjectType::Reserved)
    } else if code == "F"@ {
        Some(ObjectType::Filter)
    } else if code == "BR"@ {
        Some(ObjectType::BundleRoot)
    } else if code == "BE"@ {
        Some(ObjectType::BundleElement)
    } else if code == "O"@ {
        Some(ObjectType::OrgDir)
    } else {
        None
    }
}

/// A persisted code that names no object type.
#[derive(Debug, Clone)]
pub struct InvalidObjectTypeError {
    got: String,
}

impl InvalidObjectTypeError {
    /// The text that was refused.
    pub closed spec fn spec_got(&self) -> Seq<char> {
        self.got@
    }

    /// The text that was refused.
    pub fn got(&self) -> (text: &str)
        ensures
            text@ == self.spec_got(),
    {
        self.got.as_str()
    }

    /// The message of this error.
    pub fn to_string(&self) -> (text: String)
        ensures
            text@ == "invalid ObjectType: "@ + self.spec_got(),
    {
        let mut text = String::from_str("invalid ObjectType: ");
        text.append(self.got.as_str());
        text
    }
}

impl ObjectType {
    /// The code under which this object type is persisted.
    pub fn as_str(&self) -> (code: &'static str)
        ensures
            code@ == spec_object_type_code(*self),
    {
        match self {
            ObjectType::Reserved => "R",
            ObjectType::Filter => "F",
            ObjectType::BundleRoot => "BR",
            ObjectType::BundleElement => "BE",
            ObjectType::OrgDir => "O",
        }
    }

    /// The persisted code as an owned string.
    pub fn to_string(&self) -> (code: String)
        ensures
            code@ == spec_object_type_code(*self),
    {
        String::from_str(self.as_str())
    }

    /// Reads a persisted code, and refuses one that names no object type.
    pub fn from_code(s: &str) -> (res: Result<ObjectType, InvalidObjectTypeError>)
        ensures
            match spec_object_type_of(s@) {
                Some(kind) => res == Ok::<ObjectType, InvalidObjectTypeError>(kind),
                None => res is Err && res->Err_0.spec_got() == s@,
            },
    {
        if str_eq(s, "R") {
            Ok(ObjectType::Reserved)
        } else if str_eq(s, "F") {
            Ok(ObjectType::Filter)
        } else if str_eq(s, "BR") {
            Ok(ObjectType::BundleRoot)
        } else if str_eq(s, "BE") {
            Ok(ObjectType::BundleElement)
        } else if str_eq(s, "O") {
            Ok(ObjectType::OrgDir)
        } else {
            Err(InvalidObjectTypeError { got: String::from_str(s) })
        }
    }
}

impl core::str::FromStr for ObjectType {
    type Err = InvalidObjectTypeError;

    fn from_str(s: &str) -> (res: Result<Self, Self::Err>)
        ensures
            match spec_object_type_of(s@) {
                Some(kind) => res == Ok::<ObjectType, InvalidObjectTypeError>(kind),
                None => res is Err && res->Err_0.spec_got() == s@,
            },
    {
        ObjectType::from_code(s)
    }
}

/// Every object type is read back from its own code.
pub proof fn lemma_object_type_round_trip(kind: ObjectType)
    ensures
        spec_object_type_of(spec_object_type_code(kind)) == Some(kind),
{
    reveal_strlit("R");
    reveal_strlit("F");
    reveal_strlit("BR");
    reveal_strlit("BE");
    reveal_strlit("O");
    assert("R"@[0] == 'R' && "F"@[0] == 'F' && "O"@[0] == 'O');
    assert("BR"@[1] == 'R' && "BE"@[1] == 'E');
}

/// A code that is read as an object type is the code of that type.
pub proof fn lemma_object_type_code_unique(code: Seq<char>, kind: ObjectType)
    requires
        spec_object_type_of(code) == Some(kind),
    ensures
        spec_object_type_code(kind) == code,
{
}

} // verus!
