//! The role of a node in the tree, and its persisted code.

use vstd::prelude::*;
use crate::text::str_eq;

verus! {

/// The role of a node.
#[derive(Debug, Clone, Copy, PartialEq, Eq, Structural)]
pub enum NodeType {
    Special,
    FilterDir,
    FilterSpecFile,
    FilterBundleLink,
    BundleRoot,
    BundleElement,
    OrgDir,
}

/// The persisted code of an node type.
pub open spec fn spec_node_type_code(kind: NodeType) -> Seq<char> {
    match kind {
        NodeType::Special => "S"@,
        NodeType::FilterDir => "FD"@,
        NodeType::FilterSpecFile => "FF"@,
        NodeType::FilterBundleLink => "FL"@,
        NodeType::BundleRoot => "BR"@,
        NodeType::BundleElement => "BE"@,
        NodeType::OrgDir => "OD"@,
    }
}

/// The node type that a persisted code stands for, if it stands for one.
pub open spec fn spec_node_type_of(code: Seq<char>) -> Option<NodeType> {
    if code == "S"@ {
        Some(NodeType::Special)
    } else if code == "FD"@ {
        Some(NodeType::FilterDir)
    } else if code == "FF"@ {
        Some(NodeType::FilterSpecFile)
    } else if code == "FL"@ {
        Some(NodeType::FilterBundleLink)
    } else if code == "BR"@ {
        Some(NodeType::BundleRoot)
    } else if code == "BE"@ {
        Some(NodeType::BundleElement)
    } else if code == "OD"@ {
        Some(NodeType::OrgDir)
    } else {
        None
    }
}

/// A persisted code that names no node type.
#[derive(Debug, Clone)]
pub struct InvalidNodeTypeError {
    got: String,
}

impl InvalidNodeTypeError {
    /// The text that was refused.
    pub closed spec fn spec_got(&self) -> Seq<char> {
        self.got@
    }

    /// The text that was refused.
    pub fn got(&self) -> (text: &str)
        ensures
            text@ == self.spec_got(),
    {
        self.got.as_str()
    }

    /// The message of this error.
    pub fn to_string(&self) -> (text: String)
        ensures
            text@ == "invalid NodeType: "@ + self.spec_got(),
    {
        let mut text = String::from_str("invalid NodeType: ");
        text.append(self.got.as_str());
        text
    }
}

impl NodeType {
    /// The code under which this node type is persisted.
    pub fn as_str(&self) -> (code: &'static str)
        ensures
            code@ == spec_node_type_code(*self),
    {
        match self {
            NodeType::Special => "S",
            NodeType::FilterDir => "FD",
            NodeType::FilterSpecFile => "FF",
            NodeType::FilterBundleLink => "FL",
            NodeType::BundleRoot => "BR",
            NodeType::BundleElement => "BE",
            NodeType::OrgDir => "OD",
        }
    }

    /// The persisted code as an owned string.
    pub fn to_string(&self) -> (code: String)
        ensures
            code@ == spec_node_type_code(*self),
    {
        String::from_str(self.as_str())
    }

    /// Reads a persisted code, and refuses one that names no node type.
    pub fn from_code(s: &str) -> (res: Result<NodeType, InvalidNodeTypeError>)
        ensures
            match spec_node_type_of(s@) {
                Some(kind) => res == Ok::<NodeType, InvalidNodeTypeError>(kind),
                None => res is Err && res->Err_0.spec_got() == s@,
            },
    {
        if str_eq(s, "S") {
            Ok(NodeType::Special)
        } else if str_eq(s, "FD") {
            Ok(NodeType::FilterDir)
        } else if str_eq(s, "FF") {
            Ok(NodeType::FilterSpecFile)
        } else if str_eq(s, "FL") {
            Ok(NodeType::FilterBundleLink)
        } else if str_eq(s, "BR") {
            Ok(NodeType::BundleRoot)
        } else if str_eq(s, "BE") {
            Ok(NodeType::BundleElement)
        } else if str_eq(s, "OD") {
            Ok(NodeType::OrgDir)
        } else {
            Err(InvalidNodeTypeError { got: String::from_str(s) })
        }
    }
}

impl core::str::FromStr for NodeType {
    type Err = InvalidNodeTypeError;

    fn from_str(s: &str) -> (res: Result<Self, Self::Err>)
        ensures
            match spec_node_type_of(s@) {
                Some(kind) => res == Ok::<NodeType, InvalidNodeTypeError>(kind),
                None => res is Err && res->Err_0.spec_got() == s@,
            },
    {
        NodeType::from_code(s)
    }
}

/// Every node type is read back from its own code.
pub proof fn lemma_node_type_round_trip(kind: NodeType)
    ensures
        spec_node_type_of(spec_node_type_code(kind)) == Some(kind),
{
    reveal_strlit("S");
    reveal_strlit("FD");
    reveal_strlit("FF");
    reveal_strlit("FL");
    reveal_strlit("BR");
    reveal_strlit("BE");
    reveal_strlit("OD");
    assert("S"@[0] == 'S' && "FD"@[0] == 'F' && "BR"@[0] == 'B' && "OD"@[0] == 'O');
    assert("FD"@[1] == 'D' && "FF"@[1] == 'F' && "FL"@[1] == 'L');
    assert("BR"@[1] == 'R' && "BE"@[1] == 'E');
}

/// A code that is read as an node type is the code of that type.
pub proof fn lemma_node_type_code_unique(code: Seq<char>, kind: NodeType)
    requires
        spec_node_type_of(code) == Some(kind),
    ensures
        spec_node_type_code(kind) == code,
{
}

} // verus!
