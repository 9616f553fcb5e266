use vstd::prelude::*;

verus! {

/// The operations of the backend's transit engine that the service uses.
#[derive(Debug, Clone, Copy, PartialEq, Eq, Structural)]
pub enum TransitPath {
    Encrypt,
    Decrypt,
    Keys,
}

impl TransitPath {
    /// The segment of the backend's URL that stands for the operation.
    pub open spec fn segment(self) -> Seq<char> {
        match self {
            TransitPath::Encrypt => "encrypt"@,
            TransitPath::Decrypt => "decrypt"@,
            TransitPath::Keys => "keys"@,
        }
    }

    /// Returns the segment of the backend's URL that stands for the operation.
    pub fn to_string(&self) -> (result: String)
        ensures
            result@ == self.segment(),
    {
        match self {
            TransitPath::Encrypt => "encrypt".to_owned(),
            TransitPath::Decrypt => "decrypt".to_owned(),
            TransitPath::Keys => "keys".to_owned(),
        }
    }
}

} // verus!
