use vstd::prelude::*;
use vstd::string::*;

verus! {

/// The kind of session a connection was opened for.
#[derive(Clone, Copy, Debug, PartialEq, Eq, Structural)]
pub enum ConnectionType {
    Upload,
}

impl ConnectionType {
    /// The text that names the kind.
    pub open spec fn label(self) -> Seq<char> {
        match self {
            ConnectionType::Upload => "Upload"@,
        }
    }

    /// The kind's name as text, as it is shown to a reader.
    pub fn name(&self) -> (text: String)
        ensures
            text@ == self.label(),
    {
        match self {
            ConnectionType::Upload => String::from_str("Upload"),
        }
    }
}

} // verus!
