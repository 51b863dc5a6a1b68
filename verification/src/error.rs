//! Why a request was turned down.

use crate::amounts::{Amounts, Resource};
use vstd::prelude::*;
use vstd::string::StringExecFns;

verus! {

/// The one way in which admission fails: the pool holds too little of the
/// resource that the variant names.
#[derive(Debug, PartialEq, Eq)]
pub enum ResourceError {
    NotEnoughResources(String),
}

impl ResourceError {
    /// The error carries exactly the name of `r`.
    pub open spec fn names(self, r: Resource) -> bool {
        match self {
            ResourceError::NotEnoughResources(name) => name@ == r.name(),
        }
    }

    /// The error names a resource of which `want` asks for something.
    pub open spec fn names_some_of(self, want: Amounts) -> bool {
        ||| self.names(Resource::Memory) && want.mem > 0
        ||| self.names(Resource::Cpus) && want.cpus > 0
        ||| self.names(Resource::Gpus) && want.gpus > 0
    }

    /// The text of the error as shown to a person.
    pub open spec fn text(self) -> Seq<char> {
        match self {
            ResourceError::NotEnoughResources(name) => "not enough resources: "@ + name@,
        }
    }

    /// Renders the error: a fixed prefix followed by the resource's name.
    pub fn message(&self) -> (msg: String)
        ensures
            msg@ == self.text(),
    {
        match self {
            ResourceError::NotEnoughResources(name) => {
                String::from_str("not enough resources: ").concat(name.as_str())
            },
        }
    }
}

} // verus!
