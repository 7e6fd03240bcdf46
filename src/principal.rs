use vstd::prelude::*;

verus! {

/// Classification of a principal.
#[derive(Debug, Clone, Copy, PartialEq, Eq, Structural)]
pub enum Type {
    Individual,
    Group,
    Resource,
    Location,
    Other,
}

impl Default for Type {
    /// A principal is classified as `Other` unless a backend says more.
    fn default() -> (r: Type)
        ensures
            r == Type::Other,
    {
        Type::Other
    }
}

/// An identity record resolved by a directory backend.
#[derive(Debug)]
pub struct Principal {
    pub id: u32,
    pub name: String,
    /// Present only where the backend can hand out a credential.
    pub secret: Option<String>,
    pub typ: Type,
    pub description: Option<String>,
    /// Mailbox quota; 0 stands for unset.
    pub quota: u32,
    /// Names of the groups the principal is a direct member of, in order.
    pub member_of: Vec<String>,
}

impl Principal {
    /// The record of a principal that nothing is known of yet.
    pub open spec fn is_blank(&self) -> bool {
        &&& self.id == 0
        &&& self.name@.len() == 0
        &&& self.secret is None
        &&& self.typ == Type::Other
        &&& self.description is None
        &&& self.quota == 0
        &&& self.member_of@.len() == 0
    }
}

impl Default for Principal {
    fn default() -> (r: Principal)
        ensures
            r.is_blank(),
    {
        Principal {
            id: 0,
            name: String::new(),
            secret: None,
            typ: Type::Other,
            description: None,
            quota: 0,
            member_of: Vec::new(),
        }
    }
}

} // verus!
