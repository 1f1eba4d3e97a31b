//! Validators: the authorized signer identities of the proof-of-authority
//! network, and the role labels consumed from the identity collaborator.

use vstd::prelude::*;

verus! {

/// Descriptive label a user of the identity/authorization collaborator
/// carries; it has no behavioral effect inside the ledger core.
#[derive(Clone, Copy, Debug, PartialEq, Eq, Structural)]
pub enum Role {
    Admin,
    Manager,
    Employee,
    Supplier,
    Distributor,
    Retailer,
}

/// The canonical upper-case name of a role.
pub open spec fn role_name(role: Role) -> Seq<char> {
    match role {
        Role::Admin => "ADMIN"@,
        Role::Manager => "MANAGER"@,
        Role::Employee => "EMPLOYEE"@,
        Role::Supplier => "SUPPLIER"@,
        Role::Distributor => "DISTRIBUTOR"@,
        Role::Retailer => "RETAILER"@,
    }
}

impl Role {
    /// The canonical upper-case name of this role.
    pub fn to_string(&self) -> (r: String)
        ensures
            r@ == role_name(*self),
    {
        match self {
            Role::Admin => String::from_str("ADMIN"),
            Role::Manager => String::from_str("MANAGER"),
            Role::Employee => String::from_str("EMPLOYEE"),
            Role::Supplier => String::from_str("SUPPLIER"),
            Role::Distributor => String::from_str("DISTRIBUTOR"),
            Role::Retailer => String::from_str("RETAILER"),
        }
    }
}

/// An authorized validator of the proof-of-authority network.
pub struct Validator {
    /// Unique authority key, in the same namespace as transaction authors.
    pub gln: String,
    /// Declared verification material; not exercised by the tag scheme.
    pub public_key: String,
    /// Inactive validators are excluded from rotation and authorship.
    pub active: bool,
    /// Descriptive label with no behavioral effect in the core.
    pub role: String,
}

impl Validator {
    /// An equal validator record.
    pub fn duplicate(&self) -> (r: Validator)
        ensures
            r == *self,
    {
        Validator {
            gln: self.gln.clone(),
            public_key: self.public_key.clone(),
            active: self.active,
            role: self.role.clone(),
        }
    }
}

} // verus!
