//! Identifiers that travel in headers: lease ids and request ids.

use vstd::prelude::*;
use vstd::string::*;
use crate::text::{is_identifier, is_identifier_text};

verus! {

/// An opaque token that names something on the service side. It is never
/// empty and holds only printable ASCII without spaces, so it can stand in a
/// header as it is.
#[derive(Debug, PartialEq, Eq, Hash)]
pub struct Identifier {
    token: String,
}

/// The identifier of a lease.
pub type LeaseId = Identifier;

/// The identifier that the service gives to a request.
pub type RequestId = Identifier;

impl View for Identifier {
    type V = Seq<char>;

    closed spec fn view(&self) -> Seq<char> {
        self.token@
    }
}

impl Clone for Identifier {
    fn clone(&self) -> (copy: Self)
        ensures
            copy@ == self@,
    {
        proof {
            use_type_invariant(self);
        }
        Identifier { token: self.token.clone() }
    }
}

impl Identifier {
    #[verifier::type_invariant]
    spec fn well_formed(self) -> bool {
        is_identifier(self.token@)
    }

    /// Reads an identifier; `None` if `text` is empty or holds anything but
    /// printable ASCII without spaces.
    pub fn parse(text: &str) -> (id: Option<Identifier>)
        ensures
            id is Some <==> is_identifier(text@),
            id matches Some(i) ==> i@ == text@,
    {
        if is_identifier_text(text) {
            Some(Identifier { token: String::from_str(text) })
        } else {
            None
        }
    }

    /// The identifier as text.
    pub fn as_str(&self) -> (text: &str)
        ensures
            text@ == self@,
            is_identifier(self@),
    {
        proof {
            use_type_invariant(self);
        }
        self.token.as_str()
    }
}

} // verus!
