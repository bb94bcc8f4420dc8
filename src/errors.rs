//! Errors of address resolution and of credential retrieval.
use vstd::prelude::*;
use vstd::string::to_string_from_display_ensures;

verus! {

/// An error that might happen when resolving an address.
#[derive(Debug)]
pub enum AddressError {
    ResolvError { addr: String, err: std::io::Error },
    NoAddrError(String),
}

pub open spec fn resolv_message(addr: Seq<char>, cause: Seq<char>) -> Seq<char> {
    "Failed to resolve address "@ + addr + ": "@ + cause
}

pub open spec fn no_addr_message(addr: Seq<char>) -> Seq<char> {
    "No address found for "@ + addr
}

/// The message of a failed resolution of `addr`, given the text of its cause.
pub fn resolv_error_message(addr: &str, cause: &str) -> (r: String)
    ensures
        r@ == resolv_message(addr@, cause@),
{
    let mut r = "Failed to resolve address ".to_owned();
    r.push_str(addr);
    r.push_str(": ");
    r.push_str(cause);
    proof {
        reveal_strlit("Failed to resolve address ");
        reveal_strlit(": ");
        assert(r@ =~= resolv_message(addr@, cause@));
    }
    r
}

/// The message when no address was found for `addr`.
pub fn no_addr_error_message(addr: &str) -> (r: String)
    ensures
        r@ == no_addr_message(addr@),
{
    let mut r = "No address found for ".to_owned();
    r.push_str(addr);
    proof {
        reveal_strlit("No address found for ");
    }
    r
}

impl AddressError {
    /// The error in words.
    pub fn message(&self) -> (r: String)
        ensures
            match self {
                AddressError::ResolvError { addr, err } => exists|t: String|
                    to_string_from_display_ensures::<std::io::Error>(err, t)
                        && r@ == resolv_message(addr@, t@),
                AddressError::NoAddrError(addr) => r@ == no_addr_message(addr@),
            },
    {
        match self {
            AddressError::ResolvError { addr, err } => {
                let t = err.to_string();
                resolv_error_message(addr.as_str(), t.as_str())
            },
            AddressError::NoAddrError(addr) => no_addr_error_message(addr.as_str()),
        }
    }
}

/// Failure to obtain what talking to the node needs.
#[derive(Debug)]
pub enum Error {
    /// The node's credential could not be obtained; `cause` is the failure
    /// underneath.
    Connection { message: String, cause: std::io::Error },
}

} // verus!
