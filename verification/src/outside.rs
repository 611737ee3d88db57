//! Outside types that the library carries without looking inside.

use vstd::prelude::*;

verus! {

/// `std::io::Error`, carried by the frame errors that an I/O step produced.
#[verifier::external_type_specification]
#[verifier::external_body]
pub struct ExIoError(std::io::Error);

} // verus!
