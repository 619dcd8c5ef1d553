use vstd::prelude::*;

pub mod cors;
pub mod model;
pub mod provider;
pub mod resolver;
pub mod response;

verus! {

/// rocket::http::Status, read through its one public field `code`.
#[verifier::external_type_specification]
pub struct ExStatus(rocket::http::Status);

/// Greeting served at the root path.
pub fn index() -> (r: &'static str)
    ensures
        r@ == "Hello, world!"@,
{
    "Hello, world!"
}

/// Liveness answer: success.
pub fn health() -> (r: rocket::http::Status)
    ensures
        r.code == 200,
{
    rocket::http::Status { code: 200 }
}

} // verus!
