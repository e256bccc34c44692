//! The check that a request comes from the bot proxy.

use crate::error::Error;
use crate::text::str_eq;
use vstd::prelude::*;

verus! {

/// Lets a request pass whose shared header is there and holds `expected`,
/// letter for letter; any other fails.
pub fn check_header(header: Option<&str>, expected: &str) -> (result: Result<(), Error>)
    ensures
        result is Ok <==> header is Some && header->0@ == expected@,
        result is Err ==> result->Err_0 is AuthFail,
{
    match header {
        Some(value) => {
            if str_eq(value, expected) {
                Ok(())
            } else {
                Err(Error::AuthFail)
            }
        },
        None => Err(Error::AuthFail),
    }
}

} // verus!
