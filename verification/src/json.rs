//! The JSON document wrapper of the HTTP surface.
//!
//! Every inbound and outward document travels as JSON; the wrapper marks a
//! value as one such document. Encoding and decoding are the business of the
//! program around this crate.

use vstd::prelude::*;

verus! {

/// A value carried as the JSON body of a request or response.
#[derive(Clone, Debug)]
pub struct AppJson<T>(pub T);

} // verus!
