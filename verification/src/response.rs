//! The payload-free answer the remote service sometimes returns.

use crate::request::LanguageCode;
use vstd::prelude::*;

verus! {

/// A syntactically valid answer that carries no scores: only the
/// languages the service detected and the echoed client token.
#[derive(Clone, Debug, PartialEq, Eq)]
pub struct EmptyApiResponse {
    pub languages: Vec<LanguageCode>,
    pub client_token: Option<String>,
}

} // verus!
