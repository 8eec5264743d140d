//! Errors of GraphQL requests.
use vstd::prelude::*;

verus! {

#[verifier::external_type_specification]
#[verifier::external_body]
pub struct ExJsonError(serde_json::Error);

#[verifier::external_type_specification]
#[verifier::external_body]
pub struct ExIoError(std::io::Error);

/// Why a GraphQL request failed: its JSON could not be read or written, or
/// reading or writing failed.
pub enum GraphQLError {
    SerdeJson(serde_json::Error),
    Io(std::io::Error),
}

impl From<serde_json::Error> for GraphQLError {
    fn from(err: serde_json::Error) -> (r: GraphQLError) {
        GraphQLError::SerdeJson(err)
    }
}

impl vstd::std_specs::convert::FromSpecImpl<serde_json::Error> for GraphQLError {
    open spec fn obeys_from_spec() -> bool {
        true
    }

    open spec fn from_spec(v: serde_json::Error) -> GraphQLError {
        GraphQLError::SerdeJson(v)
    }
}

impl From<std::io::Error> for GraphQLError {
    fn from(err: std::io::Error) -> (r: GraphQLError) {
        GraphQLError::Io(err)
    }
}

impl vstd::std_specs::convert::FromSpecImpl<std::io::Error> for GraphQLError {
    open spec fn obeys_from_spec() -> bool {
        true
    }

    open spec fn from_spec(v: std::io::Error) -> GraphQLError {
        GraphQLError::Io(v)
    }
}

} // verus!
