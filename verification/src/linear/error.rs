//! Errors of the Linear client.
use vstd::prelude::*;
use crate::errors::ConfigError;
use crate::graphql::error::GraphQLError;

verus! {

pub enum LinearClientError {
    InvalidConfig(ConfigError),
    GraphQL(GraphQLError),
}

} // verus!
