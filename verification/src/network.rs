//! What the answers of GitHub's GraphQL endpoint become.
use vstd::prelude::*;

use crate::error::Error;

verus! {

/// The data of a GraphQL response, or its errors when it has any: a
/// response with errors is an error, whatever data came with them.
pub fn response_to_result<Data>(data: Option<Data>, errors: Option<Vec<String>>) -> (r: Result<Option<Data>, Error>)
    ensures
        match errors {
            Some(messages) => r matches Err(Error::Graphql(m)) && m@ == messages@,
            None => r matches Ok(d) && d == data,
        },
{
    if let Some(messages) = errors {
        return Err(Error::Graphql(messages));
    }
    Ok(data)
}

} // verus!
