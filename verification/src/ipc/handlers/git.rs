//! Requests on the repository.

use crate::ipc::protocol::IPCResponse;
use vstd::prelude::*;

verus! {

/// The answer to a question for the state of the working tree.
pub fn handle_git_status(id: &str, outcome: Result<String, String>) -> (r: Result<
    IPCResponse,
    String,
>)
    ensures
        match outcome {
            Ok(output) => r matches Ok(a) && (
                a matches IPCResponse::GitResult { id: i, output: o }
                    && i@ == id@ && o == output),
            Err(e) => r == Err::<IPCResponse, String>(e),
        },
{
    match outcome {
        Ok(output) => Ok(IPCResponse::GitResult { id: id.to_owned(), output }),
        Err(e) => Err(e),
    }
}

/// The answer to a question for the last commits.
pub fn handle_git_log(id: &str, outcome: Result<String, String>) -> (r: Result<
    IPCResponse,
    String,
>)
    ensures
        match outcome {
            Ok(output) => r matches Ok(a) && (
                a matches IPCResponse::GitResult { id: i, output: o }
                    && i@ == id@ && o == output),
            Err(e) => r == Err::<IPCResponse, String>(e),
        },
{
    match outcome {
        Ok(output) => Ok(IPCResponse::GitResult { id: id.to_owned(), output }),
        Err(e) => Err(e),
    }
}

/// The answer to a question for what has changed.
pub fn handle_git_diff(id: &str, outcome: Result<String, String>) -> (r: Result<
    IPCResponse,
    String,
>)
    ensures
        match outcome {
            Ok(output) => r matches Ok(a) && (
                a matches IPCResponse::GitResult { id: i, output: o }
                    && i@ == id@ && o == output),
            Err(e) => r == Err::<IPCResponse, String>(e),
        },
{
    match outcome {
        Ok(output) => Ok(IPCResponse::GitResult { id: id.to_owned(), output }),
        Err(e) => Err(e),
    }
}

/// The answer to a question for the branches.
pub fn handle_git_branch(id: &str, outcome: Result<String, String>) -> (r: Result<
    IPCResponse,
    String,
>)
    ensures
        match outcome {
            Ok(output) => r matches Ok(a) && (
                a matches IPCResponse::GitResult { id: i, output: o }
                    && i@ == id@ && o == output),
            Err(e) => r == Err::<IPCResponse, String>(e),
        },
{
    match outcome {
        Ok(output) => Ok(IPCResponse::GitResult { id: id.to_owned(), output }),
        Err(e) => Err(e),
    }
}

/// The answer to a commit.
pub fn handle_git_commit(id: &str, outcome: Result<String, String>) -> (r: Result<
    IPCResponse,
    String,
>)
    ensures
        match outcome {
            Ok(output) => r matches Ok(a) && (
                a matches IPCResponse::GitResult { id: i, output: o }
                    && i@ == id@ && o == output),
            Err(e) => r == Err::<IPCResponse, String>(e),
        },
{
    match outcome {
        Ok(output) => Ok(IPCResponse::GitResult { id: id.to_owned(), output }),
        Err(e) => Err(e),
    }
}

} // verus!
