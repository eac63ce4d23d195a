//! Opens the handle to the GitHub Actions cache backend.

use vstd::prelude::*;

use crate::error::StartupError;
use crate::policy::{partition, partition_spec, user_agent, user_agent_spec, Partition};
use opendal::layers::{HttpClientLayer, LoggingLayer};
use opendal::raw::HttpClient;
use opendal::services::Ghac;
use opendal::Operator;

verus! {

#[verifier::external_type_specification]
#[verifier::external_body]
pub struct ExOperator(opendal::Operator);

#[verifier::external_type_specification]
#[verifier::external_body]
pub struct ExHttpClient(opendal::raw::HttpClient);

/// The HTTP transport of the backend, together with the client identifier
/// that it was built to send.
#[derive(Debug)]
pub struct Transport {
    pub client: HttpClient,
    pub agent: String,
}

/// The handle to the cache backend, together with what it was opened with:
/// the partition it works in and the client identifier of its transport.
#[derive(Debug)]
pub struct Backend {
    pub operator: Operator,
    pub partition: Partition,
    pub agent: String,
}

/// Builds a `reqwest::Client` with `reqwest::ClientBuilder`: `new`, then
/// `user_agent` with the given identifier, then `build`, and hands the client
/// to `opendal::raw::HttpClient::with`. The identifier recorded beside the
/// client is the one that was handed to `user_agent`. An identifier that is no
/// valid header value makes `build` fail, and so may the machine (its TLS
/// backend and resolver), so nothing is claimed of when the build succeeds.
#[verifier::external_body]
fn transport(agent: String) -> (built: Result<Transport, reqwest::Error>)
    ensures
        built matches Ok(transport) ==> transport.agent@ == agent@,
{
    let client = reqwest::ClientBuilder::new().user_agent(agent.as_str()).build()?;
    Ok(Transport { client: HttpClient::with(client), agent })
}

/// Configures `opendal::services::Ghac` with the partition's root and version
/// tag, opens it with `opendal::Operator::new`, and puts an `HttpClientLayer`
/// with the transport's client and the default `LoggingLayer` on it before
/// `finish`. The partition and the identifier recorded beside the handle are
/// the ones that were handed over. Endpoint and credentials come from the
/// process environment, so nothing is claimed of when the backend opens.
#[verifier::external_body]
fn ghac_operator(partition: Partition, transport: Transport) -> (opened: Result<
    Backend,
    opendal::Error,
>)
    ensures
        opened matches Ok(backend) ==> backend.partition@ == partition@ && backend.agent@
            == transport.agent@,
{
    let builder = Ghac::default().root(partition.root.as_str()).version(partition.version.as_str());
    let operator = Operator::new(builder)?
        .layer(HttpClientLayer::new(transport.client))
        .layer(LoggingLayer::default())
        .finish();
    Ok(Backend { operator, partition, agent: transport.agent })
}

/// Builds the HTTP transport that identifies the adapter to the backend by
/// the header `User-Agent: <product>/<release>`.
///
/// Whether the transport can be built is the machine's decision. Where it
/// can, it carries the adapter's identifier and no other; where it cannot, the
/// failure is `StartupError::Transport`.
pub fn set_user_agent() -> (client: Result<Transport, StartupError>)
    ensures
        client matches Ok(transport) ==> transport.agent@ == user_agent_spec(),
        client matches Err(error) ==> error is Transport,
{
    let agent = user_agent();
    let built = transport(agent);
    client_of(built)
}

/// Opens the one handle to the cache backend that the process shares.
///
/// Whether the backend opens is decided by the machine and the process
/// environment. Where it does, the handle works in the partition of the
/// namespace (the namespace as storage root, the adapter's own version tag)
/// and sends the adapter's identifier; every backend call is logged. A failure
/// here is fatal to startup.
pub fn build_ghac_operator(namespace: &str) -> (built: Result<Backend, StartupError>)
    ensures
        built matches Ok(backend) ==> backend.partition@ == partition_spec(namespace@)
            && backend.agent@ == user_agent_spec(),
{
    let partition = partition(namespace);
    let transport = match set_user_agent() {
        Ok(transport) => transport,
        Err(error) => {
            return Err(error);
        },
    };
    let opened = ghac_operator(partition, transport);
    operator_of(opened)
}

/// What startup makes of the attempt to build the HTTP transport.
///
/// A transport that was built is returned as it came. A transport that could
/// not be built is the reason why startup fails, and the error is kept as it
/// came.
pub fn client_of(built: Result<Transport, reqwest::Error>) -> (client: Result<
    Transport,
    StartupError,
>)
    ensures
        built matches Ok(transport) ==> client == Ok::<Transport, StartupError>(transport),
        built matches Err(error) ==> client == Err::<Transport, StartupError>(
            StartupError::Transport(error),
        ),
{
    match built {
        Ok(transport) => Ok(transport),
        Err(error) => Err(StartupError::from(error)),
    }
}

/// What startup makes of the attempt to open the backend.
///
/// A handle that was opened is returned as it came. A backend that refused is
/// the reason why startup fails, and the error is kept as it came.
pub fn operator_of(opened: Result<Backend, opendal::Error>) -> (built: Result<
    Backend,
    StartupError,
>)
    ensures
        opened matches Ok(backend) ==> built == Ok::<Backend, StartupError>(backend),
        opened matches Err(error) ==> built == Err::<Backend, StartupError>(
            StartupError::Backend(error),
        ),
{
    match opened {
        Ok(backend) => Ok(backend),
        Err(error) => Err(StartupError::from(error)),
    }
}

} // verus!
