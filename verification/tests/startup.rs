use ccache_ghac_adapter::error::StartupError;
use ccache_ghac_adapter::ghac::{
    build_ghac_operator, client_of, operator_of, set_user_agent, Backend, Transport,
};
use ccache_ghac_adapter::policy::{partition, user_agent, version_tag};

fn runtime() -> tokio::runtime::Runtime {
    tokio::runtime::Builder::new_current_thread().enable_all().build().expect("runtime")
}

fn memory_handle() -> opendal::Operator {
    opendal::Operator::new(opendal::services::Memory::default()).expect("memory backend").finish()
}

#[test]
fn the_transport_can_be_built() {
    assert!(set_user_agent().is_ok());
}

#[test]
fn the_transport_records_the_identifier() {
    let transport = set_user_agent().expect("transport");
    assert_eq!(transport.agent, "ccache-ghac-adapter/0.1.0");
    assert_eq!(transport.agent, user_agent());
}

#[test]
fn the_transport_never_fails_as_a_backend() {
    if let Err(error) = set_user_agent() {
        assert!(matches!(error, StartupError::Transport(_)));
    }
}

#[test]
fn the_backend_opens_or_says_that_its_configuration_is_invalid() {
    match build_ghac_operator("tests") {
        Ok(backend) => {
            assert_eq!(backend.partition, partition("tests"));
            assert_eq!(backend.partition.root, "tests");
            assert_eq!(backend.partition.version, version_tag());
            assert_eq!(backend.agent, "ccache-ghac-adapter/0.1.0");
            assert_eq!(backend.operator.info().root(), "/tests/");
        }
        Err(StartupError::Backend(error)) => {
            assert_eq!(error.kind(), opendal::ErrorKind::ConfigInvalid);
        }
        Err(other) => panic!("unexpected {:?}", other),
    }
}

#[test]
fn the_backend_answers_the_same_for_the_empty_namespace() {
    match build_ghac_operator("") {
        Ok(backend) => {
            assert_eq!(backend.partition.root, "");
            assert_eq!(backend.partition.version, "ccache-ghac-adapter-v0.1.0");
            assert_eq!(backend.operator.info().root(), "/");
        }
        Err(StartupError::Backend(error)) => {
            assert_eq!(error.kind(), opendal::ErrorKind::ConfigInvalid);
        }
        Err(other) => panic!("unexpected {:?}", other),
    }
}

#[test]
fn a_built_transport_is_returned_as_it_came() {
    let client = reqwest::ClientBuilder::new().user_agent("probe/1.0").build().expect("client");
    let built = Transport {
        client: opendal::raw::HttpClient::with(client),
        agent: "probe/1.0".to_string(),
    };
    let transport = client_of(Ok(built)).expect("a built transport stays built");
    assert_eq!(transport.agent, "probe/1.0");
}

#[test]
fn a_failed_transport_is_kept_as_the_reason() {
    let error = reqwest::ClientBuilder::new()
        .user_agent("two\nlines")
        .build()
        .expect_err("no header value holds a line break");
    let text = error.to_string();
    match client_of(Err(error)) {
        Err(StartupError::Transport(error)) => assert_eq!(error.to_string(), text),
        other => panic!("unexpected {:?}", other),
    }
}

#[test]
fn an_opened_handle_is_returned_as_it_came() {
    let handle = memory_handle();
    let opened = Backend {
        operator: handle.clone(),
        partition: partition("left"),
        agent: user_agent(),
    };
    let backend = operator_of(Ok(opened)).expect("an opened handle stays opened");
    assert_eq!(backend.partition, partition("left"));
    assert_eq!(backend.agent, user_agent());
    assert_eq!(backend.operator.info().scheme(), handle.info().scheme());
    runtime().block_on(async {
        handle.write("k", vec![7u8, 8, 9]).await.expect("write");
        let read = backend.operator.read("k").await.expect("read").to_vec();
        assert_eq!(read, vec![7u8, 8, 9]);
    });
}

#[test]
fn a_refusing_backend_is_kept_as_the_reason() {
    let error = opendal::Error::new(opendal::ErrorKind::ConfigInvalid, "no endpoint");
    let text = error.to_string();
    match operator_of(Err(error)) {
        Err(StartupError::Backend(error)) => {
            assert_eq!(error.kind(), opendal::ErrorKind::ConfigInvalid);
            assert_eq!(error.to_string(), text);
        }
        other => panic!("unexpected {:?}", other),
    }
}
