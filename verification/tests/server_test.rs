use embedded_recruitment_task::address::reads_as_socket_address;
use embedded_recruitment_task::logging::{
    init, init_client, init_server, init_test, Component, Level, LOG_DIRECTORY,
};
use embedded_recruitment_task::server::server::{
    conclude, ServeEnd, INVALID_ADDRESS, MISSING_ADDRESS,
};
use embedded_recruitment_task::status::{Code, Status};
use embedded_recruitment_task::{GrpcClientBuilder, GrpcServer, GrpcServerBuilder};

#[test]
fn builder_without_address_fails() {
    let err = GrpcServer::builder().build().unwrap_err();
    assert_eq!(err.code(), Code::InvalidArgument);
    assert_eq!(err.message(), "Server address must be provided");
    assert_eq!(err.message(), MISSING_ADDRESS);

    let err = GrpcServerBuilder::new().build().unwrap_err();
    assert_eq!(err.code(), Code::InvalidArgument);

    let err = GrpcServerBuilder::default().build().unwrap_err();
    assert_eq!(err.code(), Code::InvalidArgument);
}

#[test]
fn builder_keeps_the_address() {
    let (server, _shutdown) = GrpcServer::builder().address("[::1]:12345").build().unwrap();
    assert_eq!(server.addr(), "[::1]:12345");
    let (addr, _receiver) = server.into_parts();
    assert_eq!(addr, "[::1]:12345");
}

#[test]
fn later_address_replaces_earlier() {
    let (server, _shutdown) = GrpcServerBuilder::new()
        .address("127.0.0.1:1")
        .address("[::1]:50000")
        .build()
        .unwrap();
    assert_eq!(server.addr(), "[::1]:50000");
}

#[test]
fn shutdown_sender_reaches_the_server() {
    let (server, shutdown) = GrpcServer::builder().address("[::1]:50001").build().unwrap();
    let (_addr, mut receiver) = server.into_parts();
    assert!(receiver.try_recv().is_err());
    assert!(shutdown.send(()).is_ok());
    assert!(receiver.try_recv().is_ok());
}

#[test]
fn shutdown_sent_before_serving_is_kept() {
    let (server, shutdown) = GrpcServer::builder().address("[::1]:50002").build().unwrap();
    assert!(shutdown.send(()).is_ok());
    let (_addr, receiver) = server.into_parts();
    assert!(receiver.blocking_recv().is_ok());
}

#[test]
fn two_servers_have_channels_of_their_own() {
    let (first, first_shutdown) = GrpcServer::builder().address("[::1]:50003").build().unwrap();
    let (second, _second_shutdown) = GrpcServer::builder().address("[::1]:50004").build().unwrap();
    assert!(first_shutdown.send(()).is_ok());
    let (_a, mut first_receiver) = first.into_parts();
    let (_b, mut second_receiver) = second.into_parts();
    assert!(first_receiver.try_recv().is_ok());
    assert!(second_receiver.try_recv().is_err());
}

#[test]
fn serving_ends_are_reported() {
    assert!(conclude(ServeEnd::ShutDown).is_ok());

    let err = conclude(ServeEnd::AddressRejected).unwrap_err();
    assert_eq!(err.code(), Code::InvalidArgument);
    assert_eq!(err.message(), "invalid server address format");
    assert_eq!(err.message(), INVALID_ADDRESS);

    let err = conclude(ServeEnd::LoggingFailed("disk full".to_string())).unwrap_err();
    assert_eq!(err.code(), Code::Internal);
    assert_eq!(err.message(), "Failed to initialize logging: disk full");

    let err = conclude(ServeEnd::TransportFailed("address in use".to_string())).unwrap_err();
    assert_eq!(err.code(), Code::Internal);
    assert_eq!(err.message(), "server error: address in use");

    let status = Status::prefixed(Code::Unknown, "a: ", "b");
    assert_eq!(status.code(), Code::Unknown);
    assert_eq!(status.message(), "a: b");
}

#[test]
fn client_builder_reads_the_address() {
    assert!(GrpcClientBuilder::new("http://[::1]:50051").is_ok());
    assert!(GrpcClientBuilder::new("http://127.0.0.1:12345").is_ok());
    assert!(GrpcClientBuilder::new("https://example.com").is_ok());
}

#[test]
fn client_builder_refuses_what_is_no_uri() {
    for addr in ["", "http://exa mple.com", "http://[::1", "\u{7f}"] {
        let err = GrpcClientBuilder::new(addr).unwrap_err();
        assert_eq!(err.code(), Code::Internal, "{:?}", addr);
        assert_eq!(err.message(), "invalid URI", "{:?}", addr);
    }
}

#[test]
fn client_builder_hands_out_its_endpoint() {
    let endpoint = GrpcClientBuilder::new("http://[::1]:50051").unwrap().into_endpoint();
    assert_eq!(endpoint.uri().to_string(), "http://[::1]:50051/");

    let refused = GrpcClientBuilder::from_endpoint(Err("no".to_string())).unwrap_err();
    assert_eq!(refused.code(), Code::Internal);
    assert_eq!(refused.message(), "no");
}

#[test]
fn log_settings_of_each_component() {
    let server = init_server();
    assert_eq!(server.directory, "logs");
    assert_eq!(server.directory, LOG_DIRECTORY);
    assert_eq!(server.file_prefix, "server");
    assert_eq!(server.level, Level::Info);
    assert!(!server.ansi);
    assert!(!server.with_target);

    let client = init_client();
    assert_eq!(client.file_prefix, "client");
    assert_eq!(client.level, Level::Info);

    let test = init_test();
    assert_eq!(test.file_prefix, "test");
    assert_eq!(test.level, Level::Trace);

    for component in [Component::Server, Component::Client, Component::Test] {
        let settings = init(component);
        let (name, level) = component.config();
        assert_eq!(settings.file_prefix, name);
        assert_eq!(settings.level, level);
        assert_eq!(settings.directory, "logs");
    }
    assert_eq!(Component::Server.config(), ("server", Level::Info));
    assert_eq!(Component::Client.config(), ("client", Level::Info));
    assert_eq!(Component::Test.config(), ("test", Level::Trace));
}

const SOCKET_ADDRESSES: [&str; 24] = [
    "127.0.0.1:8080",
    "0.0.0.0:0",
    "255.255.255.255:65535",
    "1.2.3.4:00080",
    "10.20.30.40:1",
    "[::1]:12345",
    "[::]:0",
    "[1:2:3:4:5:6:7:8]:80",
    "[0000:0000:0000:0000:0000:0000:0000:0001]:80",
    "[ABCD:ef01::]:1",
    "[1::]:80",
    "[1:2:3:4:5:6:7::]:80",
    "[::2:3:4:5:6:7:8]:80",
    "[1:2::7:8]:80",
    "[::ffff:1.2.3.4]:80",
    "[::1.2.3.4]:80",
    "[1:2:3:4:5:6:1.2.3.4]:80",
    "[::1:2:3:4:5:1.2.3.4]:80",
    "[64:ff9b::192.0.2.33]:443",
    "[fe80::1%3]:80",
    "[::1%0]:80",
    "[::1%4294967295]:80",
    "[::1]:65535",
    "[::1]:0000000000000000000080",
];

const NO_SOCKET_ADDRESSES: [&str; 52] = [
    "",
    "not an address",
    "localhost:80",
    "example.com:80",
    "127.0.0.1",
    "127.0.0.1:",
    ":80",
    "127.0.0.1:65536",
    "127.0.0.1:-1",
    "127.0.0.1:+1",
    "127.0.0.1:8o",
    "256.0.0.1:80",
    "1.2.3.256:80",
    "01.2.3.4:80",
    "1.2.3.04:80",
    "1.2.3.0004:80",
    "1.2.3:80",
    "1.2.3.4.5:80",
    "1..3.4:80",
    "1.2.3.4:80 ",
    " 1.2.3.4:80",
    "1.2.3.4:80\n",
    "1.2.3.4 :80",
    "1.2.3.4:80x",
    "\u{FF11}.2.3.4:80",
    "http://127.0.0.1:80",
    "http://[::1]:80",
    "::1:80",
    "[::1]",
    "[::1]:",
    "[::1]80",
    "[::1:80",
    "::1]:80",
    "[]:80",
    "[:]:80",
    "[:::]:80",
    "[::1]:65536",
    "[::1]:80x",
    "[::1]x:80",
    "[1:2:3:4:5:6:7]:80",
    "[1:2:3:4:5:6:7:8:9]:80",
    "[1:2:3:4:5:6:7:8::]:80",
    "[1::2::3]:80",
    "[12345::]:80",
    "[g::]:80",
    "[1:2:]:80",
    "[:1:2::]:80",
    "[1.2.3.4::]:80",
    "[::1.2.3.4:5]:80",
    "[1:2:3:4:5:6:7:1.2.3.4]:80",
    "[::1%]:80",
    "[::1%4294967296]:80",
];

#[test]
fn socket_addresses_are_read() {
    for addr in SOCKET_ADDRESSES {
        assert!(reads_as_socket_address(addr), "{:?}", addr);
    }
}

#[test]
fn other_texts_are_no_socket_addresses() {
    for addr in NO_SOCKET_ADDRESSES {
        assert!(!reads_as_socket_address(addr), "{:?}", addr);
    }
}

#[test]
fn malformed_address_fails_at_build() {
    let err = GrpcServerBuilder::new().address("not an address").build().unwrap_err();
    assert_eq!(err.code(), Code::InvalidArgument);
    assert_eq!(err.message(), "invalid server address format");
    assert_eq!(err.message(), INVALID_ADDRESS);

    for addr in NO_SOCKET_ADDRESSES {
        let err = GrpcServer::builder().address(addr).build().unwrap_err();
        assert_eq!(err.code(), Code::InvalidArgument, "{:?}", addr);
        assert_eq!(err.message(), INVALID_ADDRESS, "{:?}", addr);
    }
}

#[test]
fn well_formed_address_builds() {
    for addr in SOCKET_ADDRESSES {
        let (server, _shutdown) = GrpcServer::builder().address(addr).build().unwrap();
        assert_eq!(server.addr(), addr);
    }
}

#[test]
fn assembled_server_keeps_the_receiver_it_was_given() {
    let (sender, receiver) = tokio::sync::oneshot::channel::<()>();
    let (_other_sender, mut other_receiver) = tokio::sync::oneshot::channel::<()>();
    let (server, returned) =
        GrpcServer::assemble("[::1]:50010".to_string(), (sender, receiver)).unwrap();
    assert_eq!(server.addr(), "[::1]:50010");
    assert!(returned.send(()).is_ok());
    let (addr, mut held) = server.into_parts();
    assert_eq!(addr, "[::1]:50010");
    assert!(held.try_recv().is_ok());
    assert!(other_receiver.try_recv().is_err());
}

#[test]
fn assemble_refuses_what_is_no_socket_address() {
    let halves = tokio::sync::oneshot::channel::<()>();
    let err = GrpcServer::assemble("localhost:80".to_string(), halves).unwrap_err();
    assert_eq!(err.code(), Code::InvalidArgument);
    assert_eq!(err.message(), INVALID_ADDRESS);
}
