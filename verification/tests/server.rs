use zt_tunnel::server::{format_decimal, TcpServer};

#[test]
fn address_joins_host_and_port() {
    let s = TcpServer::new("127.0.0.1", 8080);
    assert_eq!(s.address(), "127.0.0.1:8080");
}

#[test]
fn address_edge_ports() {
    assert_eq!(TcpServer::new("localhost", 0).address(), "localhost:0");
    assert_eq!(TcpServer::new("localhost", 65535).address(), "localhost:65535");
    assert_eq!(TcpServer::new("::1", 7).address(), "::1:7");
}

#[test]
fn decimal_formatting() {
    assert_eq!(format_decimal(0), "0");
    assert_eq!(format_decimal(9), "9");
    assert_eq!(format_decimal(10), "10");
    assert_eq!(format_decimal(8080), "8080");
    assert_eq!(format_decimal(65535), "65535");
}
