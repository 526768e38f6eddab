use supreme_server::connectivity::is_client_connected;
use supreme_server::connectivity::local_probe_address;

const TABLE_WITH_CLIENT: &str = "Active Internet connections (servers and established)\n\
Proto Recv-Q Send-Q Local Address           Foreign Address         State\n\
tcp        0      0 192.168.9.1:5000        192.168.9.5:51234       ESTABLISHED\n\
tcp        0      0 0.0.0.0:8000            0.0.0.0:*               LISTEN\n";

#[test]
fn established_client_line_is_found() {
    assert!(is_client_connected(TABLE_WITH_CLIENT, "192.168.9.1", 5000));
}

#[test]
fn listening_socket_alone_is_no_client() {
    let table = "Proto Recv-Q Send-Q Local Address Foreign Address State\n\
tcp        0      0 192.168.9.1:5000        0.0.0.0:*               LISTEN\n";
    assert!(!is_client_connected(table, "192.168.9.1", 5000));
}

#[test]
fn markers_on_different_lines_do_not_count() {
    // the port appears on one line and ESTABLISHED on another
    let table = "tcp 0 0 192.168.9.1:5000 0.0.0.0:* LISTEN\n\
tcp 0 0 192.168.9.1:8000 192.168.9.5:50000 ESTABLISHED\n";
    assert!(!is_client_connected(table, "192.168.9.1", 5000));
}

#[test]
fn other_port_or_other_address_is_no_match() {
    assert!(!is_client_connected(TABLE_WITH_CLIENT, "192.168.9.1", 8000));
    assert!(!is_client_connected(TABLE_WITH_CLIENT, "10.0.0.1", 5000));
}

#[test]
fn port_match_needs_the_trailing_space() {
    // port 500 must not match the ":5000 " of the established line
    assert!(!is_client_connected(TABLE_WITH_CLIENT, "192.168.9.1", 500));
}

#[test]
fn empty_table_shows_no_client() {
    assert!(!is_client_connected("", "192.168.9.1", 5000));
}

#[test]
fn table_without_final_newline_still_scans() {
    let table = "tcp 0 0 192.168.9.1:5000 192.168.9.5:51234 ESTABLISHED";
    assert!(is_client_connected(table, "192.168.9.1", 5000));
}

#[test]
fn probe_address_names_the_local_port() {
    assert_eq!(local_probe_address(5000).as_str(), "localhost:5000");
    assert_eq!(local_probe_address(80).as_str(), "localhost:80");
}
