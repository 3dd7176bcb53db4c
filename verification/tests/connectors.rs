use io_tether::fs::FileConnector;
use io_tether::tcp::TcpConnector;
use io_tether::unix::UnixConnector;

#[test]
fn tcp_address_can_be_changed() {
    let mut connector = TcpConnector::new("localhost:8080".to_string());
    assert_eq!(connector.get_addr(), "localhost:8080");
    *connector.get_addr_mut() = "localhost:8082".to_string();
    assert_eq!(connector.get_addr(), "localhost:8082");
    assert_eq!(connector, TcpConnector::new("localhost:8082".to_string()));
}

#[test]
fn unix_path_can_be_changed() {
    let mut connector = UnixConnector::new("/run/a.sock");
    assert_eq!(*connector.get_path(), "/run/a.sock");
    *connector.get_path_mut() = "/run/b.sock";
    assert_eq!(*connector.get_path(), "/run/b.sock");
}

/// The flags of a connector's options, by name.
fn flags(connector: &FileConnector<&str>) -> Vec<&'static str> {
    let shown = format!("{:?}", connector.options);
    let mut on = Vec::new();
    for name in ["read", "write", "append", "truncate", "create", "create_new"] {
        if shown.contains(&format!(" {}: true", name)) {
            on.push(name);
        } else {
            assert!(shown.contains(&format!(" {}: false", name)));
        }
    }
    on
}

#[test]
fn open_only_reads() {
    let connector = FileConnector::open("notes.txt");
    assert_eq!(connector.path, "notes.txt");
    assert_eq!(flags(&connector), ["read"]);
}

#[test]
fn create_writes_from_scratch() {
    let connector = FileConnector::create("notes.txt");
    assert_eq!(connector.path, "notes.txt");
    assert_eq!(flags(&connector), ["write", "truncate", "create"]);
}

#[test]
fn create_new_reads_and_writes_a_new_file() {
    let connector = FileConnector::create_new("notes.txt");
    assert_eq!(connector.path, "notes.txt");
    assert_eq!(flags(&connector), ["read", "write", "create_new"]);
}
