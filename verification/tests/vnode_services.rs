use aetheros_kernel::ipc::dns_ipc::DnsResponse;
use aetheros_kernel::ipc::file_manager_ipc::{FileManagerRequest, FileManagerResponse};
use aetheros_kernel::ipc::net_ipc::{NetStackRequest, NetStackResponse};
use aetheros_kernel::ipc::socket_ipc::{SocketRequest, SocketResponse};
use aetheros_kernel::ipc::vfs_ipc::{VfsMetadata, VfsRequest, VfsResponse};
use aetheros_kernel::vnodes::aethernet_device::AetherNetDevice;
use aetheros_kernel::vnodes::dns_resolver::{ticks_to_ms, DnsResolver};
use aetheros_kernel::vnodes::file_manager::{FileManagerService, FileManagerStep};
use aetheros_kernel::vnodes::net_bridge::{classify_rx_poll, irq_registered, RxPollOutcome};
use aetheros_kernel::vnodes::net_stack::{recv_reply, tcp_send_reply, undecodable_reply, NetStackAction, NetStackTable};
use aetheros_kernel::vnodes::socket_api::{map_socket_type, PendingSocketOp, SocketApi, SocketStep};
use aetheros_kernel::vnodes::vfs::VfsService;

fn open(vfs: &mut VfsService, path: &str) -> u32 {
    match vfs.handle_request(VfsRequest::Open { path: path.to_string(), flags: 0 }) {
        VfsResponse::Success(fd) => fd as u32,
        other => panic!("open failed: {:?}", other),
    }
}

fn is_bad_fd(r: &VfsResponse) -> bool {
    matches!(r, VfsResponse::Error { code: 9, message } if message == "Bad file descriptor")
}

#[test]
fn vfs_open_hands_out_increasing_descriptors() {
    let mut vfs = VfsService::new(7, 6);
    assert_eq!(vfs.client_chan.id, 7);
    assert_eq!(vfs.aetherfs_chan.id, 6);
    assert_eq!(open(&mut vfs, "/etc/a"), 1);
    assert_eq!(open(&mut vfs, "/etc/b"), 2);
    assert_eq!(open(&mut vfs, "/etc/a"), 3);
}

#[test]
fn vfs_read_returns_generated_bytes() {
    let mut vfs = VfsService::new(7, 6);
    let fd = open(&mut vfs, "/etc/network/config.txt");
    match vfs.handle_request(VfsRequest::Read { fd, len: 1024, offset: 0 }) {
        VfsResponse::Data(d) => assert_eq!(d, b"dummy_data_from_file_/etc/network/config.txt_at_offset_0".to_vec()),
        other => panic!("unexpected {:?}", other),
    }
    match vfs.handle_request(VfsRequest::Read { fd, len: 1024, offset: 1234567 }) {
        VfsResponse::Data(d) => assert_eq!(String::from_utf8(d).unwrap(), "dummy_data_from_file_/etc/network/config.txt_at_offset_1234567"),
        other => panic!("unexpected {:?}", other),
    }
}

#[test]
fn vfs_read_returns_at_most_len_bytes() {
    let mut vfs = VfsService::new(7, 6);
    let fd = open(&mut vfs, "/etc/network/config.txt");
    match vfs.handle_request(VfsRequest::Read { fd, len: 4, offset: 1234567 }) {
        VfsResponse::Data(d) => assert_eq!(d, b"dumm".to_vec()),
        other => panic!("unexpected {:?}", other),
    }
    match vfs.handle_request(VfsRequest::Read { fd, len: 0, offset: 0 }) {
        VfsResponse::Data(d) => assert!(d.is_empty()),
        other => panic!("unexpected {:?}", other),
    }
    // A length that the text reaches exactly returns all of it.
    let full = b"dummy_data_from_file_/etc/network/config.txt_at_offset_7".to_vec();
    match vfs.handle_request(VfsRequest::Read { fd, len: full.len() as u32, offset: 7 }) {
        VfsResponse::Data(d) => assert_eq!(d, full),
        other => panic!("unexpected {:?}", other),
    }
    // The cursor moves by the bytes returned: a read near the end of u64 is
    // accepted when only a few bytes are asked for.
    assert!(vfs.accepts(&VfsRequest::Read { fd, len: 3, offset: u64::MAX - 3 }));
    assert!(!vfs.accepts(&VfsRequest::Read { fd, len: 4, offset: u64::MAX - 3 }));
    match vfs.handle_request(VfsRequest::Read { fd, len: 3, offset: u64::MAX - 3 }) {
        VfsResponse::Data(d) => assert_eq!(d, b"dum".to_vec()),
        other => panic!("unexpected {:?}", other),
    }
}

#[test]
fn vfs_read_of_non_ascii_path() {
    let mut vfs = VfsService::new(7, 6);
    let fd = open(&mut vfs, "/tmp/é");
    match vfs.handle_request(VfsRequest::Read { fd, len: 1000, offset: u64::MAX - 100 }) {
        VfsResponse::Data(d) => assert_eq!(String::from_utf8(d).unwrap(), format!("dummy_data_from_file_/tmp/é_at_offset_{}", u64::MAX - 100)),
        other => panic!("unexpected {:?}", other),
    }
    // A length may end inside a character: the bytes are cut there.
    match vfs.handle_request(VfsRequest::Read { fd, len: 27, offset: 0 }) {
        VfsResponse::Data(d) => {
            let mut expected = b"dummy_data_from_file_/tmp/".to_vec();
            expected.push(0xC3);
            assert_eq!(d, expected);
        }
        other => panic!("unexpected {:?}", other),
    }
}

#[test]
fn vfs_write_acknowledges_length() {
    let mut vfs = VfsService::new(7, 6);
    let fd = open(&mut vfs, "/f");
    match vfs.handle_request(VfsRequest::Write { fd, data: vec![1, 2, 3, 4, 5], offset: 10 }) {
        VfsResponse::Success(n) => assert_eq!(n, 5),
        other => panic!("unexpected {:?}", other),
    }
}

#[test]
fn vfs_close_then_use_is_refused() {
    let mut vfs = VfsService::new(7, 6);
    let fd = open(&mut vfs, "/f");
    assert!(matches!(vfs.handle_request(VfsRequest::Close { fd }), VfsResponse::Success(0)));
    assert!(is_bad_fd(&vfs.handle_request(VfsRequest::Read { fd, len: 1, offset: 0 })));
    assert!(is_bad_fd(&vfs.handle_request(VfsRequest::Write { fd, data: vec![1], offset: 0 })));
    assert!(is_bad_fd(&vfs.handle_request(VfsRequest::Close { fd })));
    // The descriptor is not handed out again.
    assert_eq!(open(&mut vfs, "/g"), fd + 1);
}

#[test]
fn vfs_unknown_descriptor() {
    let mut vfs = VfsService::new(7, 6);
    assert!(is_bad_fd(&vfs.handle_request(VfsRequest::Read { fd: 42, len: 1, offset: 0 })));
}

#[test]
fn vfs_list_and_stat() {
    let mut vfs = VfsService::new(7, 6);
    match vfs.handle_request(VfsRequest::List { path: "/".to_string() }) {
        VfsResponse::DirectoryEntries(e) => {
            assert_eq!(e.len(), 2);
            assert_eq!(e[0].0, "file1.txt");
            assert_eq!(e[0].1, VfsMetadata { is_dir: false, size: 100, created: 0, modified: 0, permissions: 0o644 });
            assert_eq!(e[1].0, "subdir/");
            assert_eq!(e[1].1, VfsMetadata { is_dir: true, size: 0, created: 0, modified: 0, permissions: 0o755 });
        }
        other => panic!("unexpected {:?}", other),
    }
    match vfs.handle_request(VfsRequest::Stat { path: "/x".to_string() }) {
        VfsResponse::Metadata(m) => assert_eq!(m, VfsMetadata { is_dir: false, size: 512, created: 0, modified: 0, permissions: 0o644 }),
        other => panic!("unexpected {:?}", other),
    }
}

#[test]
fn file_manager_messages() {
    let fm = FileManagerService::new(9, 7);
    assert_eq!(fm.client_chan.id, 9);
    assert_eq!(fm.vfs_chan.id, 7);
    let cases = vec![
        (
            FileManagerRequest::Move { source: "/a".into(), destination: "/b".into() },
            "Failed to move /a to /b: svc://vfs offers no such operation",
        ),
        (FileManagerRequest::Delete { path: "/a".into() }, "Failed to delete /a: svc://vfs offers no such operation"),
        (
            FileManagerRequest::CreateDirectory { path: "/d".into() },
            "Failed to create directory /d: svc://vfs offers no such operation",
        ),
        (FileManagerRequest::Browse { path: "home".into() }, "Invalid path (not absolute): home"),
        (
            FileManagerRequest::Copy { source: "/a".into(), destination: "b".into() },
            "Invalid path (not absolute): b",
        ),
        (FileManagerRequest::Delete { path: "".into() }, "Invalid path (not absolute): "),
    ];
    for (req, expected) in cases {
        match fm.handle_request(req) {
            FileManagerStep::Reply(FileManagerResponse::Error(m)) => assert_eq!(m, expected),
            other => panic!("unexpected {:?}", other),
        }
    }
}

#[test]
fn file_manager_browse_goes_through_vfs() {
    let fm = FileManagerService::new(9, 7);
    let mut vfs = VfsService::new(7, 6);
    match fm.handle_request(FileManagerRequest::Browse { path: "/home".into() }) {
        FileManagerStep::AskVfs { request, pending } => {
            assert!(matches!(&request, VfsRequest::List { path } if path == "/home"));
            let reply = vfs.handle_request(request);
            match fm.complete(pending, Ok(reply)) {
                FileManagerStep::Reply(FileManagerResponse::DirectoryEntries(e)) => assert_eq!(e.len(), 2),
                other => panic!("unexpected {:?}", other),
            }
        }
        other => panic!("unexpected {:?}", other),
    }
    let err = fm.browse_result(&"/x".to_string(), Ok(VfsResponse::Error { code: 2, message: "no such dir".into() }));
    assert!(matches!(err, FileManagerResponse::Error(m) if m == "Failed to browse /x: no such dir"));
    let odd = fm.browse_result(&"/x".to_string(), Ok(VfsResponse::Success(0)));
    assert!(matches!(odd, FileManagerResponse::Error(m) if m == "Unexpected response from VFS during browse"));
    let failed = fm.browse_result(&"/x".to_string(), Err(()));
    assert!(matches!(failed, FileManagerResponse::Error(m) if m == "Unexpected response from VFS during browse"));
}

/// Runs a file-manager request against a VFS service, returning the answer
/// and the requests that were put to the VFS.
fn run_against_vfs(fm: &FileManagerService, vfs: &mut VfsService, req: FileManagerRequest) -> (FileManagerResponse, Vec<String>) {
    let mut asked = Vec::new();
    let mut step = fm.handle_request(req);
    loop {
        match step {
            FileManagerStep::Reply(r) => return (r, asked),
            FileManagerStep::AskVfs { request, pending } => {
                asked.push(format!("{:?}", request));
                let reply = vfs.handle_request(request);
                step = fm.complete(pending, Ok(reply));
            }
        }
    }
}

#[test]
fn file_manager_copy_goes_through_vfs() {
    let fm = FileManagerService::new(9, 7);
    let mut vfs = VfsService::new(7, 6);
    let (reply, asked) = run_against_vfs(
        &fm,
        &mut vfs,
        FileManagerRequest::Copy { source: "/home/user/document.txt".into(), destination: "/home/user/backups/document.txt".into() },
    );
    assert!(matches!(&reply, FileManagerResponse::Success(m)
        if m == "Successfully copied /home/user/document.txt to /home/user/backups/document.txt"));
    assert_eq!(asked.len(), 6);
    assert!(asked[0].starts_with("Open { path: \"/home/user/document.txt\", flags: 0 }"));
    assert!(asked[1].starts_with("Read { fd: 1, len: 4294967295, offset: 0 }"));
    assert!(asked[2].starts_with("Close { fd: 1 }"));
    assert!(asked[3].starts_with("Open { path: \"/home/user/backups/document.txt\", flags: 65 }"));
    assert!(asked[4].starts_with("Write { fd: 2, data: ["));
    assert!(asked[5].starts_with("Close { fd: 2 }"));
    // Both descriptors are closed again: reading either is refused.
    for fd in [1u32, 2] {
        match vfs.handle_request(VfsRequest::Read { fd, len: 4, offset: 0 }) {
            VfsResponse::Error { code, .. } => assert_eq!(code, 9),
            other => panic!("unexpected {:?}", other),
        }
    }
}

#[test]
fn file_manager_copy_reports_vfs_failures() {
    let fm = FileManagerService::new(9, 7);
    let job = || match fm.handle_request(FileManagerRequest::Copy { source: "/a".into(), destination: "/b".into() }) {
        FileManagerStep::AskVfs { pending, .. } => pending,
        other => panic!("unexpected {:?}", other),
    };
    // The source cannot be opened: the VFS's reason is passed on.
    let step = fm.complete(job(), Ok(VfsResponse::Error { code: 2, message: "No such file".into() }));
    assert!(matches!(step, FileManagerStep::Reply(FileManagerResponse::Error(m)) if m == "Failed to copy /a to /b: No such file"));
    // An answer of the wrong kind.
    let step = fm.complete(job(), Ok(VfsResponse::Data(vec![1])));
    assert!(matches!(step, FileManagerStep::Reply(FileManagerResponse::Error(m)) if m == "Unexpected response from VFS during copy"));
    let step = fm.complete(job(), Err(()));
    assert!(matches!(step, FileManagerStep::Reply(FileManagerResponse::Error(m)) if m == "Unexpected response from VFS during copy"));
    // The read fails: the source is closed first, then the failure is reported.
    let step = fm.complete(job(), Ok(VfsResponse::Success(4)));
    let pending = match step {
        FileManagerStep::AskVfs { request: VfsRequest::Read { fd: 4, .. }, pending } => pending,
        other => panic!("unexpected {:?}", other),
    };
    let step = fm.complete(pending, Ok(VfsResponse::Error { code: 5, message: "I/O error".into() }));
    let pending = match step {
        FileManagerStep::AskVfs { request: VfsRequest::Close { fd: 4 }, pending } => pending,
        other => panic!("unexpected {:?}", other),
    };
    let step = fm.complete(pending, Ok(VfsResponse::Success(0)));
    assert!(matches!(step, FileManagerStep::Reply(FileManagerResponse::Error(m)) if m == "Failed to copy /a to /b: I/O error"));
}

fn resolver() -> DnsResolver {
    DnsResolver::new(5, 4, 6, Ok(SocketResponse::Success(3))).unwrap()
}

#[test]
fn dns_resolver_needs_a_socket() {
    assert!(DnsResolver::new(5, 4, 6, Err(())).is_none());
    assert!(DnsResolver::new(5, 4, 6, Ok(SocketResponse::Error(1, "x".into()))).is_none());
    let r = resolver();
    assert_eq!(r.dns_socket_fd, 3);
    assert_eq!(r.dns_servers, vec![[8, 8, 8, 8]]);
    assert!(matches!(DnsResolver::socket_request(), SocketRequest::Socket { domain: 2, ty: 2, protocol: 0 }));
}

#[test]
fn dns_lookup_and_cache() {
    let mut r = resolver();
    match r.handle_query("example.com".into(), 1000) {
        DnsResponse::ResolvedHostname { hostname, ip_address } => {
            assert_eq!(hostname, "example.com");
            assert_eq!(ip_address, [192, 0, 2, 1]);
        }
        other => panic!("unexpected {:?}", other),
    }
    let e = r.dns_cache.get(&"example.com".to_string()).unwrap();
    assert_eq!(e.expires_at_ms, 61_000);
    // Served from the cache before expiry, unchanged.
    assert!(matches!(r.handle_query("example.com".into(), 60_999), DnsResponse::ResolvedHostname { .. }));
    assert_eq!(r.dns_cache.get(&"example.com".to_string()).unwrap().expires_at_ms, 61_000);
    // At expiry, looked up afresh and cached again.
    assert!(matches!(r.handle_query("example.com".into(), 61_000), DnsResponse::ResolvedHostname { .. }));
    assert_eq!(r.dns_cache.get(&"example.com".to_string()).unwrap().expires_at_ms, 121_000);
}

#[test]
fn dns_unknown_name() {
    let mut r = resolver();
    match r.handle_query("nope.test".into(), 5) {
        DnsResponse::NotFound { query } => assert_eq!(query, "nope.test"),
        other => panic!("unexpected {:?}", other),
    }
    assert!(r.dns_cache.get(&"nope.test".to_string()).is_none());
    match r.perform_network_lookup(&"other.org".to_string(), 5) {
        DnsResponse::NotFound { query } => assert_eq!(query, "other.org"),
        other => panic!("unexpected {:?}", other),
    }
}

#[test]
fn dns_expired_entry_is_dropped() {
    let mut r = resolver();
    r.dns_cache.insert("old.test".to_string(), aetheros_kernel::vnodes::dns_resolver::DnsCacheEntry { ip_address: [1, 2, 3, 4], expires_at_ms: 10 });
    assert!(matches!(r.handle_query("old.test".into(), 9), DnsResponse::ResolvedHostname { ip_address: [1, 2, 3, 4], .. }));
    assert!(matches!(r.handle_query("old.test".into(), 10), DnsResponse::NotFound { .. }));
    assert!(r.dns_cache.get(&"old.test".to_string()).is_none());
}

#[test]
fn dns_cache_replaces_and_removes() {
    let mut r = resolver();
    let entry = |ms| aetheros_kernel::vnodes::dns_resolver::DnsCacheEntry { ip_address: [9, 9, 9, 9], expires_at_ms: ms };
    r.dns_cache.insert("a".into(), entry(1));
    r.dns_cache.insert("b".into(), entry(2));
    r.dns_cache.insert("a".into(), entry(3));
    assert_eq!(r.dns_cache.get(&"a".to_string()).unwrap().expires_at_ms, 3);
    r.dns_cache.remove(&"a".to_string());
    assert!(r.dns_cache.get(&"a".to_string()).is_none());
    assert_eq!(r.dns_cache.get(&"b".to_string()).unwrap().expires_at_ms, 2);
    assert_eq!(ticks_to_ms(7), 70);
}

#[test]
fn socket_type_mapping() {
    assert_eq!(map_socket_type(1), Some(0));
    assert_eq!(map_socket_type(2), Some(1));
    assert_eq!(map_socket_type(0), None);
    assert_eq!(map_socket_type(3), None);
    assert_eq!(map_socket_type(-1), None);
}

fn open_socket(api: &mut SocketApi, ty: i32, net_handle: u32) -> i32 {
    match api.handle_request(SocketRequest::Socket { domain: 2, ty, protocol: 0 }) {
        SocketStep::AskNet { request: NetStackRequest::OpenSocket(t, 0), pending } => {
            assert_eq!(t, map_socket_type(ty).unwrap());
            match api.complete(pending, Ok(NetStackResponse::SocketOpened(net_handle))) {
                SocketResponse::Success(fd) => fd,
                other => panic!("unexpected {:?}", other),
            }
        }
        other => panic!("unexpected {:?}", other),
    }
}

#[test]
fn socket_api_descriptors_never_reused() {
    let mut api = SocketApi::new();
    assert_eq!(open_socket(&mut api, 1, 40), 1);
    // A refused open hands out nothing.
    match api.handle_request(SocketRequest::Socket { domain: 2, ty: 2, protocol: 0 }) {
        SocketStep::AskNet { pending, .. } => {
            assert!(matches!(api.complete(pending, Ok(NetStackResponse::Error(7))), SocketResponse::Error(7, _)));
        }
        other => panic!("unexpected {:?}", other),
    }
    match api.handle_request(SocketRequest::Close { fd: 1 }) {
        SocketStep::AskNet { pending, .. } => {
            assert!(matches!(api.complete(pending, Ok(NetStackResponse::Success)), SocketResponse::Success(0)));
        }
        other => panic!("unexpected {:?}", other),
    }
    assert_eq!(open_socket(&mut api, 2, 41), 2);
    assert_eq!(open_socket(&mut api, 1, 42), 3);
    assert!(matches!(
        api.handle_request(SocketRequest::Send { fd: 1, data: vec![1] }),
        SocketStep::Reply(SocketResponse::Error(-1, _))
    ));
}

#[test]
fn vfs_listing_is_sorted_by_name() {
    let mut vfs = VfsService::new(7, 6);
    match vfs.handle_request(VfsRequest::List { path: "/".to_string() }) {
        VfsResponse::DirectoryEntries(e) => {
            let names: Vec<&String> = e.iter().map(|(n, _)| n).collect();
            let mut sorted = names.clone();
            sorted.sort();
            sorted.dedup();
            assert_eq!(names, sorted);
        }
        other => panic!("unexpected {:?}", other),
    }
}

#[test]
fn socket_api_open_and_use() {
    let mut api = SocketApi::new();
    assert_eq!(open_socket(&mut api, 1, 40), 1);
    assert_eq!(open_socket(&mut api, 2, 41), 2);
    match api.handle_request(SocketRequest::Send { fd: 1, data: vec![7] }) {
        SocketStep::AskNet { request: NetStackRequest::Send(40, d), pending: PendingSocketOp::Send } => assert_eq!(d, vec![7]),
        other => panic!("unexpected {:?}", other),
    }
    assert!(matches!(api.complete(PendingSocketOp::Send, Ok(NetStackResponse::Success)), SocketResponse::Success(0)));
    match api.complete(PendingSocketOp::Send, Ok(NetStackResponse::Error(101))) {
        SocketResponse::Error(101, m) => assert_eq!(m, "Failed to send via AetherNet"),
        other => panic!("unexpected {:?}", other),
    }
    match api.handle_request(SocketRequest::Recv { fd: 2, len: 10 }) {
        SocketStep::AskNet { request: NetStackRequest::Recv(41), pending } => {
            assert!(matches!(api.complete(pending, Ok(NetStackResponse::Data(vec![1, 2]))), SocketResponse::Data(d) if d == vec![1, 2]));
        }
        other => panic!("unexpected {:?}", other),
    }
    match api.handle_request(SocketRequest::Connect { fd: 2, addr: [10, 0, 0, 1], port: 53 }) {
        SocketStep::AskNet { request: NetStackRequest::SendTo(41, [10, 0, 0, 1], 53, d), pending } => {
            assert!(d.is_empty());
            match api.complete(pending, Err(())) {
                SocketResponse::Error(-1, m) => assert_eq!(m, "Unexpected response from AetherNet during Connect"),
                other => panic!("unexpected {:?}", other),
            }
        }
        other => panic!("unexpected {:?}", other),
    }
}

#[test]
fn socket_api_unsupported_and_bad_descriptors() {
    let mut api = SocketApi::new();
    match api.handle_request(SocketRequest::Socket { domain: 2, ty: 5, protocol: 0 }) {
        SocketStep::Reply(SocketResponse::Error(100, m)) => assert_eq!(m, "Unsupported socket type"),
        other => panic!("unexpected {:?}", other),
    }
    for req in [
        SocketRequest::Listen { fd: 4, backlog: 1 },
        SocketRequest::Send { fd: 4, data: vec![] },
        SocketRequest::Recv { fd: 4, len: 1 },
        SocketRequest::Close { fd: 4 },
        SocketRequest::Bind { fd: 4, addr: [0; 4], port: 80 },
        SocketRequest::Connect { fd: 4, addr: [0; 4], port: 80 },
    ] {
        match api.handle_request(req) {
            SocketStep::Reply(SocketResponse::Error(-1, m)) => assert_eq!(m, "Bad file descriptor"),
            other => panic!("unexpected {:?}", other),
        }
    }
    match api.handle_request(SocketRequest::Accept { fd: 1 }) {
        SocketStep::Reply(SocketResponse::Error(11, m)) => assert_eq!(m, "Operation would block (EWOULDBLOCK)"),
        other => panic!("unexpected {:?}", other),
    }
}

#[test]
fn socket_api_bind_listen_close() {
    let mut api = SocketApi::new();
    let fd = open_socket(&mut api, 1, 40) as u32;
    assert!(matches!(api.handle_request(SocketRequest::Listen { fd, backlog: 5 }), SocketStep::Reply(SocketResponse::Success(0))));
    match api.handle_request(SocketRequest::Bind { fd, addr: [0; 4], port: 8080 }) {
        SocketStep::AskNet { request: NetStackRequest::OpenSocket(0, 8080), pending } => {
            assert!(matches!(api.complete(pending, Ok(NetStackResponse::SocketOpened(77))), SocketResponse::Success(0)));
        }
        other => panic!("unexpected {:?}", other),
    }
    // The descriptor now names the new network socket.
    assert!(matches!(api.handle_request(SocketRequest::Recv { fd, len: 1 }), SocketStep::AskNet { request: NetStackRequest::Recv(77), .. }));
    match api.handle_request(SocketRequest::Close { fd }) {
        SocketStep::AskNet { request: NetStackRequest::CloseSocket(77), pending } => {
            match api.complete(pending, Ok(NetStackResponse::Error(103))) {
                SocketResponse::Error(103, m) => assert_eq!(m, "Failed to close socket in AetherNet"),
                other => panic!("unexpected {:?}", other),
            }
        }
        other => panic!("unexpected {:?}", other),
    }
    // Closed whatever the network stack answered.
    assert!(matches!(api.handle_request(SocketRequest::Close { fd }), SocketStep::Reply(SocketResponse::Error(-1, _))));
    match api.complete(PendingSocketOp::Open { ty: 1 }, Ok(NetStackResponse::Error(7))) {
        SocketResponse::Error(7, m) => assert_eq!(m, "Failed to open socket in AetherNet"),
        other => panic!("unexpected {:?}", other),
    }
    match api.complete(PendingSocketOp::Bind { fd: 1 }, Ok(NetStackResponse::Success)) {
        SocketResponse::Error(-1, m) => assert_eq!(m, "Unexpected response from AetherNet during Bind"),
        other => panic!("unexpected {:?}", other),
    }
}

#[test]
fn net_stack_table_actions() {
    let mut t = NetStackTable::new();
    assert!(matches!(t.handle_request(NetStackRequest::OpenSocket(0, 80)), NetStackAction::OpenTcp { handle: 1, local_port: 80 }));
    assert!(matches!(t.handle_request(NetStackRequest::OpenSocket(1, 0)), NetStackAction::OpenUdp { handle: 2, local_port: 0 }));
    // An unsupported type still uses up a number.
    assert!(matches!(t.handle_request(NetStackRequest::OpenSocket(9, 0)), NetStackAction::Reply(NetStackResponse::Error(100))));
    assert!(matches!(t.handle_request(NetStackRequest::OpenSocket(0, 0)), NetStackAction::OpenTcp { handle: 4, .. }));
    for req in [
        NetStackRequest::Send(1, vec![1]),
        NetStackRequest::SendTo(2, [1, 1, 1, 1], 9, vec![]),
        NetStackRequest::Recv(1),
        NetStackRequest::CloseSocket(1),
    ] {
        assert!(matches!(t.handle_request(req), NetStackAction::Reply(NetStackResponse::Error(103))));
    }
    assert!(matches!(tcp_send_reply(true), NetStackResponse::Success));
    assert!(matches!(tcp_send_reply(false), NetStackResponse::Error(101)));
    assert!(matches!(recv_reply(Some(vec![4])), NetStackResponse::Data(d) if d == vec![4]));
    assert!(matches!(recv_reply(None), NetStackResponse::Data(d) if d.is_empty()));
    assert!(matches!(undecodable_reply(), NetStackResponse::Error(104)));
}

#[test]
fn net_bridge_reads_poll_codes() {
    assert_eq!(classify_rx_poll(42), RxPollOutcome::Packet);
    assert_eq!(classify_rx_poll(0), RxPollOutcome::NoPacket);
    assert_eq!(classify_rx_poll(1), RxPollOutcome::Packet);
    assert!(irq_registered(0));
    assert!(!irq_registered(1));
    let mut dev = AetherNetDevice::new(0, 2);
    dev.enqueue_rx_packet(1, 42);
}

#[test]
fn vfs_io_and_queries_keep_files_open() {
    let mut vfs = VfsService::new(7, 6);
    let a = open(&mut vfs, "/a");
    let b = open(&mut vfs, "/b");
    assert!(matches!(vfs.handle_request(VfsRequest::Write { fd: a, data: vec![0; 8], offset: 100 }), VfsResponse::Success(8)));
    assert!(matches!(vfs.handle_request(VfsRequest::List { path: "/".into() }), VfsResponse::DirectoryEntries(_)));
    assert!(matches!(vfs.handle_request(VfsRequest::Stat { path: "/a".into() }), VfsResponse::Metadata(_)));
    match vfs.handle_request(VfsRequest::Read { fd: b, len: 100, offset: 3 }) {
        VfsResponse::Data(d) => assert_eq!(d, b"dummy_data_from_file_/b_at_offset_3".to_vec()),
        other => panic!("unexpected {:?}", other),
    }
    match vfs.handle_request(VfsRequest::Read { fd: a, len: 100, offset: 0 }) {
        VfsResponse::Data(d) => assert_eq!(d, b"dummy_data_from_file_/a_at_offset_0".to_vec()),
        other => panic!("unexpected {:?}", other),
    }
    assert!(vfs.accepts(&VfsRequest::Read { fd: a, len: 1, offset: 0 }));
    assert!(!vfs.accepts(&VfsRequest::Write { fd: a, data: vec![1, 2], offset: u64::MAX - 1 }));
    assert!(vfs.accepts(&VfsRequest::Write { fd: 99, data: vec![1, 2], offset: u64::MAX }));
    assert!(!vfs.accepts(&VfsRequest::Read { fd: b, len: 100, offset: u64::MAX - 5 }));
}
