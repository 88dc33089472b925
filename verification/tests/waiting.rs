use jogicode::ports::{BindReport, PortScan};
use jogicode::readiness::Readiness;
use jogicode::watch::{Probe, Watch, WatchEvent, WatchNeed};

fn scan(free: &[u16], system: Result<u16, String>) -> Result<u16, String> {
    let mut scan = PortScan::new();
    loop {
        let port: u16 = scan.candidate();
        let report = if port == 0 {
            BindReport::Bound(system.clone())
        } else if free.contains(&port) {
            BindReport::Bound(Ok(port))
        } else {
            BindReport::Refused("taken".to_string())
        };
        if let Some(end) = scan.report(report) {
            return end;
        }
    }
}

#[test]
fn first_preferred_port() {
    assert_eq!(scan(&[8080, 8081], Ok(50000)), Ok(8080));
}

#[test]
fn lowest_free_preferred_port() {
    assert_eq!(scan(&[8085, 8083], Ok(50000)), Ok(8083));
    assert_eq!(scan(&[8085], Ok(50000)), Ok(8085));
}

#[test]
fn system_port_is_last() {
    assert_eq!(scan(&[], Ok(50000)), Ok(50000));
    assert_eq!(scan(&[8086], Ok(50000)), Ok(50000));
    assert_eq!(scan(&[], Err("no name".to_string())), Err("failed to get local addr: no name".to_string()));
}

#[test]
fn no_port_at_all() {
    let mut scan = PortScan::new();
    for expected in [8080u16, 8081, 8082, 8083, 8084, 8085] {
        assert_eq!(scan.candidate(), expected);
        assert_eq!(scan.report(BindReport::Refused("reserved".to_string())), None);
    }
    assert_eq!(scan.candidate(), 0);
    assert_eq!(
        scan.report(BindReport::Refused("no more".to_string())),
        Some(Err("failed to bind to any port: no more".to_string()))
    );
}

#[test]
fn tcp_watch_succeeds() {
    let mut watch = Watch::new(Probe::Tcp, 60);
    assert_eq!(watch.need(), WatchNeed::Clock);
    assert_eq!(watch.connect_timeout_secs(), 1);
    assert_eq!(watch.pause_millis(), 500);
    watch.report(WatchEvent::Elapsed(0));
    assert_eq!(watch.need(), WatchNeed::Connect);
    watch.report(WatchEvent::Connected(false));
    assert_eq!(watch.need(), WatchNeed::Pause);
    watch.report(WatchEvent::Paused);
    watch.report(WatchEvent::Elapsed(59_999_999_999));
    assert_eq!(watch.need(), WatchNeed::Connect);
    watch.report(WatchEvent::Connected(true));
    assert_eq!(watch.need(), WatchNeed::Done(true));
}

#[test]
fn tcp_watch_runs_out_of_time() {
    let mut watch = Watch::new(Probe::Tcp, 60);
    watch.report(WatchEvent::Elapsed(60_000_000_000));
    assert_eq!(watch.need(), WatchNeed::Done(false));
    watch.report(WatchEvent::Connected(true));
    assert_eq!(watch.need(), WatchNeed::Done(false));
    let mut none = Watch::new(Probe::Tcp, 0);
    none.report(WatchEvent::Elapsed(0));
    assert_eq!(none.need(), WatchNeed::Done(false));
}

#[test]
fn http_watch_needs_an_answer() {
    let mut watch = Watch::new(Probe::Http, 30);
    assert_eq!(watch.connect_timeout_secs(), 2);
    assert_eq!(watch.pause_millis(), 1000);
    for reply in [None, Some(Vec::new()), Some(b"SSH-2.0".to_vec())] {
        watch.report(WatchEvent::Elapsed(1));
        watch.report(WatchEvent::Connected(true));
        assert_eq!(watch.need(), WatchNeed::Send);
        watch.report(WatchEvent::Sent(true));
        assert_eq!(watch.need(), WatchNeed::Receive);
        watch.report(WatchEvent::Received(reply));
        assert_eq!(watch.need(), WatchNeed::Pause);
        watch.report(WatchEvent::Paused);
    }
    watch.report(WatchEvent::Elapsed(2));
    watch.report(WatchEvent::Connected(true));
    watch.report(WatchEvent::Sent(false));
    assert_eq!(watch.need(), WatchNeed::Pause);
    watch.report(WatchEvent::Paused);
    watch.report(WatchEvent::Elapsed(3));
    watch.report(WatchEvent::Connected(true));
    watch.report(WatchEvent::Sent(true));
    watch.report(WatchEvent::Received(Some(b"HTTP/1.1 302 Found".to_vec())));
    assert_eq!(watch.need(), WatchNeed::Done(true));
}

#[test]
fn reply_in_pieces() {
    let mut watch = Watch::new(Probe::Http, 30);
    watch.report(WatchEvent::Elapsed(1));
    watch.report(WatchEvent::Connected(true));
    watch.report(WatchEvent::Sent(true));
    watch.report(WatchEvent::Received(Some(b"HT".to_vec())));
    assert_eq!(watch.need(), WatchNeed::Receive);
    watch.report(WatchEvent::Received(Some(b"T".to_vec())));
    assert_eq!(watch.need(), WatchNeed::Receive);
    watch.report(WatchEvent::Received(Some(b"P/1.1 200 OK\r\n\r\n".to_vec())));
    assert_eq!(watch.need(), WatchNeed::Done(true));
}

#[test]
fn pieces_of_two_connections_do_not_add_up() {
    for end in [None, Some(Vec::new()), Some(b"X".to_vec())] {
        let mut watch = Watch::new(Probe::Http, 30);
        watch.report(WatchEvent::Elapsed(1));
        watch.report(WatchEvent::Connected(true));
        watch.report(WatchEvent::Sent(true));
        watch.report(WatchEvent::Received(Some(b"HT".to_vec())));
        watch.report(WatchEvent::Received(end));
        assert_eq!(watch.need(), WatchNeed::Pause);
        watch.report(WatchEvent::Paused);
        watch.report(WatchEvent::Elapsed(2));
        watch.report(WatchEvent::Connected(true));
        watch.report(WatchEvent::Sent(true));
        watch.report(WatchEvent::Received(Some(b"TP/1.1 200 OK".to_vec())));
        assert_eq!(watch.need(), WatchNeed::Pause);
    }
}

#[test]
fn readiness_log() {
    let mut readiness = Readiness::new(8082);
    assert_eq!(readiness.opening_message(), "waiting for TCP port 8082 to open…");
    assert_eq!(readiness.messages(false), vec!["code-server did not open port 8082 within 60s"]);
    assert_eq!(
        readiness.messages(true),
        vec!["TCP port 8082 is open", "TCP port open, starting HTTP health check…"]
    );
    readiness.report(true);
    assert_eq!(
        readiness.messages(false),
        vec![
            "HTTP health check timed out",
            "HTTP health check failed — code-server is listening but not responding to HTTP",
        ]
    );
    assert_eq!(
        readiness.messages(true),
        vec![
            "HTTP health check passed — code-server is responding",
            "navigating webview to code-server on port 8082",
        ]
    );
    readiness.report(true);
    assert!(readiness.messages(true).is_empty());
}

#[test]
fn answers_to_other_questions_are_ignored() {
    let mut watch = Watch::new(Probe::Http, 30);
    watch.report(WatchEvent::Connected(true));
    watch.report(WatchEvent::Paused);
    watch.report(WatchEvent::Received(Some(b"HTTP/1.1".to_vec())));
    assert_eq!(watch.need(), WatchNeed::Clock);
}

#[test]
fn editor_is_loaded() {
    let mut readiness = Readiness::new(8082);
    assert!(Readiness::opening_script().contains("'Starting code-server…'"));
    let first = readiness.watch().unwrap();
    assert_eq!(first.connect_timeout_secs(), 1);
    let scripts = readiness.report(true);
    assert_eq!(scripts.len(), 1);
    assert!(scripts[0].contains("'Code-server port open, checking HTTP…'"));
    let second = readiness.watch().unwrap();
    assert_eq!(second.connect_timeout_secs(), 2);
    let scripts = readiness.report(true);
    assert_eq!(scripts.len(), 2);
    assert!(scripts[0].contains("'Loading IDE…'"));
    assert_eq!(scripts[1], "window.location.href = 'http://127.0.0.1:8082';");
    assert!(readiness.watch().is_none());
    assert!(readiness.report(true).is_empty());
}

#[test]
fn watches_last_as_long_as_they_should() {
    let mut readiness = Readiness::new(1);
    let mut tcp = readiness.watch().unwrap();
    tcp.report(WatchEvent::Elapsed(59_999_999_999));
    assert_eq!(tcp.need(), WatchNeed::Connect);
    let mut tcp = readiness.watch().unwrap();
    tcp.report(WatchEvent::Elapsed(60_000_000_000));
    assert_eq!(tcp.need(), WatchNeed::Done(false));
    readiness.report(true);
    let mut http = readiness.watch().unwrap();
    http.report(WatchEvent::Elapsed(29_999_999_999));
    assert_eq!(http.need(), WatchNeed::Connect);
    let mut http = readiness.watch().unwrap();
    http.report(WatchEvent::Elapsed(30_000_000_000));
    assert_eq!(http.need(), WatchNeed::Done(false));
}

#[test]
fn port_does_not_open() {
    let mut readiness = Readiness::new(8082);
    let scripts = readiness.report(false);
    assert_eq!(scripts.len(), 1);
    assert!(scripts[0].contains("'code-server failed to start within 60s. Check jogicode.log next to the app.'"));
    assert!(readiness.watch().is_none());
}

#[test]
fn server_does_not_answer() {
    let mut readiness = Readiness::new(8082);
    readiness.report(true);
    let scripts = readiness.report(false);
    assert_eq!(scripts.len(), 1);
    assert!(scripts[0].contains("'code-server started but HTTP is not responding. Check jogicode.log.'"));
    assert!(readiness.watch().is_none());
}
