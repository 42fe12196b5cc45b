use service_supervisor::error::SupervisorError;
use service_supervisor::launch::{LaunchKind, LaunchPlan, Service};
use service_supervisor::tunnel::{extract_url, get_url, start, started, stop, TunnelHandle};

fn url(text: &str) -> Option<String> {
    Some(text.to_string())
}

#[test]
fn tunnel_plan_runs_localtunnel_for_the_port() {
    assert_eq!(
        start(8787),
        LaunchPlan {
            kind: LaunchKind::Tunnel,
            program: "npx".to_string(),
            args: vec!["localtunnel".to_string(), "--port".to_string(), "8787".to_string()],
            env: Vec::new(),
            working_dir: None,
            capture_output: true,
            kill_on_drop: false,
        }
    );
}

#[test]
fn tunnel_plan_writes_the_port_in_decimal() {
    assert_eq!(start(80).args[2], "80");
    assert_eq!(start(65535).args[2], "65535");
    assert_eq!(start(0).args[2], "0");
}

#[test]
fn started_tunnel_has_no_url_yet() {
    let handle = started(&start(8787), Ok(5u32)).unwrap();
    assert_eq!(handle, TunnelHandle { child: 5u32, url: None });
    assert_eq!(get_url(&handle), None);
}

#[test]
fn started_tunnel_reports_the_failed_launch() {
    let r: Result<TunnelHandle<u32>, SupervisorError> =
        started(&start(8787), Err("program not found".to_string()));
    assert_eq!(
        r,
        Err(SupervisorError::Spawn {
            kind: LaunchKind::Tunnel,
            reason: "program not found".to_string(),
            program: "npx".to_string(),
            args: vec!["localtunnel".to_string(), "--port".to_string(), "8787".to_string()],
        })
    );
    assert_eq!(
        r.unwrap_err().message(),
        "Failed to start tunnel: program not found. Ensure Node.js/npm is in PATH"
    );
}

#[test]
fn tunnel_stop_reports_the_refusal() {
    assert_eq!(stop(Ok(())), Ok(()));
    let r = stop(Err("denied".to_string()));
    assert_eq!(
        r,
        Err(SupervisorError::Stop { service: Service::Tunnel, reason: "denied".to_string() })
    );
    assert_eq!(r.unwrap_err().message(), "Failed to stop tunnel: denied");
}

#[test]
fn get_url_returns_what_is_known() {
    let handle = TunnelHandle { child: 1u8, url: url("https://abc.loca.lt") };
    assert_eq!(get_url(&handle), url("https://abc.loca.lt"));
}

#[test]
fn url_is_read_from_the_announcement() {
    assert_eq!(extract_url("your url is: https://abc.loca.lt"), url("https://abc.loca.lt"));
}

#[test]
fn url_may_be_the_whole_line() {
    assert_eq!(extract_url("https://abc.loca.lt"), url("https://abc.loca.lt"));
    assert_eq!(extract_url("http://x"), url("http://x"));
}

#[test]
fn url_ends_at_the_next_space() {
    assert_eq!(extract_url("see http://a.b/c?d=1 for more"), url("http://a.b/c?d=1"));
    assert_eq!(extract_url("https://a.b\tnext"), url("https://a.b"));
    assert_eq!(extract_url("https://a.b\r\n"), url("https://a.b"));
    assert_eq!(extract_url("https://a.b\n"), url("https://a.b"));
}

#[test]
fn first_url_of_the_line_wins() {
    assert_eq!(extract_url("http://first.example https://second.example"), url("http://first.example"));
}

#[test]
fn url_may_start_inside_a_word() {
    assert_eq!(extract_url("url=https://abc.loca.lt"), url("https://abc.loca.lt"));
    assert_eq!(extract_url("(http://a.b)"), url("http://a.b)"));
}

#[test]
fn line_without_a_scheme_has_no_url() {
    assert_eq!(extract_url(""), None);
    assert_eq!(extract_url("listening on port 8787"), None);
    assert_eq!(extract_url("ftp://a.b"), None);
    assert_eq!(extract_url("http:/a.b"), None);
    assert_eq!(extract_url("HTTPS://A.B"), None);
}

#[test]
fn scheme_with_nothing_behind_it_is_no_url() {
    assert_eq!(extract_url("https://"), None);
    assert_eq!(extract_url("http://"), None);
    assert_eq!(extract_url("https:// abc"), None);
    assert_eq!(extract_url("http://\tabc"), None);
}

#[test]
fn empty_scheme_is_passed_over_for_a_later_url() {
    assert_eq!(extract_url("https:// and http://x.y z"), url("http://x.y"));
}

#[test]
fn url_after_text_that_is_not_ascii() {
    assert_eq!(extract_url("träger → https://ümlaut.example/ä ok"), url("https://ümlaut.example/ä"));
}

#[test]
fn first_observed_url_is_kept() {
    let mut handle = TunnelHandle { child: 1u8, url: None };
    assert!(!handle.observe_line("starting tunnel"));
    assert_eq!(handle.url, None);
    assert!(handle.observe_line("your url is: https://abc.loca.lt"));
    assert_eq!(handle.url, url("https://abc.loca.lt"));
    assert!(!handle.observe_line("your url is: https://other.loca.lt"));
    assert_eq!(handle.url, url("https://abc.loca.lt"));
    assert_eq!(handle.child, 1u8);
}
