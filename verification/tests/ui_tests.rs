use thrustbench::ui::{
    load_http_options, load_tcp_options, load_uds_options, move_focus, save_http_options,
    save_tcp_options, save_uds_options, FocusField, HttpOptions, NavKey, Page, TcpOptions,
    UdsOptions,
};

#[test]
fn pages_cycle_in_tab_order() {
    let order = [
        Page::Http,
        Page::Tcp,
        Page::Uds,
        Page::Results,
        Page::Configs,
        Page::Help,
    ];
    for i in 0..order.len() {
        assert_eq!(order[i].next(), order[(i + 1) % order.len()]);
        assert_eq!(order[(i + 1) % order.len()].prev(), order[i]);
    }
}

#[test]
fn page_titles() {
    assert_eq!(Page::Http.as_str(), "HTTP");
    assert_eq!(Page::Tcp.as_str(), "TCP");
    assert_eq!(Page::Uds.as_str(), "UDS");
    assert_eq!(Page::Results.as_str(), "Results");
    assert_eq!(Page::Configs.as_str(), "Configs");
    assert_eq!(Page::Help.as_str(), "Help");
}

#[test]
fn focus_walks_the_http_page() {
    let mut focus = FocusField::NoFocus;
    let walk = [
        FocusField::Url,
        FocusField::Method,
        FocusField::Headers,
        FocusField::Body,
        FocusField::Concurrency,
        FocusField::Requests,
        FocusField::Duration,
        FocusField::Timeout,
    ];
    for field in walk {
        focus = move_focus(Page::Http, focus, NavKey::Down);
        assert_eq!(focus, field);
    }
    // The bottom field stays put on another Down.
    assert_eq!(
        move_focus(Page::Http, FocusField::Timeout, NavKey::Down),
        FocusField::Timeout
    );
    // Up from the top leaves the form.
    assert_eq!(
        move_focus(Page::Http, FocusField::Url, NavKey::Up),
        FocusField::NoFocus
    );
}

#[test]
fn focus_walks_the_socket_pages() {
    assert_eq!(
        move_focus(Page::Tcp, FocusField::NoFocus, NavKey::Down),
        FocusField::Address
    );
    assert_eq!(
        move_focus(Page::Uds, FocusField::NoFocus, NavKey::Down),
        FocusField::Path
    );
    assert_eq!(
        move_focus(Page::Uds, FocusField::Expect, NavKey::Up),
        FocusField::Data
    );
    // Pages without a form never move the focus.
    assert_eq!(
        move_focus(Page::Help, FocusField::NoFocus, NavKey::Down),
        FocusField::NoFocus
    );
}

#[test]
fn defaults_match_the_command_line() {
    let http = HttpOptions::default();
    assert_eq!(http.method, "GET");
    assert_eq!(http.concurrency, 1);
    assert_eq!(http.requests, 100);
    assert_eq!(http.duration, 10);
    assert_eq!(http.timeout, 30000);
    let tcp = TcpOptions::default();
    assert!(tcp.address.is_empty());
    assert!(tcp.data.is_none());
    let uds = UdsOptions::default();
    assert!(uds.path.is_empty());
    assert!(!uds.keep_alive);
}

#[test]
fn http_form_round_trips_through_its_saved_record() {
    let filled = HttpOptions {
        url: "http://127.0.0.1:8080/".to_string(),
        method: "POST".to_string(),
        headers: vec!["Accept: text/plain".to_string()],
        body: Some("{}".to_string()),
        concurrency: 4,
        requests: 250,
        duration: 30,
        timeout: 5000,
        keep_alive: true,
    };
    let restored = load_http_options(&save_http_options(&filled));
    assert_eq!(restored.url, filled.url);
    assert_eq!(restored.method, filled.method);
    assert_eq!(restored.headers, filled.headers);
    assert_eq!(restored.body, filled.body);
    assert_eq!(restored.concurrency, filled.concurrency);
    assert_eq!(restored.requests, filled.requests);
    assert_eq!(restored.duration, filled.duration);
    assert_eq!(restored.timeout, filled.timeout);
    assert_eq!(restored.keep_alive, filled.keep_alive);
}

#[test]
fn socket_forms_round_trip_through_their_saved_records() {
    let tcp = TcpOptions {
        address: "127.0.0.1:7000".to_string(),
        data: Some("hello".to_string()),
        expect: Some("^hello$".to_string()),
        concurrency: 2,
        requests: 50,
        duration: 10,
        timeout: 30000,
        keep_alive: false,
    };
    let tcp_restored = load_tcp_options(&save_tcp_options(&tcp));
    assert_eq!(tcp_restored.address, tcp.address);
    assert_eq!(tcp_restored.data, tcp.data);
    assert_eq!(tcp_restored.expect, tcp.expect);
    assert_eq!(tcp_restored.concurrency, tcp.concurrency);

    let uds = UdsOptions {
        path: "/tmp/bench.sock".to_string(),
        data: None,
        expect: None,
        concurrency: 1,
        requests: 100,
        duration: 10,
        timeout: 30000,
        keep_alive: false,
    };
    let uds_restored = load_uds_options(&save_uds_options(&uds));
    assert_eq!(uds_restored.path, uds.path);
    assert_eq!(uds_restored.data, uds.data);
    assert_eq!(uds_restored.expect, uds.expect);
}
