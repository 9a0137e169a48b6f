use palm::gui::{ClientUI, ConnectionUI, Pane, ServerUI, Tab};
use palm::log::{Log, LogData};
use palm::net_state::{Mode, NetState};
use palm::registry::{enter, Reach};
use palm::server::ServerLink;

fn accept(link: &ServerLink, address: &str) -> palm::connection::SessionLink {
    let child = enter(
        &mut link.connections.blocking_write(),
        address.to_string(),
        link.log_tx.clone(),
        link.shutdown_rx.clone(),
    );
    link.log_tx.try_send(Log::connect(address.to_string())).unwrap();
    child
}

fn shown(ui: &ServerUI) -> Vec<String> {
    ui.connection_uis().iter().map(|c| c.address().to_string()).collect()
}

#[test]
fn connection_pane_keeps_address_and_draft() {
    let mut ui = ConnectionUI::new("127.0.0.1:50001".to_string());
    assert_eq!(ui.address(), "127.0.0.1:50001");
    assert!(ui.draft_data.is_empty());
    ui.draft_data.extend_from_slice(&[1, 2, 3]);
    assert_eq!(ui.take_draft(), vec![1, 2, 3]);
    assert!(ui.draft_data.is_empty());
    assert_eq!(ui.address(), "127.0.0.1:50001");
}

#[test]
fn client_pane_starts_towards_the_typed_address() {
    let mut ui = ClientUI::new();
    assert_eq!(ui.address, "");
    assert_eq!(ui.backend().net_state(), NetState::Inactive);
    ui.address = "127.0.0.1:9000".to_string();
    let link = ui.start().unwrap();
    assert_eq!(link.session.address(), "127.0.0.1:9000");
    assert_eq!(ui.backend().address(), Some("127.0.0.1:9000"));
    assert_eq!(ui.backend().net_state(), NetState::Establishing);
    assert!(ui.start().is_none());
}

#[test]
fn client_pane_sends_its_draft_and_clears_it() {
    let mut ui = ClientUI::new();
    ui.connection_ui.draft_data = vec![0xCA, 0xFE];
    // Without a session the send fails, and the draft is gone all the same.
    let error = ui.send_data().unwrap_err();
    assert_eq!(error.packet.data, vec![0xCA, 0xFE]);
    assert!(ui.connection_ui.draft_data.is_empty());
    assert!(ui.update_and_read_logs().is_empty());

    ui.address = "127.0.0.1:9000".to_string();
    let mut link = ui.start().unwrap();
    ui.connection_ui.draft_data = vec![0xBE, 0xEF];
    ui.send_data().unwrap();
    assert!(ui.connection_ui.draft_data.is_empty());
    assert_eq!(link.sender_rx.try_recv().unwrap().data, vec![0xBE, 0xEF]);
    let logs = ui.update_and_read_logs();
    assert_eq!(logs.len(), 1);
    assert!(matches!(&logs[0].data, LogData::SentPacket(p) if p.data == vec![0xBE, 0xEF]));
}

#[test]
fn server_pane_starts_on_the_typed_port() {
    let mut ui = ServerUI::new();
    assert!(ui.is_server_log_focused());
    ui.port = "nine thousand".to_string();
    assert!(ui.start().is_none());
    assert_eq!(ui.backend().port(), None);
    assert_eq!(ui.backend().net_state(), NetState::Inactive);
    for text in ["70000", "65536", "", "+", "-1", "++1", " 80", "80 ", "8_0", "0x50", "٨٠"] {
        ui.port = text.to_string();
        assert!(ui.start().is_none());
        assert_eq!(ui.backend().port(), None);
    }
    ui.port = "9000".to_string();
    let link = ui.start().unwrap();
    assert_eq!(link.listener.port(), Some(9000));
    assert_eq!(ui.backend().port(), Some(9000));
    assert_eq!(ui.backend().net_state(), NetState::Establishing);
    assert!(ui.start().is_none());
    assert!(ui.start_on(9001).is_none());
    assert_eq!(ui.backend_mut().port(), Some(9000));
}

#[test]
fn server_pane_shows_each_new_peer_once() {
    let mut ui = ServerUI::new();
    let link = ui.start_on(9000).unwrap();
    link.log_tx.try_send(Log::server_started()).unwrap();
    let first = accept(&link, "127.0.0.1:50001");
    let _second = accept(&link, "127.0.0.1:50002");
    link.log_tx.try_send(Log::disconnect("127.0.0.1:50001".to_string())).unwrap();
    let logs = ui.update_read_and_process_logs().found().unwrap();
    assert_eq!(logs.len(), 4);
    assert_eq!(shown(&ui), vec!["127.0.0.1:50001", "127.0.0.1:50002"]);
    // The same address connecting again adds no second pane.
    link.log_tx.try_send(Log::connect("127.0.0.1:50001".to_string())).unwrap();
    let _third = accept(&link, "127.0.0.1:50003");
    let logs = ui.update_read_and_process_logs().found().unwrap();
    assert_eq!(logs.len(), 6);
    assert_eq!(shown(&ui), vec!["127.0.0.1:50001", "127.0.0.1:50002", "127.0.0.1:50003"]);
    drop(first);
}

#[test]
fn focus_goes_only_to_a_shown_connection() {
    let mut ui = ServerUI::new();
    let link = ui.start_on(9000).unwrap();
    let _a = accept(&link, "a:1");
    let _b = accept(&link, "b:2");
    ui.update_read_and_process_logs();
    assert_eq!(ui.focused_connection(), None);
    assert!(ui.focused_connection_ui().is_none());
    ui.set_focused_connection(Some("nobody:9".to_string()));
    assert_eq!(ui.focused_connection(), None);
    ui.set_focused_connection(Some("b:2".to_string()));
    assert_eq!(ui.focused_connection(), Some("b:2"));
    assert!(!ui.is_server_log_focused());
    assert_eq!(ui.focused_connection_ui().unwrap().address(), "b:2");
    ui.set_focused_connection(Some("nobody:9".to_string()));
    assert_eq!(ui.focused_connection(), Some("b:2"));
    ui.set_focused_connection(None);
    assert!(ui.is_server_log_focused());
    assert_eq!(ui.connection_ui_from_addr("a:1").unwrap().address(), "a:1");
    assert!(ui.connection_ui_from_addr("c:3").is_none());
    assert!(ui.connection_ui_from_addr_mut("c:3").is_none());
}

#[test]
fn focused_pane_shows_the_log_of_its_connection() {
    let mut ui = ServerUI::new();
    let link = ui.start_on(9000).unwrap();
    let mut child = accept(&link, "a:1");
    child.log_tx.try_send(child.greeting.take().unwrap()).unwrap();
    ui.update_read_and_process_logs();
    ui.set_focused_connection(Some("a:1".to_string()));
    let logs = ui.update_read_and_process_logs().found().unwrap();
    assert_eq!(logs.len(), 1);
    assert!(matches!(&logs[0].data, LogData::ClientConnect(a) if a == "a:1"));
    let pane = ui.connection_ui_from_addr("a:1").unwrap();
    assert_eq!(pane.net_state(&ui), Reach::Found(NetState::Active));
    assert_eq!(pane.update_and_read_logs(&ui).found().unwrap().len(), 1);
    assert_eq!(pane.with_backend(&ui, |c| c.net_state()), Reach::Found(NetState::Active));
    assert_eq!(pane.with_backend_mut(&ui, |c| c.update_and_read_logs().len()), Reach::Found(1));
    let stranger = ConnectionUI::new("z:9".to_string());
    assert_eq!(stranger.net_state(&ui), Reach::Absent);
    assert!(matches!(stranger.update_and_read_logs(&ui), Reach::Absent));
    assert_eq!(stranger.with_backend(&ui, |c| c.net_state()), Reach::Absent);
    assert_eq!(stranger.with_backend_mut(&ui, |c| c.net_state()), Reach::Absent);
}

#[test]
fn focused_draft_is_sent_to_its_connection() {
    let mut ui = ServerUI::new();
    let link = ui.start_on(9000).unwrap();
    let mut child = accept(&link, "a:1");
    ui.update_read_and_process_logs();
    // Without a focus nothing is sent.
    assert!(matches!(ui.send_focused_connection_data(), Reach::Absent));
    assert!(child.sender_rx.try_recv().is_err());

    ui.set_focused_connection(Some("a:1".to_string()));
    ui.focused_connection_ui_mut().unwrap().draft_data = vec![1, 2, 3];
    assert!(ui.send_focused_connection_data().found().unwrap().is_ok());
    assert!(ui.focused_connection_ui().unwrap().draft_data.is_empty());
    assert_eq!(child.sender_rx.try_recv().unwrap().data, vec![1, 2, 3]);
    let sent = ui.with_focused_connection_mut(|c| c.unwrap().send_data(vec![4]));
    assert!(sent.unwrap().is_ok());
    assert_eq!(child.sender_rx.try_recv().unwrap().data, vec![4]);

    // A pane can send for itself as well.
    let mut pane = ConnectionUI::new("a:1".to_string());
    pane.draft_data = vec![5];
    assert!(pane.send_data(&mut ui).found().unwrap().is_ok());
    assert!(pane.draft_data.is_empty());
    assert_eq!(child.sender_rx.try_recv().unwrap().data, vec![5]);
    let mut stranger = ConnectionUI::new("z:9".to_string());
    stranger.draft_data = vec![6];
    assert!(matches!(stranger.send_data(&mut ui), Reach::Absent));
    assert!(stranger.draft_data.is_empty());

    // Once the session is gone the send fails and gives the draft back.
    drop(child);
    ui.focused_connection_ui_mut().unwrap().draft_data = vec![7];
    let error = ui.send_focused_connection_data().found().unwrap().unwrap_err();
    assert_eq!(error.packet.data, vec![7]);
}

#[test]
fn only_the_pane_of_an_inactive_connection_closes() {
    let mut ui = ServerUI::new();
    let link = ui.start_on(9000).unwrap();
    let a = accept(&link, "a:1");
    let _b = accept(&link, "b:2");
    ui.update_read_and_process_logs();
    assert!(!ui.close_connection_ui("a:1"));
    assert!(!ui.close_connection_ui("nobody:9"));
    assert_eq!(shown(&ui), vec!["a:1", "b:2"]);
    a.net_state.store(NetState::Inactive);
    assert!(ui.close_connection_ui("a:1"));
    assert_eq!(shown(&ui), vec!["b:2"]);
    assert!(!ui.close_connection_ui_found("b:2", None));
    assert!(!ui.close_connection_ui_found("b:2", Some(NetState::Establishing)));
    assert!(!ui.close_connection_ui_found("a:1", Some(NetState::Inactive)));
}

#[test]
fn closing_the_focused_pane_moves_the_focus() {
    let mut ui = ServerUI::new();
    let link = ui.start_on(9000).unwrap();
    let _children: Vec<_> = ["a:1", "b:2", "c:3"].iter().map(|a| accept(&link, a)).collect();
    ui.update_read_and_process_logs();
    let inactive = Some(NetState::Inactive);

    // The pane that takes the place gets the focus.
    ui.set_focused_connection(Some("b:2".to_string()));
    assert!(ui.close_connection_ui_found("b:2", inactive));
    assert_eq!(shown(&ui), vec!["a:1", "c:3"]);
    assert_eq!(ui.focused_connection(), Some("c:3"));
    // Closing another pane leaves the focus alone.
    assert!(ui.close_connection_ui_found("a:1", inactive));
    assert_eq!(ui.focused_connection(), Some("c:3"));
    // The last pane gives the focus back to the server's log.
    assert!(ui.close_connection_ui_found("c:3", inactive));
    assert!(shown(&ui).is_empty());
    assert_eq!(ui.focused_connection(), None);
}

#[test]
fn closing_the_last_focused_pane_focuses_the_one_before() {
    let mut ui = ServerUI::new();
    let link = ui.start_on(9000).unwrap();
    let _children: Vec<_> = ["a:1", "b:2", "c:3"].iter().map(|a| accept(&link, a)).collect();
    ui.update_read_and_process_logs();
    ui.set_focused_connection(Some("c:3".to_string()));
    assert!(ui.close_connection_ui_found("c:3", Some(NetState::Inactive)));
    assert_eq!(shown(&ui), vec!["a:1", "b:2"]);
    assert_eq!(ui.focused_connection(), Some("b:2"));
}

#[test]
fn new_tab_is_a_client() {
    let tab = Tab::new(1);
    assert_eq!(tab.id, 1);
    assert_eq!(tab.mode(), Mode::Client);
    assert!(tab.is_client() && !tab.is_server());
    assert!(tab.client_safe().is_some());
    assert!(tab.server_safe().is_none());
    assert_eq!(tab.net_state(), NetState::Inactive);
    assert_eq!(tab.client().address, "");
}

#[test]
fn mode_switch_replaces_the_pane() {
    let mut tab = Tab::new(3);
    tab.client_mut().address = "127.0.0.1:9000".to_string();
    tab.set_mode(Mode::Server);
    assert!(tab.is_server() && !tab.is_client());
    assert!(tab.client_safe().is_none());
    assert!(tab.client_mut_safe().is_none());
    assert_eq!(tab.server().port, "");
    assert!(tab.server_mut_safe().is_some());
    assert!(tab.draft_data_mut().is_none());
    tab.set_mode(Mode::Client);
    assert_eq!(tab.client().address, "");
    assert!(tab.server_safe().is_none());
    assert!(tab.draft_data_mut().unwrap().is_empty());
}

#[test]
fn tab_titles() {
    let mut tab = Tab::new(7);
    assert_eq!(tab.title(), "Client Tab 7");
    tab.client_mut().address = "   ".to_string();
    assert_eq!(tab.title(), "Client Tab 7");
    tab.client_mut().address = " 127.0.0.1:9000\t".to_string();
    assert_eq!(tab.title(), "127.0.0.1:9000");
    tab.set_mode(Mode::Server);
    assert_eq!(tab.title(), "Server Tab 7");
    tab.server_mut().port = " 9000 ".to_string();
    assert_eq!(tab.title(), "Server on 9000");
    assert_eq!(Tab::new(0).title(), "Client Tab 0");
    assert_eq!(Tab::new(4294967295).title(), "Client Tab 4294967295");
    assert_eq!(Tab::new(120).title(), "Client Tab 120");
}

#[test]
fn client_tab_starts_sends_and_polls() {
    let mut tab = Tab::new(1);
    tab.client_mut().address = "127.0.0.1:9000".to_string();
    let mut link = tab.start_client().unwrap();
    assert_eq!(tab.net_state(), NetState::Establishing);
    assert!(tab.start_client().is_none());
    tab.draft_data_mut().unwrap().extend_from_slice(&[1, 2]);
    tab.send_data().found().unwrap().unwrap();
    assert!(tab.draft_data_mut().unwrap().is_empty());
    assert_eq!(link.sender_rx.try_recv().unwrap().data, vec![1, 2]);
    link.log_tx.try_send(Log::connect("127.0.0.1:9000".to_string())).unwrap();
    let logs = tab.update_and_read_logs().found().unwrap();
    assert_eq!(logs.len(), 2);
}

#[test]
fn server_tab_starts_sends_and_polls() {
    let mut tab = Tab::new(2);
    tab.set_mode(Mode::Server);
    tab.server_mut().port = "9000".to_string();
    let link = tab.start_server().unwrap();
    assert_eq!(tab.net_state(), NetState::Establishing);
    let mut child = accept(&link, "a:1");
    let logs = tab.update_and_read_logs().found().unwrap();
    assert_eq!(logs.len(), 1);
    assert!(matches!(tab.send_data(), Reach::Absent));
    tab.server_mut().set_focused_connection(Some("a:1".to_string()));
    tab.draft_data_mut().unwrap().push(9);
    tab.send_data().found().unwrap().unwrap();
    assert_eq!(child.sender_rx.try_recv().unwrap().data, vec![9]);
    assert!(tab.draft_data_mut().unwrap().is_empty());
    let pane = Pane::Tab(tab);
    let Pane::Tab(tab) = pane;
    assert_eq!(tab.id, 2);
}

#[test]
fn a_locked_registry_keeps_the_draft_and_the_panes() {
    let mut ui = ServerUI::new();
    let link = ui.start_on(9000).unwrap();
    let mut child = accept(&link, "a:1");
    ui.update_read_and_process_logs();
    ui.set_focused_connection(Some("a:1".to_string()));
    ui.focused_connection_ui_mut().unwrap().draft_data = vec![1, 2, 3];
    child.net_state.store(NetState::Inactive);
    {
        let _held = link.connections.try_write().unwrap();
        assert!(ui.send_focused_connection_data().is_busy());
        assert_eq!(ui.focused_connection_ui().unwrap().draft_data, vec![1, 2, 3]);
        assert!(ui.update_read_and_process_logs().is_busy());
        assert_eq!(ui.with_focused_connection_mut(|c| c.is_some()), None);
        assert!(!ui.close_connection_ui("a:1"));
        let mut pane = ConnectionUI::new("a:1".to_string());
        pane.draft_data = vec![9];
        assert!(pane.send_data(&mut ui).is_busy());
        assert_eq!(pane.draft_data, vec![9]);
        assert_eq!(pane.net_state(&ui), Reach::Busy);
        assert!(pane.update_and_read_logs(&ui).is_busy());
        assert_eq!(pane.with_backend(&ui, |c| c.net_state()), Reach::Busy);
        assert_eq!(pane.with_backend_mut(&ui, |c| c.net_state()), Reach::Busy);
    }
    assert!(child.sender_rx.try_recv().is_err());
    // The next try, with the lock free, sends the draft that was kept.
    assert!(ui.send_focused_connection_data().found().unwrap().is_ok());
    assert_eq!(child.sender_rx.try_recv().unwrap().data, vec![1, 2, 3]);
    assert!(ui.focused_connection_ui().unwrap().draft_data.is_empty());
    assert!(ui.close_connection_ui("a:1"));
}

#[test]
fn ports_are_written_in_decimal() {
    for (text, port) in [("0", 0), ("+80", 80), ("007", 7), ("65535", 65535), ("0000065535", 65535)] {
        let mut ui = ServerUI::new();
        ui.port = text.to_string();
        let link = ui.start().unwrap();
        assert_eq!(link.listener.port(), Some(port));
        assert_eq!(ui.backend().port(), Some(port));
    }
}
