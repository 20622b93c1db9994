use nula_gui::encoding::html_data_url;
use nula_gui::host::{
    loop_action, nula_gui_destroy, nula_gui_emit_js, nula_gui_init, nula_gui_load_html,
    nula_gui_run, nula_gui_run_finished, GuiError, GuiHandle, HostEvent, HostPhase, HostRegistry,
    LoopAction, Released,
};

#[test]
fn data_url_encodes_markup() {
    assert_eq!(html_data_url("<p>x</p>"), "data:text/html,%3Cp%3Ex%3C%2Fp%3E");
}

#[test]
fn data_url_keeps_unreserved() {
    assert_eq!(html_data_url("aZ09-_.~"), "data:text/html,aZ09-_.~");
}

#[test]
fn data_url_encodes_utf8_bytes() {
    assert_eq!(html_data_url("é "), "data:text/html,%C3%A9%20");
}

#[test]
fn data_url_of_empty_text() {
    assert_eq!(html_data_url(""), "data:text/html,");
}

#[test]
fn init_then_destroy_releases_host() {
    let mut reg = HostRegistry::new();
    let h = nula_gui_init(&mut reg, 800, 600).unwrap();
    assert_eq!(h.id, 1);
    assert_eq!(reg.phase(h), Some(HostPhase::Created));
    assert_eq!(reg.live_count(), 1);
    assert_eq!(nula_gui_destroy(&mut reg, h), Ok(Released::HostResources));
    assert_eq!(reg.live_count(), 0);
    assert_eq!(reg.phase(h), None);
}

#[test]
fn second_destroy_is_refused() {
    let mut reg = HostRegistry::new();
    let h = nula_gui_init(&mut reg, 1, 1).unwrap();
    assert_eq!(nula_gui_destroy(&mut reg, h), Ok(Released::HostResources));
    assert_eq!(nula_gui_destroy(&mut reg, h), Err(GuiError::InvalidHandle));
}

#[test]
fn handles_are_never_reused() {
    let mut reg = HostRegistry::new();
    let a = nula_gui_init(&mut reg, 10, 10).unwrap();
    assert_eq!(nula_gui_destroy(&mut reg, a), Ok(Released::HostResources));
    let b = nula_gui_init(&mut reg, 10, 10).unwrap();
    assert_eq!(b.id, 2);
    assert_eq!(nula_gui_load_html(&reg, a, "<p>x</p>"), Err(GuiError::InvalidHandle));
}

#[test]
fn init_refuses_non_positive_size() {
    let mut reg = HostRegistry::new();
    assert_eq!(nula_gui_init(&mut reg, 0, 600), Err(GuiError::InvalidSize));
    assert_eq!(nula_gui_init(&mut reg, 800, -1), Err(GuiError::InvalidSize));
    assert_eq!(reg.live_count(), 0);
}

#[test]
fn load_html_gives_data_url() {
    let mut reg = HostRegistry::new();
    let h = nula_gui_init(&mut reg, 800, 600).unwrap();
    assert_eq!(
        nula_gui_load_html(&reg, h, "<p>x</p>"),
        Ok("data:text/html,%3Cp%3Ex%3C%2Fp%3E".to_string())
    );
}

#[test]
fn emit_js_on_fresh_host() {
    let mut reg = HostRegistry::new();
    let h = nula_gui_init(&mut reg, 800, 600).unwrap();
    assert_eq!(nula_gui_emit_js(&reg, h, "alert(1)"), Ok("alert(1)".to_string()));
}

#[test]
fn running_host_ignores_load_and_emit() {
    let mut reg = HostRegistry::new();
    let h = nula_gui_init(&mut reg, 800, 600).unwrap();
    assert_eq!(nula_gui_run(&mut reg, h), Ok(()));
    assert_eq!(reg.phase(h), Some(HostPhase::Running));
    assert_eq!(nula_gui_load_html(&reg, h, "<p>x</p>"), Err(GuiError::NotCreated));
    assert_eq!(nula_gui_emit_js(&reg, h, "1"), Err(GuiError::NotCreated));
    assert_eq!(nula_gui_run(&mut reg, h), Err(GuiError::NotCreated));
    assert_eq!(nula_gui_destroy(&mut reg, h), Err(GuiError::StillRunning));
}

#[test]
fn close_request_ends_run() {
    let mut reg = HostRegistry::new();
    let h = nula_gui_init(&mut reg, 800, 600).unwrap();
    assert_eq!(nula_gui_run(&mut reg, h), Ok(()));
    assert_eq!(loop_action(HostEvent::Other), LoopAction::Forward);
    assert_eq!(loop_action(HostEvent::CloseRequested), LoopAction::Exit);
    assert!(nula_gui_run_finished(&mut reg, h));
    assert_eq!(reg.phase(h), Some(HostPhase::Closed));
    assert!(!nula_gui_run_finished(&mut reg, h));
    assert_eq!(nula_gui_destroy(&mut reg, h), Ok(Released::HandleOnly));
}

#[test]
fn unknown_handle_is_refused() {
    let mut reg = HostRegistry::new();
    let h = GuiHandle { id: 7 };
    assert_eq!(nula_gui_run(&mut reg, h), Err(GuiError::InvalidHandle));
    assert_eq!(nula_gui_emit_js(&reg, h, "1"), Err(GuiError::InvalidHandle));
    assert!(!nula_gui_run_finished(&mut reg, h));
    assert_eq!(nula_gui_destroy(&mut reg, h), Err(GuiError::InvalidHandle));
}
