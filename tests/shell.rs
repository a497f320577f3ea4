use radar_shell::{MyApp, UiEvent, ViewportCommand};

fn all_off() -> MyApp {
    MyApp {
        show_config: false,
        motion_detection_enabled: false,
        gain_control_enabled: false,
        clutter_removal_enabled: false,
    }
}

#[test]
fn starts_with_everything_off() {
    let app = MyApp::new();
    assert!(!app.show_config);
    assert!(!app.motion_detection_enabled);
    assert!(!app.gain_control_enabled);
    assert!(!app.clutter_removal_enabled);
    assert!(!app.popup_visible());
    assert_eq!(MyApp::default(), app);
}

#[test]
fn config_item_opens_and_close_request_hides_popup() {
    let mut app = MyApp::new();
    assert_eq!(app.on_event(UiEvent::MenuConfig), None);
    assert!(app.show_config);
    assert!(app.popup_visible());
    assert_eq!(app.on_event(UiEvent::ConfigCloseRequested), None);
    assert!(!app.show_config);
    assert_eq!(app, all_off());
}

#[test]
fn each_checkbox_flips_only_its_flag() {
    let mut app = MyApp::new();
    app.on_event(UiEvent::MenuConfig);

    app.on_event(UiEvent::ToggleMotionDetection);
    assert_eq!(app, MyApp { show_config: true, motion_detection_enabled: true, ..all_off() });
    app.on_event(UiEvent::ToggleMotionDetection);
    assert_eq!(app, MyApp { show_config: true, ..all_off() });

    app.on_event(UiEvent::ToggleGainControl);
    assert_eq!(app, MyApp { show_config: true, gain_control_enabled: true, ..all_off() });
    app.on_event(UiEvent::ToggleGainControl);
    assert_eq!(app, MyApp { show_config: true, ..all_off() });

    app.on_event(UiEvent::ToggleClutterRemoval);
    assert_eq!(app, MyApp { show_config: true, clutter_removal_enabled: true, ..all_off() });
    app.on_event(UiEvent::ToggleClutterRemoval);
    assert_eq!(app, MyApp { show_config: true, ..all_off() });
}

#[test]
fn checkboxes_do_nothing_while_popup_hidden() {
    let mut app = MyApp::new();
    assert_eq!(app.on_event(UiEvent::ToggleMotionDetection), None);
    assert_eq!(app.on_event(UiEvent::ToggleGainControl), None);
    assert_eq!(app.on_event(UiEvent::ToggleClutterRemoval), None);
    assert_eq!(app, all_off());
}

#[test]
fn save_sends_one_screenshot_and_keeps_flags() {
    let mut app = MyApp { show_config: true, gain_control_enabled: true, ..all_off() };
    let before = app;
    let sent = app.on_events(&vec![UiEvent::MenuSave]);
    assert_eq!(sent, vec![ViewportCommand::Screenshot]);
    assert_eq!(app, before);
}

#[test]
fn menu_enable_sets_only_motion_detection() {
    let mut app = MyApp::new();
    assert_eq!(app.on_event(UiEvent::MenuEnable), None);
    assert_eq!(app, MyApp { motion_detection_enabled: true, ..all_off() });
    // Choosing it again keeps the flag on.
    app.on_event(UiEvent::MenuEnable);
    assert!(app.motion_detection_enabled);
}

#[test]
fn menu_open_is_a_placeholder() {
    let mut app = MyApp { clutter_removal_enabled: true, ..all_off() };
    let before = app;
    assert_eq!(app.on_event(UiEvent::MenuOpen), None);
    assert_eq!(app, before);
}

#[test]
fn config_menu_items_switch_flags_on() {
    let mut app = MyApp::new();
    app.on_event(UiEvent::MenuGainControl);
    assert_eq!(app, MyApp { gain_control_enabled: true, ..all_off() });
    app.on_event(UiEvent::MenuClutterRemoval);
    assert_eq!(
        app,
        MyApp { gain_control_enabled: true, clutter_removal_enabled: true, ..all_off() }
    );
}

#[test]
fn file_and_edit_items_send_their_commands() {
    let mut app = MyApp::new();
    assert_eq!(app.on_event(UiEvent::MenuClose), Some(ViewportCommand::Close));
    assert_eq!(app.on_event(UiEvent::MenuCopy), Some(ViewportCommand::RequestCopy));
    assert_eq!(app.on_event(UiEvent::MenuCut), Some(ViewportCommand::RequestCut));
    assert_eq!(app.on_event(UiEvent::MenuPaste), Some(ViewportCommand::RequestPaste));
    assert_eq!(app, all_off());
}

#[test]
fn a_frame_of_events_applies_in_order() {
    let mut app = MyApp::new();
    let events = vec![
        UiEvent::MenuConfig,
        UiEvent::MenuCopy,
        UiEvent::ToggleGainControl,
        UiEvent::MenuOpen,
        UiEvent::MenuSave,
        UiEvent::ConfigCloseRequested,
        UiEvent::ToggleClutterRemoval,
        UiEvent::MenuPaste,
    ];
    let sent = app.on_events(&events);
    assert_eq!(
        sent,
        vec![
            ViewportCommand::RequestCopy,
            ViewportCommand::Screenshot,
            ViewportCommand::RequestPaste
        ]
    );
    assert_eq!(app, MyApp { gain_control_enabled: true, ..all_off() });
}

#[test]
fn an_empty_frame_changes_nothing() {
    let mut app = MyApp { show_config: true, motion_detection_enabled: true, ..all_off() };
    let before = app;
    assert!(app.on_events(&Vec::new()).is_empty());
    assert_eq!(app, before);
}
