use vstd::prelude::*;

use crate::command::ViewportCommand;

verus! {

/// What the user did in one frame, as far as the shell's state and commands
/// are concerned. Menu items are those of the menu row; the toggles and the
/// close request belong to the configuration pop-up.
#[derive(Clone, Copy, Debug, PartialEq, Eq, Structural)]
pub enum UiEvent {
    /// File / Open: a placeholder with no effect.
    MenuOpen,
    /// File / Save: capture a screenshot.
    MenuSave,
    /// File / Close: close the main window.
    MenuClose,
    /// Config / Motion detection / enable.
    MenuEnable,
    /// Config / Motion detection / gain control.
    MenuGainControl,
    /// Config / Vital signs / clutter removal.
    MenuClutterRemoval,
    /// Config / Config..: open the configuration pop-up.
    MenuConfig,
    /// Edit / Copy.
    MenuCopy,
    /// Edit / Cut.
    MenuCut,
    /// Edit / Paste.
    MenuPaste,
    /// The pop-up's "enable" checkbox was clicked.
    ToggleMotionDetection,
    /// The pop-up's "gain control" checkbox was clicked.
    ToggleGainControl,
    /// The pop-up's "clutter removal" checkbox was clicked.
    ToggleClutterRemoval,
    /// The host asked to close the pop-up.
    ConfigCloseRequested,
}

/// The application state: whether the configuration pop-up is shown, and
/// three user-toggled flags. The pop-up is on screen exactly while
/// `show_config` holds.
#[derive(Clone, Copy, Debug, PartialEq, Eq, Structural)]
pub struct MyApp {
    pub show_config: bool,
    pub motion_detection_enabled: bool,
    pub gain_control_enabled: bool,
    pub clutter_removal_enabled: bool,
}

/// The command that an event sends to the host, if any. Only menu items of
/// the File and Edit menus send one; no event's command depends on the state.
pub open spec fn command_spec(e: UiEvent) -> Option<ViewportCommand> {
    match e {
        UiEvent::MenuSave => Some(ViewportCommand::Screenshot),
        UiEvent::MenuClose => Some(ViewportCommand::Close),
        UiEvent::MenuCopy => Some(ViewportCommand::RequestCopy),
        UiEvent::MenuCut => Some(ViewportCommand::RequestCut),
        UiEvent::MenuPaste => Some(ViewportCommand::RequestPaste),
        _ => None,
    }
}

/// The commands that a sequence of events sends, in order.
pub open spec fn commands_spec(es: Seq<UiEvent>) -> Seq<ViewportCommand>
    decreases es.len(),
{
    if es.len() == 0 {
        Seq::empty()
    } else {
        let before = commands_spec(es.drop_last());
        match command_spec(es.last()) {
            Some(c) => before.push(c),
            None => before,
        }
    }
}

impl MyApp {
    /// The state at start-up: pop-up hidden, every flag off.
    pub open spec fn initial() -> MyApp {
        MyApp {
            show_config: false,
            motion_detection_enabled: false,
            gain_control_enabled: false,
            clutter_removal_enabled: false,
        }
    }

    /// The state after event `e`. Menu items of the Config menu switch their
    /// flag on (or show the pop-up); the pop-up's checkboxes flip their flag
    /// and its close request hides it, but only while it is shown; nothing
    /// else changes the state.
    pub open spec fn next_spec(self, e: UiEvent) -> MyApp {
        match e {
            UiEvent::MenuEnable => MyApp { motion_detection_enabled: true, ..self },
            UiEvent::MenuGainControl => MyApp { gain_control_enabled: true, ..self },
            UiEvent::MenuClutterRemoval => MyApp { clutter_removal_enabled: true, ..self },
            UiEvent::MenuConfig => MyApp { show_config: true, ..self },
            UiEvent::ToggleMotionDetection => if self.show_config {
                MyApp { motion_detection_enabled: !self.motion_detection_enabled, ..self }
            } else {
                self
            },
            UiEvent::ToggleGainControl => if self.show_config {
                MyApp { gain_control_enabled: !self.gain_control_enabled, ..self }
            } else {
                self
            },
            UiEvent::ToggleClutterRemoval => if self.show_config {
                MyApp { clutter_removal_enabled: !self.clutter_removal_enabled, ..self }
            } else {
                self
            },
            UiEvent::ConfigCloseRequested => MyApp { show_config: false, ..self },
            _ => self,
        }
    }

    /// The state after the events `es`, taken in order.
    pub open spec fn run_spec(self, es: Seq<UiEvent>) -> MyApp
        decreases es.len(),
    {
        if es.len() == 0 {
            self
        } else {
            self.run_spec(es.drop_last()).next_spec(es.last())
        }
    }

    /// A new shell in its start-up state.
    pub fn new() -> (r: MyApp)
        ensures
            r == MyApp::initial(),
    {
        MyApp {
            show_config: false,
            motion_detection_enabled: false,
            gain_control_enabled: false,
            clutter_removal_enabled: false,
        }
    }

    /// Whether the configuration pop-up is to be shown.
    pub fn popup_visible(&self) -> (r: bool)
        ensures
            r == self.show_config,
    {
        self.show_config
    }

    /// Applies one event to the state and returns the command it sends to the
    /// host, if any.
    pub fn on_event(&mut self, e: UiEvent) -> (r: Option<ViewportCommand>)
        ensures
            *final(self) == old(self).next_spec(e),
            r == command_spec(e),
    {
        match e {
            UiEvent::MenuOpen => None,
            UiEvent::MenuSave => Some(ViewportCommand::Screenshot),
            UiEvent::MenuClose => Some(ViewportCommand::Close),
            UiEvent::MenuEnable => {
                self.motion_detection_enabled = true;
                None
            },
            UiEvent::MenuGainControl => {
                self.gain_control_enabled = true;
                None
            },
            UiEvent::MenuClutterRemoval => {
                self.clutter_removal_enabled = true;
                None
            },
            UiEvent::MenuConfig => {
                self.show_config = true;
                None
            },
            UiEvent::MenuCopy => Some(ViewportCommand::RequestCopy),
            UiEvent::MenuCut => Some(ViewportCommand::RequestCut),
            UiEvent::MenuPaste => Some(ViewportCommand::RequestPaste),
            UiEvent::ToggleMotionDetection => {
                if self.show_config {
                    self.motion_detection_enabled = !self.motion_detection_enabled;
                }
                None
            },
            UiEvent::ToggleGainControl => {
                if self.show_config {
                    self.gain_control_enabled = !self.gain_control_enabled;
                }
                None
            },
            UiEvent::ToggleClutterRemoval => {
                if self.show_config {
                    self.clutter_removal_enabled = !self.clutter_removal_enabled;
                }
                None
            },
            UiEvent::ConfigCloseRequested => {
                self.show_config = false;
                None
            },
        }
    }

    /// Applies one frame's events in order and returns the commands they send
    /// to the host, in order.
    pub fn on_events(&mut self, es: &Vec<UiEvent>) -> (r: Vec<ViewportCommand>)
        ensures
            *final(self) == old(self).run_spec(es@),
            r@ == commands_spec(es@),
    {
        let ghost start = *self;
        let mut out: Vec<ViewportCommand> = Vec::new();
        let mut i: usize = 0;
        while i < es.len()
            invariant
                i <= es@.len(),
                *self == start.run_spec(es@.subrange(0, i as int)),
                out@ == commands_spec(es@.subrange(0, i as int)),
            decreases es@.len() - i,
        {
            let e = es[i];
            let c = self.on_event(e);
            if let Some(c) = c {
                out.push(c);
            }
            proof {
                let next = es@.subrange(0, i + 1);
                assert(next.drop_last() =~= es@.subrange(0, i as int));
                assert(next.last() == e);
            }
            i = i + 1;
        }
        assert(es@.subrange(0, es@.len() as int) =~= es@);
        out
    }
}

/// The shell starts with the pop-up hidden and every flag off, and sends
/// nothing until an event arrives.
pub proof fn lemma_initial_all_off()
    ensures
        !MyApp::initial().show_config,
        !MyApp::initial().motion_detection_enabled,
        !MyApp::initial().gain_control_enabled,
        !MyApp::initial().clutter_removal_enabled,
        MyApp::initial().run_spec(Seq::empty()) == MyApp::initial(),
        commands_spec(Seq::empty()).len() == 0,
{
}

/// Choosing "Config.." shows the pop-up, and a close request then hides it
/// again; the flags are the same as before, and no command is sent.
pub proof fn lemma_config_opens_then_closes(s: MyApp)
    ensures
        s.next_spec(UiEvent::MenuConfig).show_config,
        !s.next_spec(UiEvent::MenuConfig).next_spec(UiEvent::ConfigCloseRequested).show_config,
        s.run_spec(seq![UiEvent::MenuConfig, UiEvent::ConfigCloseRequested]) == (MyApp {
            show_config: false,
            ..s
        }),
        commands_spec(seq![UiEvent::MenuConfig, UiEvent::ConfigCloseRequested]).len() == 0,
{
    let es = seq![UiEvent::MenuConfig, UiEvent::ConfigCloseRequested];
    let one = seq![UiEvent::MenuConfig];
    assert(es.drop_last() =~= one);
    assert(one.drop_last() =~= Seq::<UiEvent>::empty());
    assert(one.last() == UiEvent::MenuConfig);
    assert(s.run_spec(one.drop_last()) == s);
    assert(s.run_spec(one) == s.next_spec(UiEvent::MenuConfig));
    assert(es.last() == UiEvent::ConfigCloseRequested);
    assert(commands_spec(one.drop_last()).len() == 0);
    assert(commands_spec(one).len() == 0);
}

/// While the pop-up is shown, clicking one of its checkboxes flips exactly
/// that flag: the other flags and the pop-up's visibility stay, and no
/// command is sent.
pub proof fn lemma_toggle_flips_one(s: MyApp)
    requires
        s.show_config,
    ensures
        s.next_spec(UiEvent::ToggleMotionDetection) == (MyApp {
            motion_detection_enabled: !s.motion_detection_enabled,
            ..s
        }),
        s.next_spec(UiEvent::ToggleGainControl) == (MyApp {
            gain_control_enabled: !s.gain_control_enabled,
            ..s
        }),
        s.next_spec(UiEvent::ToggleClutterRemoval) == (MyApp {
            clutter_removal_enabled: !s.clutter_removal_enabled,
            ..s
        }),
        (command_spec(UiEvent::ToggleMotionDetection) is None),
        (command_spec(UiEvent::ToggleGainControl) is None),
        (command_spec(UiEvent::ToggleClutterRemoval) is None),
{
}

/// Clicking a checkbox twice leaves every flag as it was.
pub proof fn lemma_toggle_twice_restores(s: MyApp, e: UiEvent)
    requires
        e == UiEvent::ToggleMotionDetection || e == UiEvent::ToggleGainControl || e
            == UiEvent::ToggleClutterRemoval,
    ensures
        s.next_spec(e).next_spec(e) == s,
{
}

/// "Save" changes no part of the state and sends exactly one command, a
/// screenshot request, after whatever the events before it sent.
pub proof fn lemma_save_requests_one_screenshot(s: MyApp, es: Seq<UiEvent>)
    ensures
        s.next_spec(UiEvent::MenuSave) == s,
        s.run_spec(es.push(UiEvent::MenuSave)) == s.run_spec(es),
        commands_spec(es.push(UiEvent::MenuSave)) == commands_spec(es).push(
            ViewportCommand::Screenshot,
        ),
        commands_spec(seq![UiEvent::MenuSave]) == seq![ViewportCommand::Screenshot],
{
    assert(es.push(UiEvent::MenuSave).drop_last() =~= es);
    let one = seq![UiEvent::MenuSave];
    assert(one.drop_last() =~= Seq::<UiEvent>::empty());
    assert(commands_spec(one) == commands_spec(Seq::<UiEvent>::empty()).push(
        ViewportCommand::Screenshot,
    ));
    assert(commands_spec(one) =~= seq![ViewportCommand::Screenshot]);
}

/// The menu row's "enable" item switches motion detection on and does
/// nothing else: the other flags and the pop-up's visibility stay, and no
/// command is sent.
pub proof fn lemma_menu_enable_sets_motion_detection(s: MyApp)
    ensures
        s.next_spec(UiEvent::MenuEnable) == (MyApp { motion_detection_enabled: true, ..s }),
        (command_spec(UiEvent::MenuEnable) is None),
{
}

impl Default for MyApp {
    fn default() -> (r: MyApp)
        ensures
            r == MyApp::initial(),
    {
        MyApp::new()
    }
}

} // verus!
