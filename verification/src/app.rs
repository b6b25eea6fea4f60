//! The app controller: which app is active, and what a button press does.

use vstd::prelude::*;
use crate::buttons::ButtonPress;
use crate::display::display_matrix::DisplayMatrix;
use crate::display::display_matrix::DisplayView;
use crate::display::matrix::dark;
use crate::display::request::text_request;
use crate::display::request::DISPLAY_OFFSET;
use crate::display::request::LAST_INDEX;

verus! {

/// How long the name of an app is held in the app picker, in milliseconds.
pub const PICKER_HOLD_MS: u64 = 1000;

/// Named struct for stopping app spawned tasks.
#[derive(Clone, Copy, Debug, PartialEq, Eq, Structural)]
pub struct StopAppTasks;

/// Named struct for showing the app switcher from within a task.
#[derive(Clone, Copy, Debug, PartialEq, Eq, Structural)]
pub struct ShowAppSwitcher;

/// All apps that can be switched too.
#[derive(Clone, Copy, Debug, PartialEq, Eq, Structural)]
pub enum Apps {
    /// The clock app.
    Clock,
    /// The pomodoro app.
    Pomodoro,
    /// The stopwatch app.
    Stopwatch,
    /// The alarm app.
    Alarm,
    /// The settings app.
    Settings,
}

/// What the caller does for the controller after a button press.
#[derive(Clone, Copy, Debug, PartialEq, Eq, Structural)]
pub enum ControllerAction {
    /// Nothing.
    Nothing,
    /// Start the app.
    Start(Apps),
    /// Stop the app, then show the app picker.
    Stop(Apps),
    /// Hand a short press of the top button to the app.
    ButtonOne(Apps),
    /// Hand a press of the middle button to the app.
    ButtonTwo(Apps, ButtonPress),
    /// Hand a press of the bottom button to the app.
    ButtonThree(Apps, ButtonPress),
}

/// The app after `app` in the app picker.
pub open spec fn app_after(app: Apps) -> Apps {
    match app {
        Apps::Clock => Apps::Pomodoro,
        Apps::Pomodoro => Apps::Stopwatch,
        Apps::Stopwatch => Apps::Alarm,
        Apps::Alarm => Apps::Settings,
        Apps::Settings => Apps::Clock,
    }
}

/// The app before `app` in the app picker.
pub open spec fn app_before(app: Apps) -> Apps {
    match app {
        Apps::Clock => Apps::Settings,
        Apps::Pomodoro => Apps::Clock,
        Apps::Stopwatch => Apps::Pomodoro,
        Apps::Alarm => Apps::Stopwatch,
        Apps::Settings => Apps::Alarm,
    }
}

/// The name of an app in the app picker.
pub open spec fn app_name(app: Apps) -> Seq<char> {
    match app {
        Apps::Clock => "Clock"@,
        Apps::Pomodoro => "Pomodoro"@,
        Apps::Stopwatch => "Stopwatch"@,
        Apps::Alarm => "Alarms"@,
        Apps::Settings => "Settings"@,
    }
}

/// The display after the app picker has shown the name of `app`: whatever was
/// shown or waited is cancelled, and the name waits alone.
pub open spec fn picker_shows(v: DisplayView, app: Apps) -> DisplayView {
    v.queued(
        text_request(
            app_name(app),
            PICKER_HOLD_MS,
            DISPLAY_OFFSET as int,
            LAST_INDEX as int,
            false,
        ),
        true,
    )
}

/// The display after the app picker was opened on `app`: everything is
/// cleared, icons included, and the name of the app waits alone.
pub open spec fn picker_opened(v: DisplayView, app: Apps) -> DisplayView {
    picker_shows(DisplayView { pixels: dark(), ..v.cancelled() }, app)
}

impl Apps {
    /// The name of the app for use in the app picker.
    pub fn get_name(&self) -> (name: &'static str)
        ensures
            name@ == app_name(*self),
    {
        match self {
            Apps::Clock => "Clock",
            Apps::Pomodoro => "Pomodoro",
            Apps::Stopwatch => "Stopwatch",
            Apps::Alarm => "Alarms",
            Apps::Settings => "Settings",
        }
    }

    /// The app after this one.
    pub fn next(&self) -> (app: Apps)
        ensures
            app == app_after(*self),
    {
        match self {
            Apps::Clock => Apps::Pomodoro,
            Apps::Pomodoro => Apps::Stopwatch,
            Apps::Stopwatch => Apps::Alarm,
            Apps::Alarm => Apps::Settings,
            Apps::Settings => Apps::Clock,
        }
    }

    /// The app before this one.
    pub fn previous(&self) -> (app: Apps)
        ensures
            app == app_before(*self),
    {
        match self {
            Apps::Clock => Apps::Settings,
            Apps::Pomodoro => Apps::Clock,
            Apps::Stopwatch => Apps::Pomodoro,
            Apps::Alarm => Apps::Stopwatch,
            Apps::Settings => Apps::Alarm,
        }
    }
}

/// App controller is responsible for managing apps by:
/// - Starting and stopping apps on user selection
/// - Forwarding button presses to active apps
/// - Handling the app switcher
#[derive(Clone, Copy, Debug, PartialEq, Eq, Structural)]
pub struct AppController {
    /// The current active app. This should be the one set even if viewing
    /// from the app switcher.
    pub active_app: Apps,
    /// Showing the app picker or not.
    pub showing_app_picker: bool,
}

impl AppController {
    /// Create a new app controller: the clock is active and the app picker is
    /// closed.
    pub fn new() -> (controller: AppController)
        ensures
            controller == (AppController { active_app: Apps::Clock, showing_app_picker: false }),
    {
        AppController { active_app: Apps::Clock, showing_app_picker: false }
    }

    /// Handle the top button press. A short press picks the app shown in the
    /// app picker, or goes to the active app. A long press asks for the app
    /// picker: the caller stops the active app and then shows the picker. A
    /// double press does nothing.
    pub fn button_one_press(&mut self, press: ButtonPress) -> (action: ControllerAction)
        ensures
            press == ButtonPress::Short && old(self).showing_app_picker ==> {
                &&& *final(self) == (AppController { showing_app_picker: false, ..*old(self) })
                &&& action == ControllerAction::Start(old(self).active_app)
            },
            press == ButtonPress::Short && !old(self).showing_app_picker ==> {
                &&& *final(self) == *old(self)
                &&& action == ControllerAction::ButtonOne(old(self).active_app)
            },
            press == ButtonPress::Long ==> {
                &&& *final(self) == *old(self)
                &&& action == ControllerAction::Stop(old(self).active_app)
            },
            press == ButtonPress::Double ==> {
                &&& *final(self) == *old(self)
                &&& action == ControllerAction::Nothing
            },
    {
        match press {
            ButtonPress::Short => {
                if self.showing_app_picker {
                    self.app_selected()
                } else {
                    ControllerAction::ButtonOne(self.active_app)
                }
            },
            ButtonPress::Long => ControllerAction::Stop(self.active_app),
            ButtonPress::Double => ControllerAction::Nothing,
        }
    }

    /// Handle the middle button press: the next app in the app picker, or
    /// the press goes to the active app.
    pub fn button_two_press(&mut self, press: ButtonPress, display: &mut DisplayMatrix) -> (action:
        ControllerAction)
        requires
            old(display).wf(),
        ensures
            final(display).wf(),
            old(self).showing_app_picker ==> {
                &&& *final(self) == (AppController {
                    active_app: app_after(old(self).active_app),
                    ..*old(self)
                })
                &&& action == ControllerAction::Nothing
                &&& final(display)@ == picker_shows(old(display)@, app_after(old(self).active_app))
            },
            !old(self).showing_app_picker ==> {
                &&& *final(self) == *old(self)
                &&& action == ControllerAction::ButtonTwo(old(self).active_app, press)
                &&& final(display)@ == old(display)@
            },
    {
        if self.showing_app_picker {
            self.show_next_app(display);
            return ControllerAction::Nothing;
        }
        ControllerAction::ButtonTwo(self.active_app, press)
    }

    /// Handle the bottom button press: the previous app in the app picker,
    /// or the press goes to the active app.
    pub fn button_three_press(&mut self, press: ButtonPress, display: &mut DisplayMatrix) -> (action:
        ControllerAction)
        requires
            old(display).wf(),
        ensures
            final(display).wf(),
            old(self).showing_app_picker ==> {
                &&& *final(self) == (AppController {
                    active_app: app_before(old(self).active_app),
                    ..*old(self)
                })
                &&& action == ControllerAction::Nothing
                &&& final(display)@ == picker_shows(
                    old(display)@,
                    app_before(old(self).active_app),
                )
            },
            !old(self).showing_app_picker ==> {
                &&& *final(self) == *old(self)
                &&& action == ControllerAction::ButtonThree(old(self).active_app, press)
                &&& final(display)@ == old(display)@
            },
    {
        if self.showing_app_picker {
            self.show_previous_app(display);
            return ControllerAction::Nothing;
        }
        ControllerAction::ButtonThree(self.active_app, press)
    }

    /// Show the app picker, once the caller has stopped the active app: the
    /// display is cleared, icons included, and the name of the next app is
    /// shown.
    pub fn show_app_picker(&mut self, display: &mut DisplayMatrix)
        requires
            old(display).wf(),
        ensures
            final(display).wf(),
            *final(self) == (AppController {
                showing_app_picker: true,
                active_app: app_after(old(self).active_app),
            }),
            final(display)@ == picker_opened(old(display)@, app_after(old(self).active_app)),
    {
        self.showing_app_picker = true;
        display.clear_all(true);
        self.show_next_app(display);
    }

    /// Show the next app text in the display.
    pub fn show_next_app(&mut self, display: &mut DisplayMatrix)
        requires
            old(display).wf(),
        ensures
            final(display).wf(),
            *final(self) == (AppController {
                active_app: app_after(old(self).active_app),
                ..*old(self)
            }),
            final(display)@ == picker_shows(old(display)@, app_after(old(self).active_app)),
    {
        let next = self.active_app.next();
        let _ = display.queue_text(next.get_name(), PICKER_HOLD_MS, true, false);
        self.active_app = next;
    }

    /// Show the previous app text in the display.
    pub fn show_previous_app(&mut self, display: &mut DisplayMatrix)
        requires
            old(display).wf(),
        ensures
            final(display).wf(),
            *final(self) == (AppController {
                active_app: app_before(old(self).active_app),
                ..*old(self)
            }),
            final(display)@ == picker_shows(old(display)@, app_before(old(self).active_app)),
    {
        let previous = self.active_app.previous();
        let _ = display.queue_text(previous.get_name(), PICKER_HOLD_MS, true, false);
        self.active_app = previous;
    }

    /// Dismiss the app picker; the caller starts the active app.
    pub fn app_selected(&mut self) -> (action: ControllerAction)
        ensures
            *final(self) == (AppController { showing_app_picker: false, ..*old(self) }),
            action == ControllerAction::Start(old(self).active_app),
    {
        self.showing_app_picker = false;
        ControllerAction::Start(self.active_app)
    }
}

/// Going to the next app and then to the previous one, or the other way
/// round, leads back; five steps forward lead all the way round.
pub proof fn lemma_picker_round_trip(app: Apps)
    ensures
        app_before(app_after(app)) == app,
        app_after(app_before(app)) == app,
        app_after(app_after(app_after(app_after(app_after(app))))) == app,
{
}

} // verus!
