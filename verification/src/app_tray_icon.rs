//! The tray controller.
//!
//! The tray is an icon with a menu of two items. [`app_tray_icon`] says what
//! that tray consists of; building it is the caller's part. The two
//! handlers that the platform calls back run on a thread of its own and
//! never touch the application's state: all they do is decide, with
//! [`TrayController`], what an event asks for. The answer is a
//! [`TrayAction`]: an event to push onto the bridge, the end of the
//! process, or nothing.

use tray_icon::menu::MenuEvent;
use tray_icon::TrayIconEvent;
use vstd::prelude::*;

use crate::bridge::BridgeEvent;
use crate::handle::{valid_raw, HandleKind};
use crate::platform::{load_icon_from_exe, spec_extract_icon, IconExtractionError};

verus! {

/// Width and height of the placeholder icon, in pixels.
pub const PLACEHOLDER_SIDE: u32 = 16;

/// Bytes of one pixel of an icon image: red, green, blue, alpha.
pub const BYTES_PER_PIXEL: usize = 4;

/// Bytes of the placeholder icon's image.
pub const PLACEHOLDER_BYTES: usize = 1024;

/// `tray_icon::TrayIconEvent`, the event that the tray library hands to the
/// handler of the tray icon. Nothing is claimed of what it holds.
#[verifier::external_type_specification]
#[verifier::external_body]
pub struct ExTrayIconEvent(TrayIconEvent);

/// `tray_icon::menu::MenuEvent`, the event that the tray library hands to
/// the handler of the menu. Nothing is claimed of what it holds.
#[verifier::external_type_specification]
#[verifier::external_body]
pub struct ExMenuEvent(MenuEvent);

/// A mouse button.
#[derive(Clone, Copy, Debug, PartialEq, Eq, Structural)]
pub enum MouseButton {
    Left,
    Right,
    Middle,
}

/// Whether a button went down or came up.
#[derive(Clone, Copy, Debug, PartialEq, Eq, Structural)]
pub enum MouseButtonState {
    Up,
    Down,
}

/// An event on the tray icon, as far as the controller reads it.
#[derive(Clone, Copy, Debug, PartialEq, Eq, Structural)]
pub enum TrayEvent {
    /// A button changed state over the icon.
    Click { button: MouseButton, button_state: MouseButtonState },
    /// Anything else: a double click, or the pointer entering, moving over or leaving the icon.
    Other,
}

/// What a handler has to do for an event of the tray or its menu.
#[derive(Clone, Copy, Debug, PartialEq, Eq, Structural)]
pub enum TrayAction {
    /// Send the event over the bridge. A send that fails because the
    /// receiving side is gone means that the process is shutting down and
    /// is not an error.
    Push(BridgeEvent),
    /// End the process at once.
    Quit,
    /// Nothing.
    Ignore,
}

/// One item of the tray's menu.
#[derive(Debug, PartialEq, Eq)]
pub struct MenuEntry {
    pub text: String,
    pub enabled: bool,
}

/// Where the tray's icon comes from.
#[derive(Debug, PartialEq, Eq)]
pub enum TrayIconSource {
    /// A native icon whose handle the tray owns from now on.
    Native { handle: isize },
    /// An image of `width` by `height` pixels, four bytes each.
    Rgba { rgba: Vec<u8>, width: u32, height: u32 },
}

/// What the tray consists of.
#[derive(Debug, PartialEq, Eq)]
pub struct TrayPlan {
    pub tooltip: String,
    pub icon: TrayIconSource,
    pub menu: Vec<MenuEntry>,
    pub menu_on_left_click: bool,
}

/// The menu items by which the controller tells the menu's events apart.
#[derive(Debug, PartialEq, Eq)]
pub struct TrayController {
    pub new_window_id: String,
    pub quit_id: String,
}

/// A tray icon's source as a value.
pub enum IconModel {
    Native { handle: isize },
    Rgba { rgba: Seq<u8>, width: u32, height: u32 },
}

/// A tray as a value.
pub struct TrayModel {
    pub tooltip: Seq<char>,
    pub icon: IconModel,
    pub menu: Seq<(Seq<char>, bool)>,
    pub menu_on_left_click: bool,
}

impl View for MenuEntry {
    type V = (Seq<char>, bool);

    open spec fn view(&self) -> (Seq<char>, bool) {
        (self.text@, self.enabled)
    }
}

impl View for TrayIconSource {
    type V = IconModel;

    open spec fn view(&self) -> IconModel {
        match *self {
            TrayIconSource::Native { handle } => IconModel::Native { handle },
            TrayIconSource::Rgba { rgba, width, height } => IconModel::Rgba {
                rgba: rgba@,
                width,
                height,
            },
        }
    }
}

impl View for TrayPlan {
    type V = TrayModel;

    open spec fn view(&self) -> TrayModel {
        TrayModel {
            tooltip: self.tooltip@,
            icon: self.icon@,
            menu: self.menu@.map_values(|item: MenuEntry| item@),
            menu_on_left_click: self.menu_on_left_click,
        }
    }
}

impl IconModel {
    /// A native icon has a handle that names an icon; an image holds
    /// exactly four bytes for each of its pixels.
    pub open spec fn well_formed(self) -> bool {
        match self {
            IconModel::Native { handle } => valid_raw(HandleKind::Icon, handle),
            IconModel::Rgba { rgba, width, height } => rgba.len() == BYTES_PER_PIXEL * width * height,
        }
    }
}

/// The placeholder icon: 16 by 16 pixels, all of them transparent black.
pub open spec fn placeholder_model() -> IconModel {
    IconModel::Rgba {
        rgba: Seq::new(PLACEHOLDER_BYTES as nat, |i: int| 0u8),
        width: PLACEHOLDER_SIDE,
        height: PLACEHOLDER_SIDE,
    }
}

/// The tray with the given icon: a tooltip, the items "New Window" and
/// "Quit", both enabled, and a menu that a left click does not open.
pub open spec fn tray_model(icon: IconModel) -> TrayModel {
    TrayModel {
        tooltip: "Click to toggle window visibility"@,
        icon,
        menu: seq![("New Window"@, true), ("Quit"@, true)],
        menu_on_left_click: false,
    }
}

/// What an event on the tray icon asks for: the release of the left button
/// toggles the windows; a button going down, another button and every
/// other event ask for nothing.
pub open spec fn tray_action(event: TrayEvent) -> TrayAction {
    if event == (TrayEvent::Click { button: MouseButton::Left, button_state: MouseButtonState::Up }) {
        TrayAction::Push(BridgeEvent::ToggleVisibility)
    } else {
        TrayAction::Ignore
    }
}

/// What the choice of the menu item `id` asks for, in a menu whose items
/// have the ids `new_window_id` and `quit_id`. Where the two ids are the
/// same, the item counts as "New Window".
pub open spec fn menu_action(new_window_id: Seq<char>, quit_id: Seq<char>, id: Seq<char>) -> TrayAction {
    if id == new_window_id {
        TrayAction::Push(BridgeEvent::SpawnWindow)
    } else if id == quit_id {
        TrayAction::Quit
    } else {
        TrayAction::Ignore
    }
}

/// What a `tray_icon::TrayIconEvent` holds, as the controller reads it: the
/// button and the button state of its `Click` variant, and `Other` for
/// every other variant.
pub uninterp spec fn tray_event_read(event: TrayIconEvent) -> TrayEvent;

/// Reads a `tray_icon::TrayIconEvent`: the result is what the value holds.
/// Its `Click` variant comes back as a `Click` with the same button and the
/// same button state, each variant of the two outside enums as the variant
/// of that name here; every other variant comes back as `Other`.
#[verifier::external_body]
fn read_tray_icon_event(event: &TrayIconEvent) -> (read: TrayEvent)
    ensures
        read == tray_event_read(*event),
{
    match event {
        TrayIconEvent::Click { button, button_state, .. } => TrayEvent::Click {
            button: match button {
                tray_icon::MouseButton::Left => MouseButton::Left,
                tray_icon::MouseButton::Right => MouseButton::Right,
                tray_icon::MouseButton::Middle => MouseButton::Middle,
            },
            button_state: match button_state {
                tray_icon::MouseButtonState::Up => MouseButtonState::Up,
                tray_icon::MouseButtonState::Down => MouseButtonState::Down,
            },
        },
        _ => TrayEvent::Other,
    }
}

/// What a `tray_icon::menu::MenuEvent` holds, as the controller reads it:
/// the text of its `id`, the id of the menu item that was chosen.
pub uninterp spec fn menu_event_id(event: MenuEvent) -> Seq<char>;

/// Reads a `tray_icon::menu::MenuEvent`: the result is a copy of the text
/// of its `id`, the id of the menu item that was chosen.
#[verifier::external_body]
fn read_menu_event_id(event: &MenuEvent) -> (id: String)
    ensures
        id@ == menu_event_id(*event),
{
    event.id.0.clone()
}

/// The placeholder icon.
pub fn placeholder_icon() -> (icon: TrayIconSource)
    ensures
        icon@ == placeholder_model(),
        icon@.well_formed(),
{
    let rgba: Vec<u8> = vec![0u8; PLACEHOLDER_BYTES];
    assert(rgba@ =~= Seq::new(PLACEHOLDER_BYTES as nat, |i: int| 0u8));
    assert(BYTES_PER_PIXEL * PLACEHOLDER_SIDE * PLACEHOLDER_SIDE == PLACEHOLDER_BYTES) by (nonlinear_arith);
    TrayIconSource::Rgba { rgba, width: PLACEHOLDER_SIDE, height: PLACEHOLDER_SIDE }
}

/// Describes the application's tray.
///
/// On Windows the icon is that of the running executable:
/// `extracted` holds what the extraction call answered, the number of icons
/// it reported and the handle it left behind, and a failed extraction fails
/// the tray. Elsewhere `extracted` is `None` and the icon is the
/// placeholder.
pub fn app_tray_icon(extracted: Option<(u32, isize)>) -> (r: Result<TrayPlan, IconExtractionError>)
    ensures
        match extracted {
            None => r matches Ok(tray) && tray@ == tray_model(placeholder_model()),
            Some((count, raw)) => match spec_extract_icon(count, raw) {
                Ok(handle) => r matches Ok(tray) && tray@ == tray_model(IconModel::Native { handle }),
                Err(e) => r matches Err(err) && err == e,
            },
        },
        r matches Ok(tray) ==> tray@.icon.well_formed(),
{
    let icon = match extracted {
        None => placeholder_icon(),
        Some((count, raw)) => match load_icon_from_exe(count, raw) {
            Ok(handle) => TrayIconSource::Native { handle },
            Err(e) => {
                return Err(e);
            },
        },
    };
    let mut menu: Vec<MenuEntry> = Vec::new();
    menu.push(MenuEntry { text: "New Window".to_owned(), enabled: true });
    menu.push(MenuEntry { text: "Quit".to_owned(), enabled: true });
    let tray = TrayPlan {
        tooltip: "Click to toggle window visibility".to_owned(),
        icon,
        menu,
        menu_on_left_click: false,
    };
    assert(tray@.menu =~= seq![("New Window"@, true), ("Quit"@, true)]);
    Ok(tray)
}

impl TrayController {
    /// The controller of a menu whose "New Window" item has the id
    /// `new_window_id` and whose "Quit" item has the id `quit_id`.
    pub fn new(new_window_id: String, quit_id: String) -> (controller: TrayController)
        ensures
            controller.new_window_id@ == new_window_id@,
            controller.quit_id@ == quit_id@,
    {
        TrayController { new_window_id, quit_id }
    }

    /// The controller of a menu that was built from the entries of
    /// [`app_tray_icon`]: `ids` holds the id that each entry was given, in
    /// the order of the entries. Any other number of ids is refused.
    pub fn for_menu(ids: Vec<String>) -> (controller: Option<TrayController>)
        ensures
            controller is Some <==> ids@.len() == 2,
            controller matches Some(c) ==> c.new_window_id@ == ids@[0]@ && c.quit_id@ == ids@[1]@,
    {
        let mut ids = ids;
        if ids.len() != 2 {
            return None;
        }
        match ids.pop() {
            Some(quit_id) => match ids.pop() {
                Some(new_window_id) => Some(TrayController { new_window_id, quit_id }),
                None => None,
            },
            None => None,
        }
    }

    /// Decides what an event on the tray icon asks for.
    pub fn on_tray_event(event: &TrayEvent) -> (action: TrayAction)
        ensures
            action == tray_action(*event),
    {
        match event {
            TrayEvent::Click { button: MouseButton::Left, button_state: MouseButtonState::Up } => {
                TrayAction::Push(BridgeEvent::ToggleVisibility)
            },
            _ => TrayAction::Ignore,
        }
    }

    /// Decides what the choice of the menu item with the id `id` asks for.
    pub fn on_menu_id(&self, id: &String) -> (action: TrayAction)
        ensures
            action == menu_action(self.new_window_id@, self.quit_id@, id@),
    {
        if *id == self.new_window_id {
            TrayAction::Push(BridgeEvent::SpawnWindow)
        } else if *id == self.quit_id {
            TrayAction::Quit
        } else {
            TrayAction::Ignore
        }
    }

    /// The handler of the tray icon's events: reads the event that the
    /// tray library delivers and decides on it as [`Self::on_tray_event`]
    /// does, so that the release of the left button toggles and nothing
    /// else does. Whatever the event, the answer is to toggle or to do
    /// nothing.
    pub fn handle_tray_event(event: &TrayIconEvent) -> (action: TrayAction)
        ensures
            action == tray_action(tray_event_read(*event)),
            action == TrayAction::Push(BridgeEvent::ToggleVisibility) || action == TrayAction::Ignore,
    {
        let read = read_tray_icon_event(event);
        Self::on_tray_event(&read)
    }

    /// The handler of the menu's events: reads the id of the chosen item
    /// from the event that the tray library delivers and decides on it as
    /// [`Self::on_menu_id`] does, so that "New Window" asks for a spawn,
    /// "Quit" ends the process and any other item asks for nothing.
    /// Whatever the event, the answer is never to toggle.
    pub fn handle_menu_event(&self, event: &MenuEvent) -> (action: TrayAction)
        ensures
            action == menu_action(self.new_window_id@, self.quit_id@, menu_event_id(*event)),
            action != TrayAction::Push(BridgeEvent::ToggleVisibility),
    {
        let id = read_menu_event_id(event);
        self.on_menu_id(&id)
    }
}

} // verus!
