//! Which chord of modifier keys and pointer button starts which action of
//! the canvas, together with the canvas's other settings.

use vstd::prelude::*;
use crate::grid::SnapGrid;

verus! {

/// The modifier keys held down.
#[derive(Clone, Copy, Debug, PartialEq, Eq, Structural)]
pub struct Modifiers {
    /// Either alt key.
    pub alt: bool,
    /// Either control key.
    pub ctrl: bool,
    /// Either shift key.
    pub shift: bool,
    /// The command key of a Mac; `false` elsewhere.
    pub mac_cmd: bool,
    /// The key for shortcuts: command on a Mac, control elsewhere.
    pub command: bool,
}

impl Modifiers {
    /// No modifier key.
    pub open spec fn none_value() -> Modifiers {
        Modifiers { alt: false, ctrl: false, shift: false, mac_cmd: false, command: false }
    }

    /// Shift alone.
    pub open spec fn shift_value() -> Modifiers {
        Modifiers { alt: false, ctrl: false, shift: true, mac_cmd: false, command: false }
    }

    /// The shortcut key alone.
    pub open spec fn command_value() -> Modifiers {
        Modifiers { alt: false, ctrl: false, shift: false, mac_cmd: false, command: true }
    }

    /// No modifier key.
    pub fn none() -> (m: Modifiers)
        ensures
            m == Modifiers::none_value(),
    {
        Modifiers { alt: false, ctrl: false, shift: false, mac_cmd: false, command: false }
    }

    /// Shift alone.
    pub fn shift() -> (m: Modifiers)
        ensures
            m == Modifiers::shift_value(),
    {
        Modifiers { alt: false, ctrl: false, shift: true, mac_cmd: false, command: false }
    }

    /// The shortcut key alone.
    pub fn command() -> (m: Modifiers)
        ensures
            m == Modifiers::command_value(),
    {
        Modifiers { alt: false, ctrl: false, shift: false, mac_cmd: false, command: true }
    }
}

/// A button of the pointer.
#[derive(Clone, Copy, Debug, PartialEq, Eq, Structural)]
pub enum PointerButton {
    /// Usually the left button.
    Primary,
    /// Usually the right button.
    Secondary,
    /// Usually the middle button.
    Middle,
    /// The first extra button.
    Extra1,
    /// The second extra button.
    Extra2,
}

/// Keyboard modifiers together with a pointer button.
#[derive(Clone, Copy, Debug, PartialEq, Eq, Structural)]
pub struct ModifierClick {
    /// Keyboard modifiers for this action.
    pub modifiers: Modifiers,
    /// Pointer button for this action.
    pub mouse_button: PointerButton,
}

/// Settings of the canvas.
#[derive(Clone, Copy, Debug, PartialEq, Eq)]
pub struct SnarlConfig {
    /// Draws the selection rectangle.
    pub rect_select: ModifierClick,
    /// Removes the wire under the pointer.
    pub remove_hovered_wire: ModifierClick,
    /// Deselects all nodes.
    pub deselect_all_nodes: ModifierClick,
    /// Cancels the dragging of a wire.
    pub cancel_wire_drag: ModifierClick,
    /// Clicks a pin.
    pub click_pin: ModifierClick,
    /// Drags a pin.
    pub drag_pin: ModifierClick,
    /// Drops a wire without opening the menu.
    pub no_menu: ModifierClick,
    /// Clicks a node.
    pub click_node: ModifierClick,
    /// Drags a node.
    pub drag_node: ModifierClick,
    /// Adds a node to the selection.
    pub select_node: ModifierClick,
    /// Takes a node out of the selection.
    pub deselect_node: ModifierClick,
    /// Clicks the header of a node.
    pub click_header: ModifierClick,
    /// When true, selecting a node deselects all others.
    pub single_select: bool,
    /// The grid that node positions snap to; `None` turns snapping off.
    pub grid_snap: Option<SnapGrid>,
    /// Keeps room for later fields: build a value from `new()` and `..`.
    pub _non_exhaustive: (),
}

impl SnarlConfig {
    /// The settings a canvas starts with, field by field.
    pub open spec fn initial_value() -> SnarlConfig {
        SnarlConfig {
            rect_select: ModifierClick {
                modifiers: Modifiers::shift_value(),
                mouse_button: PointerButton::Primary,
            },
            remove_hovered_wire: ModifierClick {
                modifiers: Modifiers::none_value(),
                mouse_button: PointerButton::Secondary,
            },
            deselect_all_nodes: ModifierClick {
                modifiers: Modifiers::command_value(),
                mouse_button: PointerButton::Primary,
            },
            cancel_wire_drag: ModifierClick {
                modifiers: Modifiers::none_value(),
                mouse_button: PointerButton::Secondary,
            },
            click_pin: ModifierClick {
                modifiers: Modifiers::none_value(),
                mouse_button: PointerButton::Secondary,
            },
            drag_pin: ModifierClick {
                modifiers: Modifiers::command_value(),
                mouse_button: PointerButton::Primary,
            },
            no_menu: ModifierClick {
                modifiers: Modifiers::shift_value(),
                mouse_button: PointerButton::Primary,
            },
            click_node: ModifierClick {
                modifiers: Modifiers::none_value(),
                mouse_button: PointerButton::Primary,
            },
            drag_node: ModifierClick {
                modifiers: Modifiers::none_value(),
                mouse_button: PointerButton::Primary,
            },
            select_node: ModifierClick {
                modifiers: Modifiers::shift_value(),
                mouse_button: PointerButton::Primary,
            },
            deselect_node: ModifierClick {
                modifiers: Modifiers::command_value(),
                mouse_button: PointerButton::Primary,
            },
            click_header: ModifierClick {
                modifiers: Modifiers::none_value(),
                mouse_button: PointerButton::Primary,
            },
            single_select: false,
            grid_snap: None,
            _non_exhaustive: (),
        }
    }

    /// The settings a canvas starts with.
    #[must_use]
    pub fn new() -> (config: Self)
        ensures
            config == SnarlConfig::initial_value(),
    {
        SnarlConfig {
            rect_select: ModifierClick {
                modifiers: Modifiers::shift(),
                mouse_button: PointerButton::Primary,
            },
            remove_hovered_wire: ModifierClick {
                modifiers: Modifiers::none(),
                mouse_button: PointerButton::Secondary,
            },
            deselect_all_nodes: ModifierClick {
                modifiers: Modifiers::command(),
                mouse_button: PointerButton::Primary,
            },
            cancel_wire_drag: ModifierClick {
                modifiers: Modifiers::none(),
                mouse_button: PointerButton::Secondary,
            },
            click_pin: ModifierClick {
                modifiers: Modifiers::none(),
                mouse_button: PointerButton::Secondary,
            },
            drag_pin: ModifierClick {
                modifiers: Modifiers::command(),
                mouse_button: PointerButton::Primary,
            },
            no_menu: ModifierClick {
                modifiers: Modifiers::shift(),
                mouse_button: PointerButton::Primary,
            },
            click_node: ModifierClick {
                modifiers: Modifiers::none(),
                mouse_button: PointerButton::Primary,
            },
            drag_node: ModifierClick {
                modifiers: Modifiers::none(),
                mouse_button: PointerButton::Primary,
            },
            select_node: ModifierClick {
                modifiers: Modifiers::shift(),
                mouse_button: PointerButton::Primary,
            },
            deselect_node: ModifierClick {
                modifiers: Modifiers::command(),
                mouse_button: PointerButton::Primary,
            },
            click_header: ModifierClick {
                modifiers: Modifiers::none(),
                mouse_button: PointerButton::Primary,
            },
            single_select: false,
            grid_snap: None,
            _non_exhaustive: (),
        }
    }
}

impl Default for SnarlConfig {
    fn default() -> (config: Self)
        ensures
            config == SnarlConfig::initial_value(),
    {
        SnarlConfig::new()
    }
}

} // verus!
