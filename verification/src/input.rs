//! Pointer handling on the canvas: the camera orbit drag and the drag of
//! the head of the spine.

use vstd::prelude::*;

verus! {

/// A pointer event on the canvas, with the client coordinates it carries.
#[derive(Copy, Clone, PartialEq, Eq, Structural, Debug)]
pub enum Pointer {
    /// A button went down; button 0 is the primary one.
    Down { button: i16, x: i32, y: i32 },
    /// The pointer moved.
    Move { x: i32, y: i32 },
    /// A button went up.
    Up,
    /// The pointer left the canvas.
    Leave,
}

/// What the host does with the pointer capture of the canvas.
#[derive(Copy, Clone, PartialEq, Eq, Structural, Debug)]
pub enum Capture {
    Keep,
    Acquire,
    Release,
}

/// The dragging flag of the camera orbit and the last recorded pointer
/// position, relative to the size of the canvas.
#[derive(Copy, Clone, PartialEq, Eq, Debug)]
pub struct OrbitDrag {
    dragging: bool,
    last_mouse_pos: (i64, i64),
}

/// What the host does after an event of the camera orbit.
#[derive(Copy, Clone, PartialEq, Eq, Debug)]
pub struct OrbitReaction {
    /// Hide the usage hint.
    pub hide_hint: bool,
    /// Set or release the pointer capture.
    pub capture: Capture,
    /// Turn the camera by this pointer movement, in pixels.
    pub turn: Option<(i64, i64)>,
    /// Keep the browser from handling the event.
    pub prevent_default: bool,
}

/// The pointer position that is recorded for client coordinates `(x, y)` on
/// a canvas of the given size.
pub open spec fn recorded_pos(x: i32, y: i32, width: u32, height: u32) -> (i64, i64) {
    ((x - width) as i64, (y - height) as i64)
}

/// Whether the camera is dragged after `event`.
pub open spec fn orbit_dragging_after(dragging: bool, event: Pointer) -> bool {
    match event {
        Pointer::Down { button, x, y } => dragging || button == 0,
        Pointer::Move { x, y } => dragging,
        Pointer::Up => false,
        Pointer::Leave => false,
    }
}

/// The recorded pointer position after `event`: a press of the primary
/// button records it, and so does every movement while dragging.
pub open spec fn orbit_pos_after(
    dragging: bool,
    last: (i64, i64),
    event: Pointer,
    width: u32,
    height: u32,
) -> (i64, i64) {
    match event {
        Pointer::Down { button, x, y } => if button == 0 {
            recorded_pos(x, y, width, height)
        } else {
            last
        },
        Pointer::Move { x, y } => if dragging {
            recorded_pos(x, y, width, height)
        } else {
            last
        },
        Pointer::Up => last,
        Pointer::Leave => last,
    }
}

/// What the host does after `event`.
pub open spec fn orbit_reaction(
    dragging: bool,
    last: (i64, i64),
    event: Pointer,
    width: u32,
    height: u32,
    hint_shown: bool,
) -> OrbitReaction {
    match event {
        Pointer::Down { button, x, y } => if button == 0 {
            OrbitReaction {
                hide_hint: hint_shown,
                capture: Capture::Acquire,
                turn: None,
                prevent_default: true,
            }
        } else {
            OrbitReaction {
                hide_hint: false,
                capture: Capture::Keep,
                turn: None,
                prevent_default: false,
            }
        },
        Pointer::Move { x, y } => if dragging {
            OrbitReaction {
                hide_hint: false,
                capture: Capture::Keep,
                turn: Some(
                    (
                        (recorded_pos(x, y, width, height).0 - last.0) as i64,
                        (recorded_pos(x, y, width, height).1 - last.1) as i64,
                    ),
                ),
                prevent_default: true,
            }
        } else {
            OrbitReaction {
                hide_hint: false,
                capture: Capture::Keep,
                turn: None,
                prevent_default: false,
            }
        },
        Pointer::Up => OrbitReaction {
            hide_hint: false,
            capture: Capture::Release,
            turn: None,
            prevent_default: false,
        },
        Pointer::Leave => OrbitReaction {
            hide_hint: false,
            capture: Capture::Keep,
            turn: None,
            prevent_default: false,
        },
    }
}

impl OrbitDrag {
    /// Recorded positions come from 32-bit client coordinates and a 32-bit
    /// canvas size.
    #[verifier::type_invariant]
    spec fn in_range(self) -> bool {
        &&& i32::MIN - u32::MAX <= self.last_mouse_pos.0 <= i32::MAX
        &&& i32::MIN - u32::MAX <= self.last_mouse_pos.1 <= i32::MAX
    }

    /// Whether the camera is dragged.
    pub closed spec fn dragging_of(&self) -> bool {
        self.dragging
    }

    /// The last recorded pointer position.
    pub closed spec fn last_mouse_pos_of(&self) -> (i64, i64) {
        self.last_mouse_pos
    }

    /// The state before any event: not dragging, at the origin.
    pub fn new() -> (drag: Self)
        ensures
            !drag.dragging_of(),
            drag.last_mouse_pos_of() == (0i64, 0i64),
    {
        OrbitDrag { dragging: false, last_mouse_pos: (0, 0) }
    }

    /// Whether the camera is dragged.
    pub fn dragging(&self) -> (b: bool)
        ensures
            b == self.dragging_of(),
    {
        self.dragging
    }

    /// The last recorded pointer position.
    pub fn last_mouse_pos(&self) -> (pos: (i64, i64))
        ensures
            pos == self.last_mouse_pos_of(),
    {
        self.last_mouse_pos
    }

    /// Handles one pointer event of the camera orbit on a canvas of the
    /// given size. `hint_shown` says whether the usage hint is visible.
    pub fn on_pointer(
        &mut self,
        event: Pointer,
        width: u32,
        height: u32,
        hint_shown: bool,
    ) -> (reaction: OrbitReaction)
        ensures
            final(self).dragging_of() == orbit_dragging_after(old(self).dragging_of(), event),
            final(self).last_mouse_pos_of() == orbit_pos_after(
                old(self).dragging_of(),
                old(self).last_mouse_pos_of(),
                event,
                width,
                height,
            ),
            reaction == orbit_reaction(
                old(self).dragging_of(),
                old(self).last_mouse_pos_of(),
                event,
                width,
                height,
                hint_shown,
            ),
    {
        proof {
            use_type_invariant(&*self);
        }
        let idle = OrbitReaction {
            hide_hint: false,
            capture: Capture::Keep,
            turn: None,
            prevent_default: false,
        };
        match event {
            Pointer::Down { button, x, y } => {
                if button != 0 {
                    return idle;
                }
                self.dragging = true;
                self.last_mouse_pos = (x as i64 - width as i64, y as i64 - height as i64);
                OrbitReaction {
                    hide_hint: hint_shown,
                    capture: Capture::Acquire,
                    turn: None,
                    prevent_default: true,
                }
            },
            Pointer::Move { x, y } => {
                if !self.dragging {
                    return idle;
                }
                let mx: i64 = x as i64 - width as i64;
                let my: i64 = y as i64 - height as i64;
                let (lx, ly) = self.last_mouse_pos;
                self.last_mouse_pos = (mx, my);
                OrbitReaction {
                    hide_hint: false,
                    capture: Capture::Keep,
                    turn: Some((mx - lx, my - ly)),
                    prevent_default: true,
                }
            },
            Pointer::Up => {
                self.dragging = false;
                OrbitReaction {
                    hide_hint: false,
                    capture: Capture::Release,
                    turn: None,
                    prevent_default: false,
                }
            },
            Pointer::Leave => {
                self.dragging = false;
                idle
            },
        }
    }
}

/// The dragging flag of the head of the spine.
#[derive(Copy, Clone, PartialEq, Eq, Structural, Debug)]
pub struct HeadDrag {
    pub dragging: bool,
}

/// What the host does after an event of the head drag.
#[derive(Copy, Clone, PartialEq, Eq, Structural, Debug)]
pub struct HeadReaction {
    /// Move the first point of the spine to the pointer.
    pub snap_head: bool,
    /// Keep the browser from handling the event.
    pub prevent_default: bool,
}

/// Whether the head is dragged after `event`.
pub open spec fn head_dragging_after(dragging: bool, event: Pointer) -> bool {
    match event {
        Pointer::Down { button, x, y } => dragging || button == 0,
        Pointer::Move { x, y } => dragging,
        Pointer::Up => false,
        Pointer::Leave => false,
    }
}

/// Whether `event` moves the head to the pointer: a press of the primary
/// button does, and so does every movement while dragging.
pub open spec fn head_follows(dragging: bool, event: Pointer) -> bool {
    match event {
        Pointer::Down { button, x, y } => button == 0,
        Pointer::Move { x, y } => dragging,
        Pointer::Up => false,
        Pointer::Leave => false,
    }
}

impl HeadDrag {
    /// The state before any event: not dragging.
    pub fn new() -> (drag: Self)
        ensures
            !drag.dragging,
    {
        HeadDrag { dragging: false }
    }

    /// Handles one pointer event of the head drag.
    pub fn on_pointer(&mut self, event: Pointer) -> (reaction: HeadReaction)
        ensures
            final(self).dragging == head_dragging_after(old(self).dragging, event),
            reaction.snap_head == head_follows(old(self).dragging, event),
            reaction.prevent_default == reaction.snap_head,
    {
        match event {
            Pointer::Down { button, .. } => {
                if button != 0 {
                    return HeadReaction { snap_head: false, prevent_default: false };
                }
                self.dragging = true;
                HeadReaction { snap_head: true, prevent_default: true }
            },
            Pointer::Move { .. } => {
                if !self.dragging {
                    return HeadReaction { snap_head: false, prevent_default: false };
                }
                HeadReaction { snap_head: true, prevent_default: true }
            },
            Pointer::Up => {
                self.dragging = false;
                HeadReaction { snap_head: false, prevent_default: false }
            },
            Pointer::Leave => {
                self.dragging = false;
                HeadReaction { snap_head: false, prevent_default: false }
            },
        }
    }
}

} // verus!
