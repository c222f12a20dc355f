//! Per-frame button events.
//!
//! Buttons are given as bit masks of the keypad register, one bit per button.

use vstd::prelude::*;

verus! {

/// What happened to the buttons during one frame.
#[derive(Debug, Clone, Copy)]
pub struct FrameEvents {
    /// Buttons that went from released to pressed in this frame.
    pressed: u16,
    /// Buttons that went from pressed to released in this frame.
    released: u16,
    /// The frame's number, counted from zero and wrapping at `u32::MAX`.
    pub frame_count: u32,
}

impl Default for FrameEvents {
    fn default() -> (e: Self)
        ensures
            e.pressed_mask() == 0,
            e.released_mask() == 0,
            e.frame_number() == 0,
    {
        FrameEvents { pressed: 0, released: 0, frame_count: 0 }
    }
}

impl FrameEvents {
    /// The buttons pressed in this frame.
    pub closed spec fn pressed_mask(&self) -> u16 {
        self.pressed
    }

    /// The buttons released in this frame.
    pub closed spec fn released_mask(&self) -> u16 {
        self.released
    }

    /// The frame's number.
    pub closed spec fn frame_number(&self) -> u32 {
        self.frame_count
    }

    /// Whether any button of `button` was pressed in this frame.
    pub fn is_pressed(&self, button: u16) -> (r: bool)
        ensures
            r == (self.pressed_mask() & button != 0),
    {
        (self.pressed & button) != 0
    }

    /// Whether any button of `button` was released in this frame.
    pub fn is_released(&self, button: u16) -> (r: bool)
        ensures
            r == (self.released_mask() & button != 0),
    {
        (self.released & button) != 0
    }

    /// Whether any button was pressed in this frame.
    pub fn any_pressed(&self) -> (r: bool)
        ensures
            r == (self.pressed_mask() != 0),
    {
        self.pressed != 0
    }

    /// Whether any button was released in this frame.
    pub fn any_released(&self) -> (r: bool)
        ensures
            r == (self.released_mask() != 0),
    {
        self.released != 0
    }

    /// The buttons pressed in this frame, as a bit mask.
    pub fn pressed_buttons(&self) -> (r: u16)
        ensures
            r == self.pressed_mask(),
    {
        self.pressed
    }

    /// The buttons released in this frame, as a bit mask.
    pub fn released_buttons(&self) -> (r: u16)
        ensures
            r == self.released_mask(),
    {
        self.released
    }
}

/// The frame counter and the buttons held at the end of the last frame.
pub struct FrameState {
    frame_count: u32,
    prev_button_state: u16,
}

impl FrameState {
    /// The number that the next frame will get.
    pub closed spec fn next_frame(&self) -> u32 {
        self.frame_count
    }

    /// The buttons held at the end of the last frame.
    pub closed spec fn held(&self) -> u16 {
        self.prev_button_state
    }

    /// Before the first frame: frame zero comes next, no button held.
    pub fn new() -> (s: Self)
        ensures
            s.next_frame() == 0,
            s.held() == 0,
    {
        FrameState { frame_count: 0, prev_button_state: 0 }
    }

    /// Ends a frame in which `current_state` is the set of buttons held:
    /// reports the buttons that changed since the last frame and the frame's
    /// number, then counts the frame.
    pub fn end_frame(&mut self, current_state: u16) -> (e: FrameEvents)
        ensures
            e.pressed_mask() == current_state & !old(self).held(),
            e.released_mask() == !current_state & old(self).held(),
            e.frame_number() == old(self).next_frame(),
            final(self).held() == current_state,
            final(self).next_frame() == old(self).next_frame().wrapping_add(1),
    {
        let pressed = current_state & !self.prev_button_state;
        let released = !current_state & self.prev_button_state;
        self.prev_button_state = current_state;
        let events = FrameEvents { pressed, released, frame_count: self.frame_count };
        self.frame_count = self.frame_count.wrapping_add(1);
        events
    }
}

} // verus!
