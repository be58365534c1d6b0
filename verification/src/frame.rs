//! The decisions a frame makes: the size of the drawing surface and what the
//! keyboard and mouse ask for.

use vstd::prelude::*;
use crate::input::{KeyCode, Keyboard, Mouse, MouseButton};

verus! {

/// The size of the window's drawing surface in pixels; never zero in either direction.
pub struct SurfaceSize {
    width: u32,
    height: u32,
}

impl SurfaceSize {
    #[verifier::type_invariant]
    spec fn positive(self) -> bool {
        self.width >= 1 && self.height >= 1
    }

    pub closed spec fn w(&self) -> nat {
        self.width as nat
    }

    pub closed spec fn h(&self) -> nat {
        self.height as nat
    }

    /// The size of a new surface; a zero length becomes one.
    pub fn new(width: u32, height: u32) -> (size: Self)
        ensures
            size.w() == if width >= 1 { width } else { 1 },
            size.h() == if height >= 1 { height } else { 1 },
    {
        SurfaceSize {
            width: if width >= 1 { width } else { 1 },
            height: if height >= 1 { height } else { 1 },
        }
    }

    /// Takes the new size of the window, unless one of its lengths is zero (a
    /// minimised window), in which case the size stays as it was.
    pub fn resize(&mut self, width: u32, height: u32)
        ensures
            width > 0 && height > 0 ==> final(self).w() == width && final(self).h() == height,
            !(width > 0 && height > 0) ==> final(self).w() == old(self).w() && final(self).h() == old(self).h(),
            final(self).w() >= 1 && final(self).h() >= 1,
    {
        proof {
            use_type_invariant(&*self);
        }
        if width > 0 && height > 0 {
            self.width = width;
            self.height = height;
        }
    }

    pub fn width(&self) -> (width: u32)
        ensures
            width == self.w(),
            width >= 1,
    {
        proof {
            use_type_invariant(self);
        }
        self.width
    }

    pub fn height(&self) -> (height: u32)
        ensures
            height == self.h(),
            height >= 1,
    {
        proof {
            use_type_invariant(self);
        }
        self.height
    }

    /// The size to render at: each length cut down to `max_size`.
    pub fn render_target(&self, max_size: u32) -> (target: (u32, u32))
        ensures
            target.0 == if self.w() <= max_size { self.w() } else { max_size as nat },
            target.1 == if self.h() <= max_size { self.h() } else { max_size as nat },
    {
        let width = if self.width <= max_size { self.width } else { max_size };
        let height = if self.height <= max_size { self.height } else { max_size };
        (width, height)
    }

    /// The size the surface must be configured to anew, given the size it is
    /// configured to now; `None` when that is already the render target.
    pub fn reconfigure_to(&self, configured_width: u32, configured_height: u32, max_size: u32) -> (to: Option<(u32, u32)>)
        ensures
            ({
                let target = (
                    if self.w() <= max_size { self.w() as u32 } else { max_size },
                    if self.h() <= max_size { self.h() as u32 } else { max_size },
                );
                if configured_width == target.0 && configured_height == target.1 {
                    to is None
                } else {
                    to == Some(target)
                }
            }),
    {
        let target = self.render_target(max_size);
        if configured_width != target.0 || configured_height != target.1 {
            Some(target)
        } else {
            None
        }
    }
}

/// What became of asking the surface for the texture to draw the next frame into.
#[derive(Clone, Copy, Debug, PartialEq, Eq, Structural)]
pub enum SurfaceStatus {
    Success,
    Suboptimal,
    Timeout,
    Occluded,
    Outdated,
    Lost,
    Validation,
}

/// What the frame does about a `SurfaceStatus`.
#[derive(Clone, Copy, Debug, PartialEq, Eq, Structural)]
pub enum SurfaceAction {
    /// Draw into the texture.
    Draw,
    /// Skip this frame.
    Skip,
    /// Configure the surface anew and skip this frame.
    Reconfigure,
    /// Stop with an error: the device is lost.
    Fail,
}

/// Draws when a texture came (even one that no longer fits the surface well),
/// configures anew when the configuration is outdated, fails when the surface
/// is lost, and skips the frame otherwise.
pub fn surface_action(status: SurfaceStatus) -> (action: SurfaceAction)
    ensures
        action == match status {
            SurfaceStatus::Success | SurfaceStatus::Suboptimal => SurfaceAction::Draw,
            SurfaceStatus::Timeout | SurfaceStatus::Occluded | SurfaceStatus::Validation => SurfaceAction::Skip,
            SurfaceStatus::Outdated => SurfaceAction::Reconfigure,
            SurfaceStatus::Lost => SurfaceAction::Fail,
        },
{
    match status {
        SurfaceStatus::Success | SurfaceStatus::Suboptimal => SurfaceAction::Draw,
        SurfaceStatus::Timeout | SurfaceStatus::Occluded | SurfaceStatus::Validation => SurfaceAction::Skip,
        SurfaceStatus::Outdated => SurfaceAction::Reconfigure,
        SurfaceStatus::Lost => SurfaceAction::Fail,
    }
}

/// The position of the first item that is wanted, or of the first item when
/// none is. `wanted[i]` says whether item `i` is wanted; there is at least one item.
pub fn preferred_index(wanted: &[bool]) -> (index: usize)
    requires
        wanted@.len() > 0,
    ensures
        index < wanted@.len(),
        (exists|i: int| 0 <= i < wanted@.len() && wanted@[i]) ==> wanted@[index as int]
            && forall|j: int| 0 <= j < index ==> !wanted@[j],
        (forall|i: int| 0 <= i < wanted@.len() ==> !wanted@[i]) ==> index == 0,
{
    let mut i: usize = 0;
    while i < wanted.len()
        invariant
            i <= wanted@.len(),
            forall|j: int| 0 <= j < i ==> !wanted@[j],
        decreases wanted@.len() - i,
    {
        if wanted[i] {
            return i;
        }
        i = i + 1;
    }
    0
}

/// What one frame does, as the input asks it.
#[derive(Clone, Copy, Debug, PartialEq, Eq, Structural)]
pub struct FrameActions {
    /// Close the window.
    pub close: bool,
    /// Remove every rectangle drawn so far.
    pub clear_shapes: bool,
    /// Draw a small rectangle under the cursor.
    pub draw_at_cursor: bool,
}

/// The frame's actions: close when `close_key` was just pressed, clear when
/// `clear_key` was just pressed, and draw under the cursor while the left
/// button is held.
pub fn frame_actions(keyboard: &Keyboard, mouse: &Mouse, close_key: KeyCode, clear_key: KeyCode) -> (actions: FrameActions)
    ensures
        actions.close == (keyboard.down().contains(close_key.0) && !keyboard.down_before().contains(close_key.0)),
        actions.clear_shapes == (keyboard.down().contains(clear_key.0) && !keyboard.down_before().contains(clear_key.0)),
        actions.draw_at_cursor == mouse.down().contains(MouseButton::Left),
{
    FrameActions {
        close: keyboard.just_pressed(close_key),
        clear_shapes: keyboard.just_pressed(clear_key),
        draw_at_cursor: mouse.is_pressed(MouseButton::Left),
    }
}

} // verus!
