//! What the camera decides from input: which way a key moves it, whether a
//! resize changes anything, and when a drag turns it.

use vstd::prelude::*;
use crate::image_util::ImageSize;

verus! {

/// A key as far as the camera cares.
#[derive(Clone, Copy, Debug, PartialEq, Eq)]
pub enum Key {
    W,
    S,
    A,
    D,
    Q,
    E,
    Other,
}

/// One of the camera's three axes of movement.
#[derive(Clone, Copy, Debug, PartialEq, Eq)]
pub enum Axis {
    /// Along the view direction.
    Forward,
    /// Along the cross product of the view direction and world up.
    Right,
    /// Along world up.
    Up,
}

/// A movement of the camera along one axis.
#[derive(Clone, Copy, Debug, PartialEq, Eq)]
pub struct Motion {
    pub axis: Axis,
    /// Whether the camera moves along the axis or against it.
    pub along: bool,
}

/// The movement that a key asks for: W and S along and against the view
/// direction, D and A along and against the right axis, E and Q up and down.
pub open spec fn motion_of(key: Option<Key>) -> Option<Motion> {
    match key {
        Some(Key::W) => Some(Motion { axis: Axis::Forward, along: true }),
        Some(Key::S) => Some(Motion { axis: Axis::Forward, along: false }),
        Some(Key::A) => Some(Motion { axis: Axis::Right, along: false }),
        Some(Key::D) => Some(Motion { axis: Axis::Right, along: true }),
        Some(Key::Q) => Some(Motion { axis: Axis::Up, along: false }),
        Some(Key::E) => Some(Motion { axis: Axis::Up, along: true }),
        _ => None,
    }
}

/// The part of the camera that is not geometry: the viewport in pixels and
/// the last place of the mouse during a drag.
pub struct Camera<P> {
    pub viewport: ImageSize,
    pub last_mouse_position: Option<P>,
}

impl<P: Copy> Camera<P> {
    /// A camera for the given viewport, with no drag under way.
    pub fn new(viewport_width: u32, viewport_height: u32) -> (camera: Camera<P>)
        ensures
            camera.viewport == (ImageSize { width: viewport_width, height: viewport_height }),
            camera.last_mouse_position.is_none(),
    {
        Camera {
            viewport: ImageSize { width: viewport_width, height: viewport_height },
            last_mouse_position: None,
        }
    }

    /// Takes a new viewport size and says whether it differs from the old
    /// one, in which case what was accumulated is stale.
    pub fn resize(&mut self, new_size: ImageSize) -> (changed: bool)
        ensures
            final(self).viewport == new_size,
            final(self).last_mouse_position == old(self).last_mouse_position,
            changed == (old(self).viewport != new_size),
    {
        if new_size.width == self.viewport.width && new_size.height == self.viewport.height {
            return false;
        }
        self.viewport = new_size;
        true
    }

    /// The movement that a pressed key asks for. The accumulation has to
    /// start over exactly when there is one.
    pub fn on_keyboard_event(&self, key: Option<Key>) -> (motion: Option<Motion>)
        ensures
            motion == motion_of(key),
    {
        match key {
            Some(Key::W) => Some(Motion { axis: Axis::Forward, along: true }),
            Some(Key::S) => Some(Motion { axis: Axis::Forward, along: false }),
            Some(Key::A) => Some(Motion { axis: Axis::Right, along: false }),
            Some(Key::D) => Some(Motion { axis: Axis::Right, along: true }),
            Some(Key::Q) => Some(Motion { axis: Axis::Up, along: false }),
            Some(Key::E) => Some(Motion { axis: Axis::Up, along: true }),
            _ => None,
        }
    }

    /// Records the mouse at `mouse_position` during a drag. The first place
    /// of a drag only starts it; every later one yields the step from the
    /// place before, by which the camera turns.
    pub fn on_rotate(&mut self, mouse_position: P) -> (step: Option<(P, P)>)
        ensures
            final(self).viewport == old(self).viewport,
            final(self).last_mouse_position == Some(mouse_position),
            step == match old(self).last_mouse_position {
                Some(last) => Some((last, mouse_position)),
                None => None,
            },
    {
        let step = match self.last_mouse_position {
            Some(last) => Some((last, mouse_position)),
            None => None,
        };
        self.last_mouse_position = Some(mouse_position);
        step
    }
}

} // verus!
