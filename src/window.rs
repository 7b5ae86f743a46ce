use vstd::prelude::*;

use raw_window_handle::{RawDisplayHandle, RawWindowHandle};

verus! {

/// The platform handle of a native window, carried through unread.
#[verifier::external_type_specification]
#[verifier::external_body]
pub struct ExRawWindowHandle(RawWindowHandle);

/// The platform handle of a display connection, carried through unread.
#[verifier::external_type_specification]
#[verifier::external_body]
pub struct ExRawDisplayHandle(RawDisplayHandle);

/// The side of the square surface made for a `width` x `height` display: the
/// longer of the two, so that the surface covers the display in either
/// orientation.
pub fn surface_side(width: u32, height: u32) -> (r: u32)
    ensures
        r == if width > height {
            width
        } else {
            height
        },
{
    if width > height {
        width
    } else {
        height
    }
}

/// A square native surface sized by the display's longer side.
pub struct Window {
    window_handle: RawWindowHandle,
    display_handle: RawDisplayHandle,
    width: u32,
    height: u32,
}

impl Window {
    pub closed spec fn width_spec(&self) -> u32 {
        self.width
    }

    pub closed spec fn height_spec(&self) -> u32 {
        self.height
    }

    pub closed spec fn window_handle_spec(&self) -> RawWindowHandle {
        self.window_handle
    }

    pub closed spec fn display_handle_spec(&self) -> RawDisplayHandle {
        self.display_handle
    }

    /// The side of the surface: the longer of the display's two dimensions.
    pub open spec fn side(&self) -> u32 {
        if self.width_spec() > self.height_spec() {
            self.width_spec()
        } else {
            self.height_spec()
        }
    }

    /// Wraps a created surface and the display size it was made for.
    pub fn new(
        window_handle: RawWindowHandle,
        display_handle: RawDisplayHandle,
        width: u32,
        height: u32,
    ) -> (r: Window)
        ensures
            r.width_spec() == width,
            r.height_spec() == height,
            r.window_handle_spec() == window_handle,
            r.display_handle_spec() == display_handle,
    {
        Window { window_handle, display_handle, width, height }
    }

    /// The surface's width: the display's longer side.
    pub fn get_width(&self) -> (r: u32)
        ensures
            r == self.side(),
            r >= self.width_spec() && r >= self.height_spec(),
    {
        surface_side(self.width, self.height)
    }

    /// The surface's height, equal to its width.
    pub fn get_height(&self) -> (r: u32)
        ensures
            r == self.side(),
    {
        self.get_width()
    }

    /// The display connection the surface belongs to.
    pub fn display_handle(&self) -> (r: RawDisplayHandle)
        ensures
            r == self.display_handle_spec(),
    {
        self.display_handle
    }

    /// The native surface.
    pub fn window_handle(&self) -> (r: RawWindowHandle)
        ensures
            r == self.window_handle_spec(),
    {
        self.window_handle
    }
}

} // verus!
