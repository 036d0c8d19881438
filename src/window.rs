//! The lifecycle of a managed window: the protocol that creates the platform window,
//! its surface and its presentation chain in order, and the rebuild of the chain.
//!
//! The handles themselves are made by the platform and graphics sides; each step here
//! takes what that side returned and decides what follows. A step that fails consumes
//! what was created before it, so a failed creation hands nothing back.

use vstd::prelude::*;

use crate::errors::WindowError;
use crate::resolve::{resolve_spec, resolve_window_mode, MonitorInfo, WindowPlacement};
use crate::spec::{Extent2D, WindowInfo};

/// The error of creating or rebuilding a window, under the name this module gives it.
pub use crate::errors::WindowError as Error;

verus! {

/// A creation whose display mode has been resolved: the platform window is next.
pub struct WindowCreation {
    title: String,
    image_count: usize,
    placement: WindowPlacement,
}

/// A creation whose platform window exists: the surface is next.
pub struct PendingWindow<W> {
    title: String,
    image_count: usize,
    window: W,
}

/// A creation whose platform window and surface exist: the presentation chain is next.
pub struct PendingSurface<W, S> {
    title: String,
    image_count: usize,
    window: W,
    surface: S,
}

/// What to ask of the graphics side for a new presentation chain.
#[derive(Clone, Copy, Debug, PartialEq, Eq)]
pub struct SwapchainRequest {
    pub width: u32,
    pub height: u32,
    /// The number of images asked for; the graphics side may clamp it.
    pub image_count: u32,
}

impl WindowCreation {
    pub closed spec fn spec_title(&self) -> String {
        self.title
    }

    pub closed spec fn spec_image_count(&self) -> usize {
        self.image_count
    }

    pub closed spec fn spec_placement(&self) -> WindowPlacement {
        self.placement
    }

    /// Starts the creation of a window: resolves its display mode against the monitors.
    /// A resolution error is returned unchanged.
    pub fn new(info: WindowInfo, image_count: usize, monitors: &Vec<MonitorInfo>) -> (r: Result<
        WindowCreation,
        WindowError,
    >)
        ensures
            match r {
                Ok(c) => {
                    &&& resolve_spec(info.window_mode, monitors@) == Ok::<
                        WindowPlacement,
                        WindowError,
                    >(c.spec_placement())
                    &&& c.spec_title() == info.title
                    &&& c.spec_image_count() == image_count
                },
                Err(e) => resolve_spec(info.window_mode, monitors@) == Err::<
                    WindowPlacement,
                    WindowError,
                >(e),
            },
    {
        match resolve_window_mode(&info.window_mode, monitors) {
            Ok(placement) => Ok(WindowCreation { title: info.title, image_count, placement }),
            Err(e) => Err(e),
        }
    }

    /// The title of the window to build.
    pub fn title(&self) -> (r: &str)
        ensures
            r@ == self.spec_title()@,
    {
        self.title.as_str()
    }

    /// Where and how to build the window.
    pub fn placement(&self) -> (r: WindowPlacement)
        ensures
            r == self.spec_placement(),
    {
        self.placement
    }

    /// Takes what building the platform window gave: the window, or the platform's
    /// description of the failure.
    pub fn window_built<W>(self, built: Result<W, String>) -> (r: Result<PendingWindow<W>, WindowError>)
        ensures
            match built {
                Ok(w) => r matches Ok(p) && p.spec_window() == w && p.spec_title() == self.spec_title()
                    && p.spec_image_count() == self.spec_image_count(),
                Err(e) => r matches Err(err) && err == (WindowError::WindowCreateError {
                    title: self.spec_title(),
                    err: e,
                }),
            },
    {
        match built {
            Ok(window) => Ok(PendingWindow { title: self.title, image_count: self.image_count, window }),
            Err(err) => Err(WindowError::WindowCreateError { title: self.title, err }),
        }
    }
}

impl<W> PendingWindow<W> {
    pub closed spec fn spec_title(&self) -> String {
        self.title
    }

    pub closed spec fn spec_image_count(&self) -> usize {
        self.image_count
    }

    pub closed spec fn spec_window(&self) -> W {
        self.window
    }

    /// The platform window, for the surface to be created on.
    pub fn window(&self) -> (r: &W)
        ensures
            *r == self.spec_window(),
    {
        &self.window
    }

    /// Takes what creating the surface gave: the surface, or the graphics side's
    /// description of the failure. On failure the platform window is released.
    pub fn surface_created<S>(self, created: Result<S, String>) -> (r: Result<
        PendingSurface<W, S>,
        WindowError,
    >)
        ensures
            match created {
                Ok(s) => r matches Ok(p) && p.spec_surface() == s && p.spec_window() == self.spec_window()
                    && p.spec_title() == self.spec_title() && p.spec_image_count()
                    == self.spec_image_count(),
                Err(e) => r matches Err(err) && err == (WindowError::SurfaceCreateError {
                    title: self.spec_title(),
                    err: e,
                }),
            },
    {
        match created {
            Ok(surface) => Ok(
                PendingSurface {
                    title: self.title,
                    image_count: self.image_count,
                    window: self.window,
                    surface,
                },
            ),
            Err(err) => Err(WindowError::SurfaceCreateError { title: self.title, err }),
        }
    }
}

impl<W, S> PendingSurface<W, S> {
    pub closed spec fn spec_title(&self) -> String {
        self.title
    }

    pub closed spec fn spec_image_count(&self) -> usize {
        self.image_count
    }

    pub closed spec fn spec_window(&self) -> W {
        self.window
    }

    pub closed spec fn spec_surface(&self) -> S {
        self.surface
    }

    /// The platform window.
    pub fn window(&self) -> (r: &W)
        ensures
            *r == self.spec_window(),
    {
        &self.window
    }

    /// The surface, for the presentation chain to be created on.
    pub fn surface(&self) -> (r: &S)
        ensures
            *r == self.spec_surface(),
    {
        &self.surface
    }

    /// The presentation chain to ask for, given the window's current inner size: that
    /// size, and the image count of the creation cast to a `u32` (its low 32 bits).
    pub fn swapchain_request(&self, inner_size: Extent2D) -> (r: SwapchainRequest)
        ensures
            r.width == inner_size.w,
            r.height == inner_size.h,
            r.image_count == self.spec_image_count() as u32,
    {
        SwapchainRequest {
            width: inner_size.w,
            height: inner_size.h,
            image_count: self.image_count as u32,
        }
    }
}

/// A managed window: the platform window, its surface and its presentation chain,
/// with the window's title and the extent that the chain was last sized to.
pub struct Window<W, S, C> {
    title: String,
    window: W,
    surface: S,
    swapchain: C,
    extent: Extent2D,
}

impl<W, S, C> Window<W, S, C> {
    pub closed spec fn spec_title(&self) -> String {
        self.title
    }

    pub closed spec fn spec_window(&self) -> W {
        self.window
    }

    pub closed spec fn spec_surface(&self) -> S {
        self.surface
    }

    pub closed spec fn spec_swapchain(&self) -> C {
        self.swapchain
    }

    pub closed spec fn spec_extent(&self) -> Extent2D {
        self.extent
    }

    /// The same window, with its chain's extent now `new_size`.
    pub closed spec fn spec_resized(self, new_size: Extent2D) -> Self {
        Window { extent: new_size, ..self }
    }

    /// Finishes a creation with what creating the presentation chain gave, for the
    /// window's inner size `inner_size`: the chain, or the graphics side's description
    /// of the failure. On failure the platform window and the surface are released.
    pub fn new(pending: PendingSurface<W, S>, inner_size: Extent2D, created: Result<C, String>) -> (r:
        Result<Window<W, S, C>, WindowError>)
        ensures
            match created {
                Ok(c) => r matches Ok(w) && w.spec_swapchain() == c && w.spec_surface()
                    == pending.spec_surface() && w.spec_window() == pending.spec_window()
                    && w.spec_title() == pending.spec_title() && w.spec_extent() == inner_size,
                Err(e) => r matches Err(err) && err == (WindowError::SwapchainCreateError {
                    title: pending.spec_title(),
                    err: e,
                }),
            },
    {
        match created {
            Ok(swapchain) => Ok(
                Window {
                    title: pending.title,
                    window: pending.window,
                    surface: pending.surface,
                    swapchain,
                    extent: inner_size,
                },
            ),
            Err(err) => Err(WindowError::SwapchainCreateError { title: pending.title, err }),
        }
    }

    /// Replaces the title. The handles and the extent stay as they are: nothing is
    /// created again.
    pub fn set_title(&mut self, new_title: &str)
        ensures
            final(self).spec_title()@ == new_title@,
            final(self).spec_window() == old(self).spec_window(),
            final(self).spec_surface() == old(self).spec_surface(),
            final(self).spec_swapchain() == old(self).spec_swapchain(),
            final(self).spec_extent() == old(self).spec_extent(),
    {
        self.title = new_title.to_owned();
    }

    /// Takes what resizing the presentation chain in place to `new_size` gave.
    ///
    /// On success the window's extent is `new_size`. On failure the error names the
    /// title, the extent before and `new_size`, and the window keeps the extent that it
    /// last knew to be good; the chain is in whatever state the graphics side left it.
    pub fn rebuild(&mut self, new_size: Extent2D, resized: Result<(), String>) -> (r: Result<
        (),
        WindowError,
    >)
        ensures
            match resized {
                Ok(()) => r is Ok && *final(self) == old(self).spec_resized(new_size),
                Err(e) => *final(self) == *old(self) && r == Err::<(), WindowError>(
                    WindowError::SwapchainRecreateError {
                        title: old(self).spec_title(),
                        old_size: old(self).spec_extent(),
                        new_size,
                        err: e,
                    },
                ),
            },
    {
        match resized {
            Ok(()) => {
                self.extent = new_size;
                Ok(())
            },
            Err(err) => Err(
                WindowError::SwapchainRecreateError {
                    title: self.title.clone(),
                    old_size: self.extent,
                    new_size,
                    err,
                },
            ),
        }
    }

    /// The platform window.
    pub fn window(&self) -> (r: &W)
        ensures
            *r == self.spec_window(),
    {
        &self.window
    }

    /// The surface.
    pub fn surface(&self) -> (r: &S)
        ensures
            *r == self.spec_surface(),
    {
        &self.surface
    }

    /// The presentation chain.
    pub fn swapchain(&self) -> (r: &C)
        ensures
            *r == self.spec_swapchain(),
    {
        &self.swapchain
    }

    /// The current title.
    pub fn title(&self) -> (r: &str)
        ensures
            r@ == self.spec_title()@,
    {
        self.title.as_str()
    }

    /// The extent that the presentation chain was last sized to.
    pub fn extent(&self) -> (r: Extent2D)
        ensures
            r == self.spec_extent(),
    {
        self.extent
    }
}

/// Rebuilding to a size is idempotent: a second rebuild to the same size leaves the
/// window as the first left it, with that extent, the same title and the same handles;
/// and a rebuild to the extent that the chain already has changes nothing.
pub proof fn lemma_rebuild_idempotent<W, S, C>(w: Window<W, S, C>, new_size: Extent2D)
    ensures
        w.spec_resized(new_size).spec_resized(new_size) == w.spec_resized(new_size),
        w.spec_resized(new_size).spec_extent() == new_size,
        w.spec_resized(new_size).spec_title() == w.spec_title(),
        w.spec_resized(new_size).spec_window() == w.spec_window(),
        w.spec_resized(new_size).spec_surface() == w.spec_surface(),
        w.spec_resized(new_size).spec_swapchain() == w.spec_swapchain(),
        w.spec_extent() == new_size ==> w.spec_resized(new_size) == w,
{
}

} // verus!
