//! The frame loop's own state: the size of the framebuffer, the resize
//! that waits to be applied, and the count of frames.

use vstd::prelude::*;

verus! {

/// The state of an [`App`].
pub struct AppModel {
    /// Frames counted so far.
    pub current_frame: u32,
    /// Size in use; `(0, 0)` until the first size is applied.
    pub width: u32,
    pub height: u32,
    /// The largest width and the largest height seen so far.
    pub max_width: u32,
    pub max_height: u32,
    /// The size that waits to be applied at the start of the next frame.
    pub pending: Option<(u32, u32)>,
}

impl AppModel {
    /// Whether a request for a canvas of `width` by `height` is taken up,
    /// given the size that the canvas has: neither extent is zero, and the
    /// size differs from that of the canvas in width, in height or in both.
    pub open spec fn takes_up(width: u32, height: u32, canvas: (u32, u32)) -> bool {
        width != 0 && height != 0 && (canvas.0 != width || canvas.1 != height)
    }

    /// The state after a request for a resize.
    pub open spec fn requested(self, width: u32, height: u32, canvas: (u32, u32)) -> Self {
        if Self::takes_up(width, height, canvas) {
            AppModel { pending: Some((width, height)), ..self }
        } else {
            self
        }
    }

    /// Whether the start of a frame applies a size.
    pub open spec fn applies(self, ready: bool) -> bool {
        ready && self.pending.is_some()
    }

    /// The state after the start of a frame.
    pub open spec fn begun(self, ready: bool) -> Self {
        if self.applies(ready) {
            let (width, height) = self.pending.unwrap();
            AppModel {
                width,
                height,
                max_width: if self.max_width < width {
                    width
                } else {
                    self.max_width
                },
                max_height: if self.max_height < height {
                    height
                } else {
                    self.max_height
                },
                pending: None,
                ..self
            }
        } else {
            self
        }
    }

    /// The state after the end of a frame.
    pub open spec fn ended(self) -> Self {
        AppModel {
            current_frame: if self.current_frame == u32::MAX {
                0
            } else {
                (self.current_frame + 1) as u32
            },
            ..self
        }
    }
}

/// The frame loop's state. It is owned by the loop and by nothing else.
#[derive(Clone, Copy, Debug)]
pub struct App {
    current_frame: u32,
    width: u32,
    height: u32,
    max_width: u32,
    max_height: u32,
    pending: Option<(u32, u32)>,
}

impl View for App {
    type V = AppModel;

    closed spec fn view(&self) -> AppModel {
        AppModel {
            current_frame: self.current_frame,
            width: self.width,
            height: self.height,
            max_width: self.max_width,
            max_height: self.max_height,
            pending: self.pending,
        }
    }
}

impl App {
    /// The state before the first frame: no size is in use yet, and the
    /// size of the canvas waits to be applied unless its width is zero.
    pub fn init(width: u32, height: u32, max_width: u32, max_height: u32) -> (app: Self)
        ensures
            app@ == (AppModel {
                current_frame: 0,
                width: 0,
                height: 0,
                max_width,
                max_height,
                pending: if width > 0 {
                    Some((width, height))
                } else {
                    None
                },
            }),
    {
        App {
            current_frame: 0,
            width: 0,
            height: 0,
            max_width,
            max_height,
            pending: if width > 0 {
                Some((width, height))
            } else {
                None
            },
        }
    }

    /// Takes note of a request to resize to `width` by `height` while the
    /// canvas is `canvas_width` by `canvas_height`. Tells whether the
    /// request is taken up, in which case the caller resizes the canvas.
    ///
    /// Of several requests before the next frame only the last one that
    /// was taken up counts.
    pub fn request_resize(
        &mut self,
        width: u32,
        height: u32,
        canvas_width: u32,
        canvas_height: u32,
    ) -> (taken: bool)
        ensures
            taken == AppModel::takes_up(width, height, (canvas_width, canvas_height)),
            final(self)@ == old(self)@.requested(width, height, (canvas_width, canvas_height)),
    {
        if width != 0 && height != 0 && (canvas_width != width || canvas_height != height) {
            self.pending = Some((width, height));
            true
        } else {
            false
        }
    }

    /// Starts a frame: where the graphics context is ready and a size
    /// waits, the size is applied whole and the slot is emptied. Tells
    /// whether a size was applied. A size that waits while the context is
    /// not ready keeps waiting.
    pub fn begin_frame(&mut self, ready: bool) -> (resized: bool)
        ensures
            resized == old(self)@.applies(ready),
            final(self)@ == old(self)@.begun(ready),
    {
        if !ready {
            return false;
        }
        match self.pending {
            Some((width, height)) => {
                if self.max_height < height {
                    self.max_height = height;
                }
                if self.max_width < width {
                    self.max_width = width;
                }
                self.width = width;
                self.height = height;
                self.pending = None;
                true
            },
            None => false,
        }
    }

    /// Ends a frame: counts it.
    pub fn end_frame(&mut self)
        ensures
            final(self)@ == old(self)@.ended(),
    {
        self.current_frame = if self.current_frame == u32::MAX {
            0
        } else {
            self.current_frame + 1
        };
    }

    /// Frames counted so far.
    pub fn current_frame(&self) -> (n: u32)
        ensures
            n == self@.current_frame,
    {
        self.current_frame
    }

    /// The size in use.
    pub fn size(&self) -> (size: (u32, u32))
        ensures
            size == (self@.width, self@.height),
    {
        (self.width, self.height)
    }

    /// The largest width and the largest height seen so far.
    pub fn max_size(&self) -> (size: (u32, u32))
        ensures
            size == (self@.max_width, self@.max_height),
    {
        (self.max_width, self.max_height)
    }

    /// The size that waits to be applied.
    pub fn pending(&self) -> (size: Option<(u32, u32)>)
        ensures
            size == self@.pending,
    {
        self.pending
    }
}

/// Of the requests before a frame starts, the frame applies the last one
/// that was taken up, whole and once: whatever was asked for before it is
/// gone, nothing waits afterwards, and the largest extents seen cover it.
pub proof fn lemma_resizes_coalesce(
    app: AppModel,
    first: (u32, u32),
    canvas_at_first: (u32, u32),
    second: (u32, u32),
    canvas_at_second: (u32, u32),
)
    requires
        AppModel::takes_up(second.0, second.1, canvas_at_second),
    ensures
        app.requested(first.0, first.1, canvas_at_first).requested(
            second.0,
            second.1,
            canvas_at_second,
        ).begun(true) == app.requested(second.0, second.1, canvas_at_second).begun(true),
        app.requested(second.0, second.1, canvas_at_second).begun(true).width == second.0,
        app.requested(second.0, second.1, canvas_at_second).begun(true).height == second.1,
        app.requested(second.0, second.1, canvas_at_second).begun(true).pending.is_none(),
        app.requested(second.0, second.1, canvas_at_second).begun(true).max_width >= second.0,
        app.requested(second.0, second.1, canvas_at_second).begun(true).max_height >= second.1,
        !app.requested(second.0, second.1, canvas_at_second).begun(true).applies(true),
{
}

/// A request that changes one extent of the canvas only is taken up like
/// any other.
pub proof fn lemma_one_axis_resize(app: AppModel, width: u32, height: u32, canvas: (u32, u32))
    requires
        width != 0,
        height != 0,
        canvas.0 != width || canvas.1 != height,
    ensures
        app.requested(width, height, canvas).begun(true).width == width,
        app.requested(width, height, canvas).begun(true).height == height,
{
}

/// A size asked for before the graphics context is ready is applied by
/// the first frame that finds the context ready, and by no frame before.
pub proof fn lemma_resize_waits(app: AppModel, size: (u32, u32), canvas: (u32, u32))
    requires
        AppModel::takes_up(size.0, size.1, canvas),
    ensures
        app.requested(size.0, size.1, canvas).begun(false) == app.requested(
            size.0,
            size.1,
            canvas,
        ),
        app.requested(size.0, size.1, canvas).begun(false).ended().begun(true).width == size.0,
        app.requested(size.0, size.1, canvas).begun(false).ended().begun(true).height == size.1,
{
}

} // verus!
