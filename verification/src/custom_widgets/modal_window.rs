//! The modal overlay: floating content centered above a base view, a
//! translucent scrim between them, and scrim-press dismissal.
//!
//! The modal itself is stateless: each frame the owning page rebuilds it from
//! its current visibility flag. The toolkit integration (drawing the scrim,
//! walking the widget tree) lives outside the library; what stands here is the
//! part that decides — where the floating content goes, and which of the two
//! outcomes a pointer event has (delivered to the floating content, or
//! consumed as a scrim dismissal).
use vstd::prelude::*;

verus! {

/// A width and height in whole pixels.
#[derive(Clone, Copy, Debug, PartialEq, Eq, Structural)]
pub struct Size {
    pub width: u32,
    pub height: u32,
}

/// A position in whole pixels, measured from the top-left corner.
#[derive(Clone, Copy, Debug, PartialEq, Eq, Structural)]
pub struct Point {
    pub x: u32,
    pub y: u32,
}

/// An axis-aligned region: top-left corner plus size.
#[derive(Clone, Copy, Debug, PartialEq, Eq, Structural)]
pub struct Rect {
    pub x: u32,
    pub y: u32,
    pub width: u32,
    pub height: u32,
}

impl Rect {
    /// Membership is half-open, as the toolkit's hit test is: the left and
    /// top edges belong to the region, the right and bottom edges do not.
    pub open spec fn spec_contains(self, p: Point) -> bool {
        &&& self.x <= p.x < self.x + self.width
        &&& self.y <= p.y < self.y + self.height
    }

    pub fn contains(&self, p: Point) -> (r: bool)
        ensures
            r == self.spec_contains(p),
    {
        p.x >= self.x && p.x - self.x < self.width && p.y >= self.y && p.y - self.y < self.height
    }
}

/// The pointer, as the toolkit reports it: at a known position, or outside
/// the window (no position available).
#[derive(Clone, Copy, Debug, PartialEq, Eq, Structural)]
pub enum Cursor {
    Available(Point),
    Unavailable,
}

impl Cursor {
    /// An unavailable cursor is over nothing.
    pub open spec fn spec_is_over(self, bounds: Rect) -> bool {
        match self {
            Cursor::Available(p) => bounds.spec_contains(p),
            Cursor::Unavailable => false,
        }
    }

    pub fn is_over(&self, bounds: Rect) -> (r: bool)
        ensures
            r == self.spec_is_over(bounds),
    {
        match self {
            Cursor::Available(p) => bounds.contains(*p),
            Cursor::Unavailable => false,
        }
    }
}

/// The one distinction the overlay's event handling draws: a primary-button
/// press may be consumed as a scrim dismissal; every other event is passed on
/// to the floating content unchanged.
#[derive(Clone, Copy, Debug, PartialEq, Eq, Structural)]
pub enum ModalEvent {
    PrimaryButtonPressed,
    Other,
}

/// What becomes of one pointer event: exactly one of the two.
#[derive(Debug)]
pub enum EventRoute<'a, M> {
    /// The press fell on the scrim: the event is consumed and the configured
    /// dismiss message is emitted. Nothing reaches the floating content.
    Dismiss(&'a M),
    /// The event is delivered to the floating content at its own bounds, and
    /// its handling decides the outcome.
    ForwardToContent,
}

/// Where the floating content is placed: its intrinsic size clamped to the
/// base's bounds on each axis, then centered on both axes.
pub open spec fn spec_modal_layout(base: Size, floating: Size) -> Rect {
    let w = if floating.width <= base.width {
        floating.width
    } else {
        base.width
    };
    let h = if floating.height <= base.height {
        floating.height
    } else {
        base.height
    };
    Rect {
        x: (((base.width - w) / 2) as u32),
        y: (((base.height - h) / 2) as u32),
        width: w,
        height: h,
    }
}

/// Compute the floating content's bounds inside a base of the given size.
///
/// The floating content may size itself freely within the base's full
/// bounds; what it asks for is clamped per axis and the result centered.
pub fn modal_layout(base: Size, floating: Size) -> (r: Rect)
    ensures
        r == spec_modal_layout(base, floating),
{
    let w = if floating.width <= base.width {
        floating.width
    } else {
        base.width
    };
    let h = if floating.height <= base.height {
        floating.height
    } else {
        base.height
    };
    Rect { x: (base.width - w) / 2, y: (base.height - h) / 2, width: w, height: h }
}

/// A floating content that fits inside the base keeps its intrinsic size and
/// sits at the exact center: its top-left offset is half the leftover space
/// on each axis.
pub proof fn lemma_modal_layout_centers_floating(base: Size, floating: Size)
    requires
        floating.width <= base.width,
        floating.height <= base.height,
    ensures
        spec_modal_layout(base, floating).width == floating.width,
        spec_modal_layout(base, floating).height == floating.height,
        spec_modal_layout(base, floating).x == (base.width - floating.width) / 2,
        spec_modal_layout(base, floating).y == (base.height - floating.height) / 2,
{
}

/// A modal composition: the always-rendered base, the floating content shown
/// above it, and an optional message to emit when the scrim is pressed.
pub struct Modal<M, C> {
    pub outer_content: C,
    pub inner_content: C,
    pub on_blur: Option<M>,
}

impl<M, C> Modal<M, C> {
    pub fn new(outer_content: C, inner_content: C) -> (r: Self)
        ensures
            r.outer_content == outer_content,
            r.inner_content == inner_content,
            r.on_blur is None,
    {
        Modal { outer_content, inner_content, on_blur: None }
    }

    /// Configure scrim dismissal: a primary press outside the floating
    /// content will emit this message.
    pub fn on_blur(self, on_blur: M) -> (r: Self)
        ensures
            r.on_blur matches Some(m) && m == on_blur,
            r.outer_content == self.outer_content,
            r.inner_content == self.inner_content,
    {
        Modal { outer_content: self.outer_content, inner_content: self.inner_content, on_blur: Some(on_blur) }
    }

    /// Route one event while the modal is up, given the floating content's
    /// bounds as the layout computed them.
    ///
    /// Exactly one of the two outcomes occurs: a primary press outside the
    /// floating content, with a dismiss message configured, is consumed and
    /// yields that message; every other event is delivered to the floating
    /// content.
    pub fn on_event<'a>(
        &'a self,
        event: ModalEvent,
        cursor: Cursor,
        content_bounds: Rect,
    ) -> (r: EventRoute<'a, M>)
        ensures
            (self.on_blur is Some && event is PrimaryButtonPressed && !cursor.spec_is_over(
                content_bounds,
            )) ==> (r matches EventRoute::Dismiss(m) && *m == self.on_blur->0),
            !(self.on_blur is Some && event is PrimaryButtonPressed && !cursor.spec_is_over(
                content_bounds,
            )) ==> r is ForwardToContent,
    {
        if let Some(message) = self.on_blur.as_ref() {
            if matches!(event, ModalEvent::PrimaryButtonPressed) {
                if !cursor.is_over(content_bounds) {
                    return EventRoute::Dismiss(message);
                }
            }
        }
        EventRoute::ForwardToContent
    }
}

} // verus!
