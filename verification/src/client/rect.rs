//! A plain coloured rectangle drawn through its own frame buffer: its content must be
//! drawn again when its colour or size changes, and its on-screen quad when its place
//! changes.
use vstd::prelude::*;
use crate::client::elements::Rgb8;

verus! {

/// A coloured rectangle.
pub struct Rect {
    pub x: u32,
    pub y: u32,
    pub width: u32,
    pub height: u32,
    pub color: Rgb8,
    pub content_dirty: bool,
    pub quad_dirty: bool,
    pub fbo: Option<u32>,
    pub texture: Option<u32>,
    pub quad_vao: Option<u32>,
    pub quad_vbo: Option<u32>,
}

/// What drawing the rectangle takes: its content and its quad, only its quad, or
/// neither (the texture that is ready is shown in every case).
pub enum RedrawKind {
    Full,
    Position,
    Present,
}

impl Rect {
    /// A light blue rectangle at `(x, y)` of the given size, all to be drawn, with no
    /// graphics objects yet.
    pub fn new(x: u32, y: u32, width: u32, height: u32) -> (r: Self)
        ensures
            r == (Rect {
                x,
                y,
                width,
                height,
                color: Rgb8 { r: 51, g: 153, b: 255 },
                content_dirty: true,
                quad_dirty: true,
                fbo: None,
                texture: None,
                quad_vao: None,
                quad_vbo: None,
            }),
    {
        Rect {
            x,
            y,
            width,
            height,
            color: Rgb8::default_color(),
            content_dirty: true,
            quad_dirty: true,
            fbo: None,
            texture: None,
            quad_vao: None,
            quad_vbo: None,
        }
    }

    /// Sets the colour; a new colour means the content must be drawn again.
    pub fn set_color(&mut self, r: u8, g: u8, b: u8)
        ensures
            *final(self) == if old(self).color != (Rgb8 { r, g, b }) {
                Rect { color: Rgb8 { r, g, b }, content_dirty: true, ..*old(self) }
            } else {
                *old(self)
            },
    {
        let c = Rgb8 { r, g, b };
        if self.color != c {
            self.color = c;
            self.content_dirty = true;
        }
    }

    /// The colour.
    pub fn color(&self) -> (c: Rgb8)
        ensures
            c == self.color,
    {
        self.color
    }

    /// Moves the rectangle; a new place means the quad must be drawn again.
    pub fn set_position(&mut self, x: u32, y: u32)
        ensures
            *final(self) == if old(self).x != x || old(self).y != y {
                Rect { x, y, quad_dirty: true, ..*old(self) }
            } else {
                *old(self)
            },
    {
        if self.x != x || self.y != y {
            self.x = x;
            self.y = y;
            self.quad_dirty = true;
        }
    }

    /// Resizes the rectangle; a new size means content and quad must be drawn again.
    /// Answers whether the size changed: then the frame buffer must be made again at the
    /// new size.
    pub fn set_size(&mut self, width: u32, height: u32) -> (resized: bool)
        ensures
            resized == (old(self).width != width || old(self).height != height),
            *final(self) == if resized {
                Rect { width, height, content_dirty: true, quad_dirty: true, ..*old(self) }
            } else {
                *old(self)
            },
    {
        if self.width != width || self.height != height {
            self.width = width;
            self.height = height;
            self.content_dirty = true;
            self.quad_dirty = true;
            true
        } else {
            false
        }
    }

    /// The quad must be drawn again.
    pub fn mark_quad_dirty(&mut self)
        ensures
            *final(self) == (Rect { quad_dirty: true, ..*old(self) }),
    {
        self.quad_dirty = true;
    }

    /// Says what drawing takes now, and records it as done: afterwards nothing is dirty.
    pub fn draw_step(&mut self) -> (k: RedrawKind)
        ensures
            k == if old(self).content_dirty {
                RedrawKind::Full
            } else if old(self).quad_dirty {
                RedrawKind::Position
            } else {
                RedrawKind::Present
            },
            *final(self) == (Rect { content_dirty: false, quad_dirty: false, ..*old(self) }),
    {
        let k = if self.content_dirty {
            RedrawKind::Full
        } else if self.quad_dirty {
            RedrawKind::Position
        } else {
            RedrawKind::Present
        };
        self.content_dirty = false;
        self.quad_dirty = false;
        k
    }

    /// Takes the place, size and colour of `new`, marking what must be drawn again.
    /// Answers whether the size changed (the frame buffer must then be made again).
    pub fn update_from(&mut self, new: Rect) -> (resized: bool)
        ensures
            resized == (old(self).width != new.width || old(self).height != new.height),
            final(self).x == new.x && final(self).y == new.y,
            final(self).width == new.width && final(self).height == new.height,
            final(self).color == new.color,
            final(self).quad_dirty == (old(self).quad_dirty || old(self).x != new.x || old(self).y
                != new.y || resized),
            final(self).content_dirty == (old(self).content_dirty || resized || old(self).color
                != new.color),
            final(self).fbo == old(self).fbo && final(self).texture == old(self).texture,
            final(self).quad_vao == old(self).quad_vao && final(self).quad_vbo == old(self).quad_vbo,
    {
        let mut resized = false;
        if self.x != new.x || self.y != new.y {
            self.x = new.x;
            self.y = new.y;
            self.quad_dirty = true;
        }
        if self.width != new.width || self.height != new.height {
            self.width = new.width;
            self.height = new.height;
            self.content_dirty = true;
            self.quad_dirty = true;
            resized = true;
        }
        if self.color != new.color {
            self.color = new.color;
            self.content_dirty = true;
        }
        resized
    }
}

/// Two rectangles are equal when they have the same place, size and colour.
pub open spec fn same_rect(a: Rect, b: Rect) -> bool {
    a.x == b.x && a.y == b.y && a.width == b.width && a.height == b.height && a.color == b.color
}

impl PartialEq for Rect {
    fn eq(&self, other: &Self) -> (r: bool) {
        self.x == other.x && self.y == other.y && self.width == other.width && self.height
            == other.height && self.color == other.color
    }
}

impl vstd::std_specs::cmp::PartialEqSpecImpl for Rect {
    open spec fn obeys_eq_spec() -> bool {
        true
    }

    open spec fn eq_spec(&self, other: &Rect) -> bool {
        same_rect(*self, *other)
    }
}

} // verus!
