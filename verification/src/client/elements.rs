//! User-interface elements: their place on screen (relative to their parent and absolute),
//! size, colour and whether their texture must be drawn again. The textures themselves
//! (OpenGL frame buffers, textures and quads) are made by the caller; the element only
//! keeps their handles.
use vstd::prelude::*;
use vstd::string::StringSliceAdditionalSpecFns;

verus! {

/// An RGB colour with 8 bits per channel. The renderer uses each channel divided by 255.
#[derive(Clone, Copy, PartialEq, Eq, Structural)]
pub struct Rgb8 {
    pub r: u8,
    pub g: u8,
    pub b: u8,
}

impl Rgb8 {
    /// The colour with these channels.
    pub fn new(r: u8, g: u8, b: u8) -> (c: Self)
        ensures
            c == (Rgb8 { r, g, b }),
    {
        Rgb8 { r, g, b }
    }

    /// The light blue that new elements start with (0.2, 0.6, 1.0).
    pub fn default_color() -> (c: Self)
        ensures
            c == (Rgb8 { r: 51, g: 153, b: 255 }),
    {
        Rgb8 { r: 51, g: 153, b: 255 }
    }
}

/// What every element has: its place relative to its parent (`x`, `y`) and on the
/// window (`abs_x`, `abs_y`), its size, colour, depth `z`, whether its texture must be
/// drawn again, and the handles of its graphics objects once they exist.
pub struct BaseElement {
    pub abs_x: u32,
    pub abs_y: u32,
    pub x: u32,
    pub y: u32,
    pub width: u32,
    pub height: u32,
    pub color: Rgb8,
    pub dirty: bool,
    pub z: u32,
    pub fbo: Option<u32>,
    pub texture: Option<u32>,
    pub quad_vao: Option<u32>,
    pub quad_vbo: Option<u32>,
}

/// The element can be moved to `(x, y)`: its absolute place is at least its relative
/// place (it lies inside its parent), and the absolute place after the move fits.
pub open spec fn can_move_to(b: BaseElement, x: u32, y: u32) -> bool {
    &&& b.abs_x >= b.x
    &&& b.abs_y >= b.y
    &&& b.abs_x - b.x + x <= u32::MAX
    &&& b.abs_y - b.y + y <= u32::MAX
}

/// The element moved to `(x, y)` inside its parent; its absolute place moves with it.
pub open spec fn moved(b: BaseElement, x: u32, y: u32) -> BaseElement {
    BaseElement { abs_x: (b.abs_x - b.x + x) as u32, abs_y: (b.abs_y - b.y + y) as u32, x, y, ..b }
}

/// The element after taking the place, size and colour of `n`: it must be drawn again when
/// any of them changed. Its absolute place is not touched.
pub open spec fn diffed_base(a: BaseElement, n: BaseElement) -> BaseElement {
    let changed = a.x != n.x || a.y != n.y || a.width != n.width || a.height != n.height
        || a.color != n.color;
    BaseElement {
        x: n.x,
        y: n.y,
        width: n.width,
        height: n.height,
        color: n.color,
        dirty: a.dirty || changed,
        ..a
    }
}

/// The element with colour `c`; it must be drawn again when the colour changed.
pub open spec fn recolored(b: BaseElement, c: Rgb8) -> BaseElement {
    if b.color != c {
        BaseElement { color: c, dirty: true, ..b }
    } else {
        b
    }
}

impl BaseElement {
    /// An element at `(x, y)` (also its absolute place) of the given size, in the default
    /// colour, to be drawn, at depth 0, with no graphics objects yet.
    pub fn new(x: u32, y: u32, width: u32, height: u32) -> (b: Self)
        ensures
            b == (BaseElement {
                abs_x: x,
                abs_y: y,
                x,
                y,
                width,
                height,
                color: Rgb8 { r: 51, g: 153, b: 255 },
                dirty: true,
                z: 0,
                fbo: None,
                texture: None,
                quad_vao: None,
                quad_vbo: None,
            }),
    {
        BaseElement {
            abs_x: x,
            abs_y: y,
            x,
            y,
            width,
            height,
            color: Rgb8::default_color(),
            dirty: true,
            z: 0,
            fbo: None,
            texture: None,
            quad_vao: None,
            quad_vbo: None,
        }
    }

    /// Moves the element to `(x, y)` inside its parent.
    pub fn set_position(&mut self, x: u32, y: u32)
        requires
            can_move_to(*old(self), x, y),
        ensures
            *final(self) == moved(*old(self), x, y),
    {
        self.abs_x = self.abs_x - self.x + x;
        self.abs_y = self.abs_y - self.y + y;
        self.x = x;
        self.y = y;
    }

    /// Moves the element to `(x, y)` and gives it the size `width` × `height`.
    pub fn set_rect(&mut self, x: u32, y: u32, width: u32, height: u32)
        requires
            can_move_to(*old(self), x, y),
        ensures
            *final(self) == (BaseElement { width, height, ..moved(*old(self), x, y) }),
    {
        self.set_position(x, y);
        self.width = width;
        self.height = height;
    }

    /// The texture must be drawn again.
    pub fn mark_dirty(&mut self)
        ensures
            *final(self) == (BaseElement { dirty: true, ..*old(self) }),
    {
        self.dirty = true;
    }

    /// Takes the place, size and colour of `new`. Answers whether the size changed: then
    /// the frame buffer must be made again at the new size.
    pub fn diff(&mut self, new: &BaseElement) -> (resized: bool)
        ensures
            *final(self) == diffed_base(*old(self), *new),
            resized == (old(self).width != new.width || old(self).height != new.height),
    {
        let mut resized = false;
        if self.x != new.x || self.y != new.y {
            self.x = new.x;
            self.y = new.y;
            self.dirty = true;
        }
        if self.width != new.width || self.height != new.height {
            self.width = new.width;
            self.height = new.height;
            resized = true;
            self.dirty = true;
        }
        if self.color != new.color {
            self.color = new.color;
            self.dirty = true;
        }
        resized
    }

    /// Sets the colour from its 8-bit channels.
    pub fn set_color(&mut self, r: u8, g: u8, b: u8)
        ensures
            *final(self) == recolored(*old(self), Rgb8 { r, g, b }),
    {
        self.set_color_rgb(Rgb8 { r, g, b });
    }

    /// The colour.
    pub fn color(&self) -> (c: Rgb8)
        ensures
            c == self.color,
    {
        self.color
    }

    /// Sets the colour.
    pub fn set_color_rgb(&mut self, c: Rgb8)
        ensures
            *final(self) == recolored(*old(self), c),
    {
        if self.color != c {
            self.color = c;
            self.dirty = true;
        }
    }
}

/// A filled rectangle that holds other elements.
pub struct Rect {
    pub base: BaseElement,
    pub children: Vec<Widget>,
}

/// A row of elements laid out from left to right and centred vertically.
pub struct HBox {
    pub base: BaseElement,
    pub children: Vec<Widget>,
}

/// A button: at least its minimum size, grown to hold its one child, which it centres.
pub struct Button {
    pub base: BaseElement,
    pub child: Option<Box<Widget>>,
    pub min_width: u32,
    pub min_height: u32,
}

/// A line of text, drawn in `text_color` on the element's colour.
pub struct Text {
    pub base: BaseElement,
    pub content: String,
    pub text_color: Rgb8,
}

/// An element of the user interface.
pub enum Widget {
    Rect(Rect),
    HBox(HBox),
    Button(Button),
    Text(Text),
}

/// The common part of an element.
pub open spec fn base_of(w: Widget) -> BaseElement {
    match w {
        Widget::Rect(r) => r.base,
        Widget::HBox(h) => h.base,
        Widget::Button(b) => b.base,
        Widget::Text(t) => t.base,
    }
}

/// The element with its common part replaced.
pub open spec fn with_base(w: Widget, b: BaseElement) -> Widget {
    match w {
        Widget::Rect(r) => Widget::Rect(Rect { base: b, ..r }),
        Widget::HBox(h) => Widget::HBox(HBox { base: b, ..h }),
        Widget::Button(x) => Widget::Button(Button { base: b, ..x }),
        Widget::Text(t) => Widget::Text(Text { base: b, ..t }),
    }
}

/// The two elements are of the same kind.
pub open spec fn same_kind(a: Widget, b: Widget) -> bool {
    match (a, b) {
        (Widget::Rect(_), Widget::Rect(_)) => true,
        (Widget::HBox(_), Widget::HBox(_)) => true,
        (Widget::Button(_), Widget::Button(_)) => true,
        (Widget::Text(_), Widget::Text(_)) => true,
        _ => false,
    }
}

/// Element `a` after taking over what changed in `n`, an element of the same kind built
/// anew for the next frame: place, size and colour, and for a text its content (a new
/// content makes it to be drawn again). Children of `a` stay; those of `n` are not taken.
pub open spec fn diffed(a: Widget, n: Widget) -> Widget {
    match (a, n) {
        (Widget::Text(t), Widget::Text(u)) => {
            let b = diffed_base(t.base, u.base);
            if t.content@ != u.content@ {
                Widget::Text(Text { base: BaseElement { dirty: true, ..b }, content: u.content, ..t })
            } else {
                Widget::Text(Text { base: b, ..t })
            }
        },
        _ => with_base(a, diffed_base(base_of(a), base_of(n))),
    }
}

/// Every element of the tree must be drawn again.
pub open spec fn all_dirty(w: Widget) -> bool
    decreases w,
{
    match w {
        Widget::Rect(r) => r.base.dirty && forall|i: int|
            0 <= i < r.children@.len() ==> all_dirty(#[trigger] r.children@[i]),
        Widget::HBox(h) => h.base.dirty && forall|i: int|
            0 <= i < h.children@.len() ==> all_dirty(#[trigger] h.children@[i]),
        Widget::Button(b) => b.base.dirty && match b.child {
            Some(c) => all_dirty(*c),
            None => true,
        },
        Widget::Text(t) => t.base.dirty,
    }
}

/// The two trees are equal but for which elements must be drawn again.
pub open spec fn same_but_dirty(a: Widget, b: Widget) -> bool
    decreases a,
{
    match (a, b) {
        (Widget::Rect(x), Widget::Rect(y)) => {
            &&& y.base == BaseElement { dirty: y.base.dirty, ..x.base }
            &&& x.children@.len() == y.children@.len()
            &&& forall|i: int|
                0 <= i < x.children@.len() ==> same_but_dirty(#[trigger] x.children@[i], y.children@[i])
        },
        (Widget::HBox(x), Widget::HBox(y)) => {
            &&& y.base == BaseElement { dirty: y.base.dirty, ..x.base }
            &&& x.children@.len() == y.children@.len()
            &&& forall|i: int|
                0 <= i < x.children@.len() ==> same_but_dirty(#[trigger] x.children@[i], y.children@[i])
        },
        (Widget::Button(x), Widget::Button(y)) => {
            &&& y.base == BaseElement { dirty: y.base.dirty, ..x.base }
            &&& x.min_width == y.min_width
            &&& x.min_height == y.min_height
            &&& match (x.child, y.child) {
                (Some(c), Some(d)) => same_but_dirty(*c, *d),
                (None, None) => true,
                _ => false,
            }
        },
        (Widget::Text(x), Widget::Text(y)) => {
            &&& y.base == BaseElement { dirty: y.base.dirty, ..x.base }
            &&& x.content == y.content
            &&& x.text_color == y.text_color
        },
        _ => false,
    }
}

impl Widget {
    /// The common part of the element.
    pub fn base(&self) -> (b: &BaseElement)
        ensures
            *b == base_of(*self),
    {
        match self {
            Widget::Rect(r) => &r.base,
            Widget::HBox(h) => &h.base,
            Widget::Button(b) => &b.base,
            Widget::Text(t) => &t.base,
        }
    }

    /// Whether `other` is an element of the same kind.
    pub fn is_same_kind(&self, other: &Widget) -> (r: bool)
        ensures
            r == same_kind(*self, *other),
    {
        match (self, other) {
            (Widget::Rect(_), Widget::Rect(_)) => true,
            (Widget::HBox(_), Widget::HBox(_)) => true,
            (Widget::Button(_), Widget::Button(_)) => true,
            (Widget::Text(_), Widget::Text(_)) => true,
            _ => false,
        }
    }

    /// Moves the element to `(x, y)` inside its parent.
    pub fn set_position(&mut self, x: u32, y: u32)
        requires
            can_move_to(base_of(*old(self)), x, y),
        ensures
            *final(self) == with_base(*old(self), moved(base_of(*old(self)), x, y)),
    {
        match self {
            Widget::Rect(r) => r.base.set_position(x, y),
            Widget::HBox(h) => h.base.set_position(x, y),
            Widget::Button(b) => b.base.set_position(x, y),
            Widget::Text(t) => t.base.set_position(x, y),
        }
    }

    /// Takes over what changed in `other`, an element of the same kind. Answers whether
    /// the size changed (the frame buffer must then be made again).
    pub fn diff(&mut self, other: &Widget) -> (resized: bool)
        requires
            same_kind(*old(self), *other),
        ensures
            *final(self) == diffed(*old(self), *other),
            resized == (base_of(*old(self)).width != base_of(*other).width || base_of(
                *old(self),
            ).height != base_of(*other).height),
    {
        match (self, other) {
            (Widget::Rect(a), Widget::Rect(n)) => a.base.diff(&n.base),
            (Widget::HBox(a), Widget::HBox(n)) => a.base.diff(&n.base),
            (Widget::Button(a), Widget::Button(n)) => a.base.diff(&n.base),
            (Widget::Text(a), Widget::Text(n)) => {
                let resized = a.base.diff(&n.base);
                if !crate::text::str_eq(a.content.as_str(), n.content.as_str()) {
                    a.content = n.content.clone();
                    a.base.dirty = true;
                }
                resized
            },
            _ => false,
        }
    }

    /// Marks the element and all that it holds to be drawn again.
    pub fn mark_dirty_recursive(&mut self)
        ensures
            all_dirty(*final(self)),
            same_but_dirty(*old(self), *final(self)),
        decreases *old(self),
    {
        match self {
            Widget::Rect(r) => {
                r.base.dirty = true;
                mark_all_dirty(&mut r.children);
            },
            Widget::HBox(h) => {
                h.base.dirty = true;
                mark_all_dirty(&mut h.children);
            },
            Widget::Button(b) => {
                b.base.dirty = true;
                match &mut b.child {
                    Some(c) => {
                        c.mark_dirty_recursive();
                    },
                    None => {},
                }
            },
            Widget::Text(t) => {
                t.base.dirty = true;
            },
        }
    }
}

/// Marks all elements of a list, and all that they hold, to be drawn again.
pub fn mark_all_dirty(v: &mut Vec<Widget>)
    ensures
        final(v)@.len() == old(v)@.len(),
        forall|i: int| 0 <= i < final(v)@.len() ==> all_dirty(#[trigger] final(v)@[i]),
        forall|i: int| 0 <= i < final(v)@.len() ==> same_but_dirty(#[trigger] old(v)@[i], final(v)@[i]),
    decreases *old(v),
{
    let ghost ov: Vec<Widget> = *v;
    let ghost orig = v@;
    let mut done: Vec<Widget> = Vec::new();
    let mut rest: Vec<Widget> = Vec::new();
    std::mem::swap(&mut rest, v);
    let n = rest.len();
    while rest.len() > 0
        invariant
            done@.len() + rest@.len() == n,
            n == orig.len(),
            ov == *old(v),
            orig == ov@,
            rest@ == orig.skip(done@.len() as int),
            forall|i: int| 0 <= i < done@.len() ==> all_dirty(#[trigger] done@[i]),
            forall|i: int| 0 <= i < done@.len() ==> same_but_dirty(#[trigger] orig[i], done@[i]),
        decreases rest@.len(),
    {
        let mut c = rest.remove(0);
        assert(c == orig[done@.len() as int]);
        assert(decreases_to!(ov => ov@));
        assert(decreases_to!(ov@ => ov@[done@.len() as int]));
        assert(decreases_to!(ov => ov@[done@.len() as int]));
        c.mark_dirty_recursive();
        done.push(c);
        assert(rest@ =~= orig.skip(done@.len() as int));
    }
    *v = done;
}

/// The total width of the first `k` elements of a row.
pub open spec fn prefix_width(v: Seq<Widget>, k: int) -> int
    decreases k,
{
    if k <= 0 {
        0
    } else {
        prefix_width(v, k - 1) + base_of(v[k - 1]).width
    }
}

/// Where a row of height `height` puts its element `k`: after the elements before it,
/// centred vertically.
pub open spec fn row_place(v: Seq<Widget>, k: int, height: u32) -> (u32, u32) {
    (prefix_width(v, k) as u32, ((height - base_of(v[k]).height) / 2) as u32)
}

/// A row of height `height` can lay out its elements: each is at most as high as the
/// row, the widths add up within range, and each can be moved to its place.
pub open spec fn row_fits(v: Seq<Widget>, height: u32) -> bool {
    &&& prefix_width(v, v.len() as int) <= u32::MAX
    &&& forall|k: int| 0 <= k < v.len() ==> base_of(#[trigger] v[k]).height <= height
    &&& forall|k: int|
        0 <= k < v.len() ==> can_move_to(
            base_of(#[trigger] v[k]),
            row_place(v, k, height).0,
            row_place(v, k, height).1,
        )
}

/// The elements of a row, each moved to its place.
pub open spec fn laid_out_row(old_v: Seq<Widget>, new_v: Seq<Widget>, height: u32) -> bool {
    &&& new_v.len() == old_v.len()
    &&& forall|k: int|
        0 <= k < old_v.len() ==> #[trigger] new_v[k] == with_base(
            old_v[k],
            moved(base_of(old_v[k]), row_place(old_v, k, height).0, row_place(old_v, k, height).1),
        )
}

proof fn lemma_prefix_width_monotone(v: Seq<Widget>, j: int, k: int)
    requires
        0 <= j <= k,
    ensures
        prefix_width(v, j) <= prefix_width(v, k),
    decreases k - j,
{
    if j < k {
        lemma_prefix_width_monotone(v, j, k - 1);
    }
}

/// Lays out a row of height `height`: from left to right, each element right after the
/// one before, centred vertically.
pub fn layout_row(v: &mut Vec<Widget>, height: u32)
    requires
        row_fits(old(v)@, height),
    ensures
        laid_out_row(old(v)@, final(v)@, height),
{
    let ghost orig = v@;
    let mut done: Vec<Widget> = Vec::new();
    let mut rest: Vec<Widget> = Vec::new();
    std::mem::swap(&mut rest, v);
    let n = rest.len();
    let mut x: u32 = 0;
    while rest.len() > 0
        invariant
            done@.len() + rest@.len() == n,
            n == orig.len(),
            row_fits(orig, height),
            rest@ == orig.skip(done@.len() as int),
            x as int == prefix_width(orig, done@.len() as int),
            forall|k: int|
                0 <= k < done@.len() ==> #[trigger] done@[k] == with_base(
                    orig[k],
                    moved(base_of(orig[k]), row_place(orig, k, height).0, row_place(orig, k, height).1),
                ),
        decreases rest@.len(),
    {
        let ghost k = done@.len() as int;
        let mut c = rest.remove(0);
        assert(c == orig[k]);
        let ch = c.base().height;
        let cw = c.base().width;
        assert(base_of(orig[k]).height <= height);
        let y = (height - ch) / 2;
        proof {
            lemma_prefix_width_monotone(orig, k + 1, n as int);
        }
        c.set_position(x, y);
        x = x + cw;
        done.push(c);
        assert(rest@ =~= orig.skip(done@.len() as int));
    }
    *v = done;
}

/// The element after its parent has given it its colour, the depth below the parent and
/// an absolute place inside the parent.
pub open spec fn prepared(b: BaseElement, parent: BaseElement) -> BaseElement {
    BaseElement {
        z: (parent.z + 1) as u32,
        abs_x: (parent.abs_x + b.abs_x) as u32,
        abs_y: (parent.abs_y + b.abs_y) as u32,
        ..recolored(b, parent.color)
    }
}

/// A child can be prepared by `parent`: depth and absolute place stay in range.
pub open spec fn can_prepare(b: BaseElement, parent: BaseElement) -> bool {
    &&& parent.z < u32::MAX
    &&& parent.abs_x + b.abs_x <= u32::MAX
    &&& parent.abs_y + b.abs_y <= u32::MAX
}

/// The button holding a child of size `cw` × `ch`: at least its minimum size and at least
/// the child's size.
pub open spec fn button_size(b: Button, cw: u32, ch: u32) -> (u32, u32) {
    (if b.min_width >= cw { b.min_width } else { cw }, if b.min_height >= ch {
        b.min_height
    } else {
        ch
    })
}

/// What laying out an element does to it: a row places its children; a button grows to
/// hold its child (to be drawn again when its size changed) and centres it; other
/// elements stay as they are.
pub open spec fn laid_out(a: Widget, b: Widget) -> bool {
    match (a, b) {
        (Widget::HBox(x), Widget::HBox(y)) => {
            &&& y.base == x.base
            &&& laid_out_row(x.children@, y.children@, x.base.height)
        },
        (Widget::Button(x), Widget::Button(y)) => match x.child {
            Some(c) => {
                let (w, h) = button_size(x, base_of(*c).width, base_of(*c).height);
                let changed = w != x.base.width || h != x.base.height;
                &&& y.min_width == x.min_width
                &&& y.min_height == x.min_height
                &&& y.base == BaseElement {
                    width: w,
                    height: h,
                    dirty: x.base.dirty || changed,
                    ..x.base
                }
                &&& y.child == Some(
                    Box::new(
                        with_base(
                            *c,
                            moved(
                                base_of(*c),
                                ((w - base_of(*c).width) / 2) as u32,
                                ((h - base_of(*c).height) / 2) as u32,
                            ),
                        ),
                    ),
                )
            },
            None => y == x,
        },
        _ => b == a,
    }
}

/// The element can be laid out: a row's children fit the row; a button's child can be
/// moved to the centre of the button.
pub open spec fn can_lay_out(w: Widget) -> bool {
    match w {
        Widget::HBox(x) => row_fits(x.children@, x.base.height),
        Widget::Button(x) => match x.child {
            Some(c) => {
                let (bw, bh) = button_size(x, base_of(*c).width, base_of(*c).height);
                can_move_to(
                    base_of(*c),
                    ((bw - base_of(*c).width) / 2) as u32,
                    ((bh - base_of(*c).height) / 2) as u32,
                )
            },
            None => true,
        },
        _ => true,
    }
}

impl Widget {
    /// Lays out the element's children (see `laid_out`). Answers whether the element's
    /// own size changed, so that its frame buffer must be made again.
    pub fn layout(&mut self) -> (resized: bool)
        requires
            can_lay_out(*old(self)),
        ensures
            laid_out(*old(self), *final(self)),
            resized == (base_of(*old(self)).width != base_of(*final(self)).width || base_of(
                *old(self),
            ).height != base_of(*final(self)).height),
    {
        match self {
            Widget::HBox(h) => {
                let height = h.base.height;
                layout_row(&mut h.children, height);
                false
            },
            Widget::Button(b) => {
                let min_w = b.min_width;
                let min_h = b.min_height;
                let mut resized = false;
                match &mut b.child {
                    Some(c) => {
                        let cw = c.base().width;
                        let ch = c.base().height;
                        let nw = if min_w >= cw { min_w } else { cw };
                        let nh = if min_h >= ch { min_h } else { ch };
                        if b.base.width != nw || b.base.height != nh {
                            b.base.width = nw;
                            b.base.height = nh;
                            b.base.dirty = true;
                            resized = true;
                        }
                        c.set_position((nw - cw) / 2, (nh - ch) / 2);
                    },
                    None => {},
                }
                resized
            },
            _ => false,
        }
    }

    /// Adds a child: a rectangle or a row appends it to its children, a button makes it
    /// its one child (replacing any earlier), a text has no children and drops it.
    pub fn push_child(&mut self, child: Widget)
        ensures
            match (*old(self), *final(self)) {
                (Widget::Rect(x), Widget::Rect(y)) => y.base == x.base && y.children@ == x.children@.push(child),
                (Widget::HBox(x), Widget::HBox(y)) => y.base == x.base && y.children@ == x.children@.push(child),
                (Widget::Button(x), Widget::Button(y)) => y == Button { child: Some(Box::new(child)), ..x },
                (Widget::Text(x), Widget::Text(y)) => y == x,
                _ => false,
            },
    {
        match self {
            Widget::Rect(r) => r.children.push(child),
            Widget::HBox(h) => h.children.push(child),
            Widget::Button(b) => {
                b.child = Some(Box::new(child));
            },
            Widget::Text(_) => {},
        }
    }

    /// Takes from `parent` the colour, the depth below it and an absolute place inside it.
    pub fn prepare_default(&mut self, parent: &BaseElement)
        requires
            can_prepare(base_of(*old(self)), *parent),
        ensures
            *final(self) == with_base(*old(self), prepared(base_of(*old(self)), *parent)),
    {
        match self {
            Widget::Rect(r) => prepare_base(&mut r.base, parent),
            Widget::HBox(h) => prepare_base(&mut h.base, parent),
            Widget::Button(b) => prepare_base(&mut b.base, parent),
            Widget::Text(t) => prepare_base(&mut t.base, parent),
        }
    }
}

fn prepare_base(b: &mut BaseElement, parent: &BaseElement)
    requires
        can_prepare(*old(b), *parent),
    ensures
        *final(b) == prepared(*old(b), *parent),
{
    let z = parent.z + 1;
    let abs_x = parent.abs_x + b.abs_x;
    let abs_y = parent.abs_y + b.abs_y;
    b.set_color_rgb(parent.color);
    b.z = z;
    b.abs_x = abs_x;
    b.abs_y = abs_y;
}

impl Rect {
    /// A rectangle at `(x, y)` of the given size, with no children.
    pub fn new(x: u32, y: u32, width: u32, height: u32) -> (r: Self)
        ensures
            r.base == BaseElement::new_spec(x, y, width, height),
            r.children@.len() == 0,
    {
        Rect { base: BaseElement::new(x, y, width, height), children: Vec::new() }
    }

    /// Sets the place inside the parent and the size (the absolute place is left as is).
    pub fn set_rect(&mut self, x: u32, y: u32, width: u32, height: u32)
        ensures
            final(self).base == (BaseElement { x, y, width, height, ..old(self).base }),
            final(self).children == old(self).children,
    {
        self.base.x = x;
        self.base.y = y;
        self.base.width = width;
        self.base.height = height;
    }
}

impl HBox {
    /// A row at `(x, y)` of the given size, with no children.
    pub fn new(x: u32, y: u32, width: u32, height: u32) -> (r: Self)
        ensures
            r.base == BaseElement::new_spec(x, y, width, height),
            r.children@.len() == 0,
    {
        HBox { base: BaseElement::new(x, y, width, height), children: Vec::new() }
    }

    /// Sets the place inside the parent and the size (the absolute place is left as is).
    pub fn set_rect(&mut self, x: u32, y: u32, width: u32, height: u32)
        ensures
            final(self).base == (BaseElement { x, y, width, height, ..old(self).base }),
            final(self).children == old(self).children,
    {
        self.base.x = x;
        self.base.y = y;
        self.base.width = width;
        self.base.height = height;
    }

    /// Sets the colour.
    pub fn set_color(&mut self, r: u8, g: u8, b: u8)
        ensures
            final(self).base == recolored(old(self).base, Rgb8 { r, g, b }),
            final(self).children == old(self).children,
    {
        self.base.set_color(r, g, b);
    }
}

impl Button {
    /// A button at `(x, y)` whose minimum size is the given size, with no child.
    pub fn new(x: u32, y: u32, width: u32, height: u32) -> (r: Self)
        ensures
            r.base == BaseElement::new_spec(x, y, width, height),
            r.child is None,
            r.min_width == width,
            r.min_height == height,
    {
        Button { base: BaseElement::new(x, y, width, height), child: None, min_width: width, min_height: height }
    }

    /// Sets the place inside the parent and the minimum size.
    pub fn set_rect(&mut self, x: u32, y: u32, width: u32, height: u32)
        ensures
            *final(self) == (Button {
                base: BaseElement { x, y, ..old(self).base },
                min_width: width,
                min_height: height,
                ..*old(self)
            }),
    {
        self.base.x = x;
        self.base.y = y;
        self.min_width = width;
        self.min_height = height;
    }

    /// Sets the colour.
    pub fn set_color(&mut self, r: u8, g: u8, b: u8)
        ensures
            *final(self) == (Button { base: recolored(old(self).base, Rgb8 { r, g, b }), ..*old(self) }),
    {
        self.base.set_color(r, g, b);
    }
}

impl Text {
    /// Sets the colour of the letters; the text must be drawn again.
    pub fn set_text_color(&mut self, r: u8, g: u8, b: u8)
        ensures
            *final(self) == (Text {
                text_color: Rgb8 { r, g, b },
                base: BaseElement { dirty: true, ..old(self).base },
                ..*old(self)
            }),
    {
        self.text_color = Rgb8 { r, g, b };
        self.base.dirty = true;
    }

    /// Sets the colour behind the letters.
    pub fn set_bg_color(&mut self, r: u8, g: u8, b: u8)
        ensures
            *final(self) == (Text { base: recolored(old(self).base, Rgb8 { r, g, b }), ..*old(self) }),
    {
        self.base.set_color(r, g, b);
    }
}

impl BaseElement {
    /// What `new` makes.
    pub open spec fn new_spec(x: u32, y: u32, width: u32, height: u32) -> BaseElement {
        BaseElement {
            abs_x: x,
            abs_y: y,
            x,
            y,
            width,
            height,
            color: Rgb8 { r: 51, g: 153, b: 255 },
            dirty: true,
            z: 0,
            fbo: None,
            texture: None,
            quad_vao: None,
            quad_vbo: None,
        }
    }
}

impl Text {
    /// A text showing `content`: 16 pixels wide per byte of its UTF-8 form and 32 high,
    /// white letters on white.
    pub fn new(content: &str) -> (t: Self)
        requires
            content.spec_bytes().len() * 16 <= u32::MAX,
        ensures
            t.base == (BaseElement {
                color: Rgb8 { r: 255, g: 255, b: 255 },
                ..BaseElement::new_spec(0, 0, (content.spec_bytes().len() * 16) as u32, 32)
            }),
            t.content@ == content@,
            t.text_color == (Rgb8 { r: 255, g: 255, b: 255 }),
    {
        let n = content.len() as u32;
        let mut t = Text {
            base: BaseElement::new(0, 0, n * 16, 32),
            content: crate::text::copy_str(content),
            text_color: Rgb8 { r: 255, g: 255, b: 255 },
        };
        t.base.set_color(0xff, 0xff, 0xff);
        t
    }
}

/// In a laid-out row, each element starts where the one before it ends.
pub proof fn law_row_elements_touch(v: Seq<Widget>, height: u32, k: int)
    requires
        row_fits(v, height),
        0 <= k,
        k + 1 < v.len(),
    ensures
        row_place(v, k + 1, height).0 == row_place(v, k, height).0 + base_of(v[k]).width,
{
    lemma_prefix_width_monotone(v, k + 1, v.len() as int);
    lemma_prefix_width_monotone(v, 0, k);
    assert(prefix_width(v, k + 1) == prefix_width(v, k) + base_of(v[k]).width);
}

/// A laid-out button holds its child whole: the child lies inside the button, and the
/// button is at least its minimum size.
pub proof fn law_button_holds_child(b: Button, c: Widget)
    requires
        b.child == Some(Box::new(c)),
    ensures
        ({
            let (w, h) = button_size(b, base_of(c).width, base_of(c).height);
            &&& w >= b.min_width && h >= b.min_height
            &&& (w - base_of(c).width) / 2 + base_of(c).width <= w
            &&& (h - base_of(c).height) / 2 + base_of(c).height <= h
        }),
{
}

impl BaseElement {
    /// Whether the element can be moved to `(x, y)` (see `can_move_to`).
    pub fn movable_to(&self, x: u32, y: u32) -> (b: bool)
        ensures
            b == can_move_to(*self, x, y),
    {
        self.abs_x >= self.x && self.abs_y >= self.y && (self.abs_x - self.x) as u64 + x as u64
            <= u32::MAX as u64 && (self.abs_y - self.y) as u64 + y as u64 <= u32::MAX as u64
    }

    /// Whether `parent` can prepare the element (see `can_prepare`).
    pub fn preparable_under(&self, parent: &BaseElement) -> (b: bool)
        ensures
            b == can_prepare(*self, *parent),
    {
        parent.z < u32::MAX && parent.abs_x as u64 + self.abs_x as u64 <= u32::MAX as u64
            && parent.abs_y as u64 + self.abs_y as u64 <= u32::MAX as u64
    }
}

/// Whether a row of height `height` can lay out these elements (see `row_fits`).
pub fn row_can_fit(v: &Vec<Widget>, height: u32) -> (b: bool)
    ensures
        b == row_fits(v@, height),
{
    let mut acc: u64 = 0;
    let mut k: usize = 0;
    while k < v.len()
        invariant
            k <= v.len(),
            acc as int == prefix_width(v@, k as int),
            acc <= u32::MAX,
            forall|j: int| 0 <= j < k ==> base_of(#[trigger] v@[j]).height <= height,
            forall|j: int|
                0 <= j < k ==> can_move_to(
                    base_of(#[trigger] v@[j]),
                    row_place(v@, j, height).0,
                    row_place(v@, j, height).1,
                ),
        decreases v.len() - k,
    {
        let b = v[k].base();
        if b.height > height {
            return false;
        }
        let y = (height - b.height) / 2;
        if !b.movable_to(acc as u32, y) {
            return false;
        }
        acc = acc + b.width as u64;
        if acc > u32::MAX as u64 {
            proof {
                lemma_prefix_width_monotone(v@, k + 1, v.len() as int);
            }
            return false;
        }
        k = k + 1;
    }
    true
}

impl Widget {
    /// Whether the element can be laid out (see `can_lay_out`).
    pub fn can_layout(&self) -> (b: bool)
        ensures
            b == can_lay_out(*self),
    {
        match self {
            Widget::HBox(h) => row_can_fit(&h.children, h.base.height),
            Widget::Button(x) => match &x.child {
                Some(c) => {
                    let cw = c.base().width;
                    let ch = c.base().height;
                    let w = if x.min_width >= cw { x.min_width } else { cw };
                    let h = if x.min_height >= ch { x.min_height } else { ch };
                    c.base().movable_to((w - cw) / 2, (h - ch) / 2)
                },
                None => true,
            },
            _ => true,
        }
    }
}

/// Taking over a new element's base marks the element to be drawn again when the colour
/// changed, as when the place or the size changed, and it takes the new colour.
pub proof fn law_diff_marks_colour_change(a: BaseElement, n: BaseElement)
    ensures
        diffed_base(a, n).color == n.color,
        a.color != n.color ==> diffed_base(a, n).dirty,
        (a.x != n.x || a.y != n.y || a.width != n.width || a.height != n.height) ==> diffed_base(
            a,
            n,
        ).dirty,
        a.dirty ==> diffed_base(a, n).dirty,
{
}

/// A laid-out button centres its child: the free space left and right of the child
/// differs by at most one pixel (the child's x is half the free width, rounded down), and
/// the same holds above and below; the child keeps its size.
pub proof fn law_button_centres_child(x: Button, y: Button)
    requires
        x.child is Some,
        laid_out(Widget::Button(x), Widget::Button(y)),
    ensures
        y.child is Some,
        ({
            let c = *y.child.unwrap();
            let cb = base_of(c);
            &&& cb.width == base_of(*x.child.unwrap()).width
            &&& cb.height == base_of(*x.child.unwrap()).height
            &&& cb.width <= y.base.width && cb.height <= y.base.height
            &&& 2 * cb.x <= y.base.width - cb.width <= 2 * cb.x + 1
            &&& 2 * cb.y <= y.base.height - cb.height <= 2 * cb.y + 1
        }),
{
}

} // verus!
