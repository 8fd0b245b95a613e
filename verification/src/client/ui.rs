//! The window's contents: the elements shown, and the elements built for the next frame,
//! which are merged into them before drawing.
use vstd::prelude::*;
use crate::client::elements::{
    BaseElement, Rgb8, Widget, base_of, same_kind, diffed, all_dirty, same_but_dirty,
    mark_all_dirty,
};

verus! {

/// The window's contents.
pub struct Ui {
    pub base: BaseElement,
    pub elements: Vec<Widget>,
    pub new_elements: Vec<Widget>,
}

/// What merging the new elements into the shown ones leaves to the caller: the positions
/// of the elements whose frame buffer must be made again at their new size, and the
/// elements no longer shown, whose graphics objects are to be released.
pub struct MergeOutcome {
    pub recreate: Vec<usize>,
    pub dropped: Vec<Widget>,
}

/// Element `i` after merging: an element shown at the same position takes over what
/// changed in a new element of the same kind; otherwise the new element is shown.
pub open spec fn merged_at(old: Seq<Widget>, new: Seq<Widget>, i: int) -> Widget {
    if i < old.len() && same_kind(old[i], new[i]) {
        diffed(old[i], new[i])
    } else {
        new[i]
    }
}

/// Whether element `i` kept its place but changed size.
pub open spec fn resized_at(old: Seq<Widget>, new: Seq<Widget>, i: int) -> bool {
    &&& i < old.len()
    &&& same_kind(old[i], new[i])
    &&& (base_of(old[i]).width != base_of(new[i]).width || base_of(old[i]).height != base_of(
        new[i],
    ).height)
}

/// The positions, in order, of the first `k` elements that changed size.
pub open spec fn resized_prefix(old: Seq<Widget>, new: Seq<Widget>, k: int) -> Seq<int>
    decreases k,
{
    if k <= 0 {
        Seq::empty()
    } else {
        let p = resized_prefix(old, new, k - 1);
        if resized_at(old, new, k - 1) {
            p.push(k - 1)
        } else {
            p
        }
    }
}

/// The shown elements, among the first `k` positions, that a new element of another kind
/// replaces.
pub open spec fn replaced_prefix(old: Seq<Widget>, new: Seq<Widget>, k: int) -> Seq<Widget>
    decreases k,
{
    if k <= 0 {
        Seq::empty()
    } else {
        let p = replaced_prefix(old, new, k - 1);
        if k - 1 < old.len() && !same_kind(old[k - 1], new[k - 1]) {
            p.push(old[k - 1])
        } else {
            p
        }
    }
}

/// The shown elements that merging drops: those replaced, then those past the new count.
pub open spec fn dropped_elements(old: Seq<Widget>, new: Seq<Widget>) -> Seq<Widget> {
    replaced_prefix(old, new, new.len() as int) + if old.len() > new.len() {
        old.skip(new.len() as int)
    } else {
        Seq::empty()
    }
}

impl Ui {
    /// Empty contents of a window of the given size.
    pub fn new(width: u32, height: u32) -> (u: Self)
        ensures
            u.base == BaseElement::new_spec(0, 0, width, height),
            u.elements@.len() == 0,
            u.new_elements@.len() == 0,
    {
        Ui { base: BaseElement::new(0, 0, width, height), elements: Vec::new(), new_elements: Vec::new() }
    }

    /// Records the window's size, without marking anything to be drawn again.
    pub fn update_size(&mut self, w: u32, h: u32)
        ensures
            final(self).base == (BaseElement { width: w, height: h, ..old(self).base }),
            final(self).elements == old(self).elements,
            final(self).new_elements == old(self).new_elements,
    {
        self.base.width = w;
        self.base.height = h;
    }

    /// Records the window's new size; everything must be drawn again.
    pub fn resize(&mut self, w: u32, h: u32)
        ensures
            final(self).base == (BaseElement { width: w, height: h, dirty: true, ..old(self).base }),
            final(self).elements@.len() == old(self).elements@.len(),
            final(self).new_elements@.len() == old(self).new_elements@.len(),
            forall|i: int| 0 <= i < final(self).elements@.len() ==> all_dirty(#[trigger] final(self).elements@[i]),
            forall|i: int|
                0 <= i < final(self).elements@.len() ==> same_but_dirty(
                    #[trigger] old(self).elements@[i],
                    final(self).elements@[i],
                ),
            forall|i: int|
                0 <= i < final(self).new_elements@.len() ==> all_dirty(#[trigger] final(self).new_elements@[i]),
            forall|i: int|
                0 <= i < final(self).new_elements@.len() ==> same_but_dirty(
                    #[trigger] old(self).new_elements@[i],
                    final(self).new_elements@[i],
                ),
    {
        self.update_size(w, h);
        self.mark_dirty_recursive();
    }

    /// The window's width.
    pub fn client_width(&self) -> (w: u32)
        ensures
            w == self.base.width,
    {
        self.base.width
    }

    /// The window's height.
    pub fn client_height(&self) -> (h: u32)
        ensures
            h == self.base.height,
    {
        self.base.height
    }

    /// Sets the window's background colour.
    pub fn set_client_color(&mut self, r: u8, g: u8, b: u8)
        ensures
            final(self).base == (BaseElement { color: Rgb8 { r, g, b }, ..old(self).base }),
            final(self).elements == old(self).elements,
            final(self).new_elements == old(self).new_elements,
    {
        self.base.color = Rgb8 { r, g, b };
    }

    /// Adds an element to those built for the next frame.
    pub fn push_child(&mut self, child: Widget)
        ensures
            final(self).base == old(self).base,
            final(self).elements == old(self).elements,
            final(self).new_elements@ == old(self).new_elements@.push(child),
    {
        self.new_elements.push(child);
    }

    /// Marks the window and every element, shown or built, to be drawn again.
    pub fn mark_dirty_recursive(&mut self)
        ensures
            final(self).base == (BaseElement { dirty: true, ..old(self).base }),
            final(self).elements@.len() == old(self).elements@.len(),
            final(self).new_elements@.len() == old(self).new_elements@.len(),
            forall|i: int| 0 <= i < final(self).elements@.len() ==> all_dirty(#[trigger] final(self).elements@[i]),
            forall|i: int|
                0 <= i < final(self).elements@.len() ==> same_but_dirty(
                    #[trigger] old(self).elements@[i],
                    final(self).elements@[i],
                ),
            forall|i: int|
                0 <= i < final(self).new_elements@.len() ==> all_dirty(#[trigger] final(self).new_elements@[i]),
            forall|i: int|
                0 <= i < final(self).new_elements@.len() ==> same_but_dirty(
                    #[trigger] old(self).new_elements@[i],
                    final(self).new_elements@[i],
                ),
    {
        self.base.dirty = true;
        mark_all_dirty(&mut self.elements);
        mark_all_dirty(&mut self.new_elements);
    }

    /// Merges the elements built for the next frame into those shown, position by
    /// position: a shown element of the same kind takes over what changed, an element of
    /// another kind is replaced, new positions are added and shown elements past the new
    /// count are dropped. The built list is left empty.
    pub fn draw_all(&mut self) -> (out: MergeOutcome)
        ensures
            final(self).base == old(self).base,
            final(self).new_elements@.len() == 0,
            final(self).elements@.len() == old(self).new_elements@.len(),
            forall|i: int|
                0 <= i < final(self).elements@.len() ==> #[trigger] final(self).elements@[i] == merged_at(
                    old(self).elements@,
                    old(self).new_elements@,
                    i,
                ),
            out.recreate@.len() == resized_prefix(
                old(self).elements@,
                old(self).new_elements@,
                old(self).new_elements@.len() as int,
            ).len(),
            forall|k: int|
                0 <= k < out.recreate@.len() ==> #[trigger] out.recreate@[k] as int == resized_prefix(
                    old(self).elements@,
                    old(self).new_elements@,
                    old(self).new_elements@.len() as int,
                )[k],
            out.dropped@ == dropped_elements(old(self).elements@, old(self).new_elements@),
    {
        let ghost olds = self.elements@;
        let ghost news = self.new_elements@;
        let mut old_elems: Vec<Widget> = Vec::new();
        std::mem::swap(&mut old_elems, &mut self.elements);
        let mut fresh: Vec<Widget> = Vec::new();
        std::mem::swap(&mut fresh, &mut self.new_elements);
        let count = fresh.len();
        let mut result: Vec<Widget> = Vec::new();
        let mut recreate: Vec<usize> = Vec::new();
        let mut dropped: Vec<Widget> = Vec::new();
        let mut i: usize = 0;
        while fresh.len() > 0
            invariant
                i == result@.len(),
                i + fresh@.len() == count,
                count == news.len(),
                fresh@ == news.skip(i as int),
                old_elems@ == if i <= olds.len() {
                    olds.skip(i as int)
                } else {
                    Seq::empty()
                },
                forall|k: int| 0 <= k < i ==> #[trigger] result@[k] == merged_at(olds, news, k),
                recreate@.len() == resized_prefix(olds, news, i as int).len(),
                forall|k: int|
                    0 <= k < recreate@.len() ==> #[trigger] recreate@[k] as int == resized_prefix(
                        olds,
                        news,
                        i as int,
                    )[k],
                dropped@ == replaced_prefix(olds, news, i as int),
            decreases fresh@.len(),
        {
            let n = fresh.remove(0);
            assert(n == news[i as int]);
            if old_elems.len() > 0 {
                let mut o = old_elems.remove(0);
                assert(o == olds[i as int]);
                if o.is_same_kind(&n) {
                    let resized = o.diff(&n);
                    if resized {
                        recreate.push(i);
                    }
                    result.push(o);
                } else {
                    dropped.push(o);
                    result.push(n);
                }
            } else {
                result.push(n);
            }
            i = i + 1;
            assert(fresh@ =~= news.skip(i as int));
            assert(old_elems@ =~= if i <= olds.len() {
                olds.skip(i as int)
            } else {
                Seq::empty()
            });
        }
        let ghost before = dropped@;
        let ghost tail = if count <= olds.len() {
            olds.skip(count as int)
        } else {
            Seq::<Widget>::empty()
        };
        let ghost mut k: int = 0;
        assert(old_elems@ == tail.skip(0));
        while old_elems.len() > 0
            invariant
                0 <= k <= tail.len(),
                old_elems@ == tail.skip(k),
                dropped@ == before + tail.take(k),
            decreases old_elems@.len(),
        {
            let o = old_elems.remove(0);
            dropped.push(o);
            proof {
                assert(tail.take(k + 1) =~= tail.take(k).push(tail[k]));
                k = k + 1;
                assert(old_elems@ =~= tail.skip(k));
            }
        }
        assert(tail.take(k) =~= tail);
        self.elements = result;
        MergeOutcome { recreate, dropped }
    }
}

/// After merging, the shown elements follow the built ones kind by kind: whatever was
/// shown before, element `i` is of the kind of the `i`-th element built.
pub proof fn law_merge_follows_kinds(old: Seq<Widget>, new: Seq<Widget>, i: int)
    requires
        0 <= i < new.len(),
    ensures
        same_kind(merged_at(old, new, i), new[i]),
{
}

/// An element that keeps its place takes the place, size and colour of the element built
/// for it: merging a frame into the screen shows the new frame's geometry.
pub proof fn law_merge_takes_geometry(old: Seq<Widget>, new: Seq<Widget>, i: int)
    requires
        0 <= i < new.len(),
    ensures
        base_of(merged_at(old, new, i)).x == base_of(new[i]).x,
        base_of(merged_at(old, new, i)).y == base_of(new[i]).y,
        base_of(merged_at(old, new, i)).width == base_of(new[i]).width,
        base_of(merged_at(old, new, i)).height == base_of(new[i]).height,
        base_of(merged_at(old, new, i)).color == base_of(new[i]).color,
{
}

/// An element that keeps its place (same kind at the same position) is marked to be
/// drawn again whenever the element built for it has another place, size or colour: a
/// change of colour alone makes it dirty, just as a move or a resize does. When nothing
/// changed and the element was clean, it stays clean (a text also when its content is the
/// same).
pub proof fn law_merge_redraws_changes(old: Seq<Widget>, new: Seq<Widget>, i: int)
    requires
        0 <= i < new.len(),
        i < old.len(),
        same_kind(old[i], new[i]),
    ensures
        base_of(old[i]).color != base_of(new[i]).color ==> base_of(merged_at(old, new, i)).dirty,
        base_of(old[i]).x != base_of(new[i]).x ==> base_of(merged_at(old, new, i)).dirty,
        base_of(old[i]).y != base_of(new[i]).y ==> base_of(merged_at(old, new, i)).dirty,
        base_of(old[i]).width != base_of(new[i]).width ==> base_of(merged_at(old, new, i)).dirty,
        base_of(old[i]).height != base_of(new[i]).height ==> base_of(merged_at(old, new, i)).dirty,
        (!base_of(old[i]).dirty && base_of(old[i]).color == base_of(new[i]).color && base_of(old[i]).x
            == base_of(new[i]).x && base_of(old[i]).y == base_of(new[i]).y && base_of(old[i]).width
            == base_of(new[i]).width && base_of(old[i]).height == base_of(new[i]).height && !(
        old[i] is Text && old[i]->Text_0.content@ != new[i]->Text_0.content@)) ==> !base_of(
            merged_at(old, new, i),
        ).dirty,
{
}

} // verus!
