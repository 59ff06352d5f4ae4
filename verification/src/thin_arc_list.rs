use std::sync::Arc;
use vstd::prelude::*;

verus! {

/// A value stored in a [`ThinArcList`], together with the position at which it is stored.
#[derive(Clone, Copy)]
pub struct WithOffset<T> {
    /// the offset in the `ThinArcList` this value is stored
    offset: usize,
    /// the value stored
    pub value: T,
}

impl<T> WithOffset<T> {
    /// The position recorded in this slot.
    pub closed spec fn recorded_offset(self) -> usize {
        self.offset
    }

    /// The value held in this slot.
    pub closed spec fn stored_value(self) -> T {
        self.value
    }
}

/// `Arc::ptr_eq`: whether `a` and `b` point to the same allocation, which then
/// holds one value for both. Two allocations may hold equal values, so a `false`
/// says nothing of the values.
#[verifier::external_body]
fn same_allocation<X>(a: &Arc<X>, b: &Arc<X>) -> (same: bool)
    ensures
        same ==> *a == *b,
{
    Arc::ptr_eq(a, b)
}

/// `Vec::as_mut_slice`: a mutable slice of the whole vector. A `&mut [X]` cannot
/// change its length, so the slice still has the vector's length when the borrow ends.
#[verifier::external_body]
fn whole_mut_slice<X>(v: &mut Vec<X>) -> (s: &mut [X])
    ensures
        s@ == old(v)@,
        final(s)@ == final(v)@,
        final(s)@.len() == s@.len(),
{
    v.as_mut_slice()
}

/// The shared allocation behind a [`ThinArcList`]: a header and the tagged slots.
pub struct HeaderSlice<H, T> {
    /// the header of the list
    pub header: H,
    /// the values of the list, each with its position
    pub slice: Vec<WithOffset<T>>,
}

/// Whether `slots` are the values of `values`, in order, each tagged with its position.
pub open spec fn tags_of<T>(slots: Seq<WithOffset<T>>, values: Seq<T>) -> bool {
    &&& slots.len() == values.len()
    &&& forall|i: int| 0 <= i < slots.len() ==> (#[trigger] slots[i]).stored_value() == values[i]
    &&& positions_recorded(slots)
}

/// Whether every slot of `slots` records its own position.
pub open spec fn positions_recorded<T>(slots: Seq<WithOffset<T>>) -> bool {
    forall|i: int| 0 <= i < slots.len() ==> #[trigger] slots[i].recorded_offset() == i
}

/// A shared, immutable list of values with a header, whose items can be borrowed
/// individually as [`ThinArcItem`]s.
pub struct ThinArcList<H, T> {
    inner: Arc<HeaderSlice<H, T>>,
}

impl<H, T> ThinArcList<H, T> {
    #[verifier::type_invariant]
    spec fn slots_record_positions(self) -> bool {
        positions_recorded(self.inner.slice@)
    }

    /// The shared allocation.
    pub closed spec fn shared(self) -> HeaderSlice<H, T> {
        *self.inner
    }

    /// The header of the list.
    pub open spec fn header_view(self) -> H {
        self.shared().header
    }

    /// The slots of the list, in order.
    pub open spec fn slots(self) -> Seq<WithOffset<T>> {
        self.shared().slice@
    }

    /// The values of the list, in order.
    pub open spec fn values(self) -> Seq<T> {
        self.slots().map_values(|w: WithOffset<T>| w.stored_value())
    }

    /// The number of values in the list.
    pub open spec fn len(self) -> nat {
        self.slots().len()
    }

    /// Builds the slots of a new list: each value of `items`, in order, tagged with its position.
    fn tag_items(items: Vec<T>) -> (slots: Vec<WithOffset<T>>)
        ensures
            tags_of(slots@, items@),
    {
        let ghost original = items@;
        let mut items = items;
        // `pop` hands the values out last first; popping twice restores the order.
        let mut reversed: Vec<T> = Vec::new();
        while items.len() > 0
            invariant
                items@.len() + reversed@.len() == original.len(),
                items@ == original.subrange(0, items@.len() as int),
                forall|j: int| 0 <= j < reversed@.len() ==>
                    #[trigger] reversed@[j] == original[original.len() - 1 - j],
            decreases items@.len(),
        {
            let v = items.pop().unwrap();
            reversed.push(v);
        }
        let mut slots: Vec<WithOffset<T>> = Vec::new();
        while reversed.len() > 0
            invariant
                slots@.len() + reversed@.len() == original.len(),
                forall|j: int| 0 <= j < reversed@.len() ==>
                    #[trigger] reversed@[j] == original[original.len() - 1 - j],
                forall|j: int| 0 <= j < slots@.len() ==>
                    (#[trigger] slots@[j]).stored_value() == original[j],
                positions_recorded(slots@),
            decreases reversed@.len(),
        {
            let offset = slots.len();
            let v = reversed.pop().unwrap();
            slots.push(WithOffset { offset, value: v });
        }
        slots
    }

    /// Makes every slot record its own position again, keeping the values.
    fn record_positions(slots: &mut Vec<WithOffset<T>>)
        ensures
            final(slots)@.len() == old(slots)@.len(),
            forall|i: int| 0 <= i < old(slots)@.len() ==>
                (#[trigger] final(slots)@[i]).stored_value() == old(slots)@[i].stored_value(),
            positions_recorded(final(slots)@),
    {
        let n = slots.len();
        let mut i: usize = 0;
        while i < n
            invariant
                n == slots@.len(),
                n == old(slots)@.len(),
                i <= n,
                forall|j: int| 0 <= j < n ==>
                    (#[trigger] slots@[j]).stored_value() == old(slots)@[j].stored_value(),
                forall|j: int| 0 <= j < i ==> (#[trigger] slots@[j]).recorded_offset() == j,
            decreases n - i,
        {
            slots[i].offset = i;
            i = i + 1;
        }
    }

    /// Creates a `ThinArcList` from the values of `items`, in order, and a header that
    /// `f` computes from the tagged slots. `f` may change the values in the slots, and
    /// the list keeps the values as `f` leaves them; each slot records the position at
    /// which it is stored, also where `f` moved slots around.
    pub fn header_from_iter<F>(items: Vec<T>, f: F) -> (list: Self)
        where
            F: FnOnce(&mut [WithOffset<T>]) -> H,
        requires
            forall|s: &mut [WithOffset<T>]| tags_of(s@, items@) ==> #[trigger] f.requires((s,)),
        ensures
            exists|s: &mut [WithOffset<T>]|
                {
                    &&& tags_of(s@, items@)
                    &&& #[trigger] f.ensures((s,), list.header_view())
                    &&& final(s)@.len() == s@.len()
                    &&& list.values() == final(s)@.map_values(|w: WithOffset<T>| w.stored_value())
                },
            list.len() == items@.len(),
            positions_recorded(list.slots()),
    {
        let mut slots = Self::tag_items(items);
        let ghost tagged_slots = slots@;
        let s = whole_mut_slice(&mut slots);
        let header = f(s);
        let ghost returned = slots@;
        assert(exists|s2: &mut [WithOffset<T>]|
            s2@ == tagged_slots && #[trigger] f.ensures((s2,), header) && final(s2)@ == returned
                && final(s2)@.len() == s2@.len());
        Self::record_positions(&mut slots);
        let list = ThinArcList { inner: Arc::new(HeaderSlice { header, slice: slots }) };
        assert(list.values() =~= returned.map_values(|w: WithOffset<T>| w.stored_value()));
        let ghost witness = choose|s2: &mut [WithOffset<T>]|
            s2@ == tagged_slots && #[trigger] f.ensures((s2,), header) && final(s2)@ == returned
                && final(s2)@.len() == s2@.len();
        assert(f.ensures((witness,), list.header_view()));
        list
    }

    /// Creates a `ThinArcList` holding `header` and the values of `items`, in order.
    pub fn from_header_and_iter(header: H, items: Vec<T>) -> (list: Self)
        ensures
            list.header_view() == header,
            list.values() == items@,
            list.len() == items@.len(),
            positions_recorded(list.slots()),
    {
        let slots = Self::tag_items(items);
        let list = ThinArcList { inner: Arc::new(HeaderSlice { header, slice: slots }) };
        assert(list.values() =~= items@);
        list
    }

    /// The header of the list.
    pub fn header(&self) -> (header: &H)
        ensures
            *header == self.header_view(),
    {
        &self.inner.header
    }

    /// The item at `index`, as [`ThinArcList::with_item`] hands it out.
    pub closed spec fn item_at(self, index: usize) -> ThinArcItem<H, T> {
        ThinArcItem { list: self, pos: index }
    }

    /// Hands the item at `index` to `f` and returns what `f` returns.
    pub fn with_item<F, U>(&self, index: usize, f: F) -> (r: U)
        where
            F: FnOnce(&ThinArcItem<H, T>) -> U,
        requires
            index < self.len(),
            f.requires((&self.item_at(index),)),
        ensures
            f.ensures((&self.item_at(index),), r),
            self.item_at(index).parent() == *self,
            self.item_at(index).position() == index,
            self.item_at(index).in_place(),
    {
        proof {
            use_type_invariant(self);
        }
        let item = ThinArcItem { list: self.clone(), pos: index };
        f(&item)
    }

    /// Hands the shared allocation to `f` and returns what `f` returns.
    pub fn with_arc<F, U>(&self, f: F) -> (r: U)
        where
            F: FnOnce(&Arc<HeaderSlice<H, T>>) -> U,
        requires
            f.requires((&self.arc(),)),
        ensures
            f.ensures((&self.arc(),), r),
            *self.arc() == self.shared(),
            positions_recorded(self.slots()),
    {
        proof {
            use_type_invariant(self);
        }
        f(&self.inner)
    }

    /// The shared pointer to the allocation.
    pub closed spec fn arc(self) -> Arc<HeaderSlice<H, T>> {
        self.inner
    }
}

impl<H, T> Clone for ThinArcList<H, T> {
    /// Another handle on the same list.
    fn clone(&self) -> (list: Self)
        ensures
            list == *self,
            positions_recorded(list.slots()),
    {
        proof {
            use_type_invariant(self);
        }
        ThinArcList { inner: self.inner.clone() }
    }
}

/// One value of a [`ThinArcList`], which keeps the whole list alive and knows its position in it.
pub struct ThinArcItem<H, T> {
    list: ThinArcList<H, T>,
    pos: usize,
}

impl<H, T> ThinArcItem<H, T> {
    #[verifier::type_invariant]
    spec fn position_in_list(self) -> bool {
        self.pos < self.list.inner.slice@.len()
    }

    /// The list this item belongs to.
    pub closed spec fn parent(self) -> ThinArcList<H, T> {
        self.list
    }

    /// The position of this item in its list.
    pub closed spec fn position(self) -> usize {
        self.pos
    }

    /// The item lies within its list, whose slots record their own positions; every
    /// item handed out by this library is in place.
    pub open spec fn in_place(self) -> bool {
        &&& self.position() < self.parent().len()
        &&& positions_recorded(self.parent().slots())
    }

    /// The value this item stands for.
    pub open spec fn value(self) -> T {
        self.parent().values()[self.position() as int]
    }

    /// The raw form of this item: the same slot of the same list.
    pub closed spec fn raw_form(self) -> RawItem<H, T> {
        RawItem { list: self.list, pos: self.pos }
    }

    /// A borrow of this item: the same slot of the same list.
    pub closed spec fn borrowed_form(&self) -> ArcItemBorrow<'_, H, T> {
        ArcItemBorrow { list: &self.list, pos: self.pos }
    }

    /// Gives up this item for its raw form, from which [`ThinArcItem::from_raw`] restores it.
    pub fn into_raw(self) -> (raw: RawItem<H, T>)
        ensures
            raw == self.raw_form(),
            raw.parent() == self.parent(),
            raw.position() == self.position(),
            self.in_place(),
            raw.in_place(),
    {
        proof {
            use_type_invariant(&self.list);
            use_type_invariant(&self);
        }
        RawItem { list: self.list, pos: self.pos }
    }

    /// Restores an item from its raw form.
    pub fn from_raw(raw: RawItem<H, T>) -> (item: Self)
        ensures
            item == raw.restored(),
            item.parent() == raw.parent(),
            item.position() == raw.position(),
            raw.in_place(),
            item.in_place(),
    {
        proof {
            use_type_invariant(&raw.list);
            use_type_invariant(&raw);
        }
        ThinArcItem { list: raw.list, pos: raw.pos }
    }

    /// The raw form of this item, leaving the item in place.
    pub fn as_raw(&self) -> (raw: RawItem<H, T>)
        ensures
            raw == self.raw_form(),
            raw.parent() == self.parent(),
            raw.position() == self.position(),
            self.in_place(),
            raw.in_place(),
    {
        proof {
            use_type_invariant(&self.list);
            use_type_invariant(self);
        }
        RawItem { list: self.list.clone(), pos: self.pos }
    }

    /// Borrows the item that `raw` stands for, for as long as `raw` is borrowed.
    pub fn from_raw_ref<'a>(raw: &'a RawItem<H, T>) -> (borrowed: ArcItemBorrow<'a, H, T>)
        ensures
            borrowed == raw.borrowed_form(),
            borrowed.parent() == raw.parent(),
            borrowed.position() == raw.position(),
            raw.in_place(),
            borrowed.in_place(),
    {
        proof {
            use_type_invariant(&raw.list);
            use_type_invariant(raw);
        }
        ArcItemBorrow { list: &raw.list, pos: raw.pos }
    }

    /// A borrow of this item that can be turned back into a [`ThinArcItem`]: it has the
    /// benefits of an `&T` but also knows about the list, and can make new items from it.
    pub fn borrow_arc(&self) -> (borrowed: ArcItemBorrow<'_, H, T>)
        ensures
            borrowed == self.borrowed_form(),
            borrowed.parent() == self.parent(),
            borrowed.position() == self.position(),
            self.in_place(),
            borrowed.in_place(),
    {
        proof {
            use_type_invariant(&self.list);
            use_type_invariant(self);
        }
        ArcItemBorrow { list: &self.list, pos: self.pos }
    }

    /// The position of this item in its list, as the item's slot records it.
    pub fn index(&self) -> (index: usize)
        ensures
            index == self.position(),
            index < self.parent().len(),
            self.parent().slots()[index as int].recorded_offset() == index,
            positions_recorded(self.parent().slots()),
    {
        proof {
            use_type_invariant(self);
            use_type_invariant(&self.list);
            assert(self.list.inner.slice@[self.pos as int].recorded_offset() == self.pos);
        }
        self.list.inner.slice[self.pos].offset
    }

    /// Whether `self` and `other` are items for the same slot of the same list allocation.
    /// Which allocation a list lives in is an address, which the specification does not
    /// see: a `true` names the same slot of the same list, and a `false` is not tied to
    /// the arguments (two allocations may hold equal lists).
    pub(crate) fn same_slot(&self, other: &Self) -> (same: bool)
        ensures
            same ==> self.parent() == other.parent() && self.position() == other.position(),
    {
        self.pos == other.pos && same_allocation(&self.list.inner, &other.list.inner)
    }

    /// Hands the list this item belongs to to `f` and returns what `f` returns.
    pub fn with_parent<F, U>(&self, f: F) -> (r: U)
        where
            F: FnOnce(&ThinArcList<H, T>) -> U,
        requires
            f.requires((&self.parent(),)),
        ensures
            f.ensures((&self.parent(),), r),
            self.in_place(),
    {
        proof {
            use_type_invariant(self);
            use_type_invariant(&self.list);
        }
        f(&self.list)
    }
}

impl<H, T> Clone for ThinArcItem<H, T> {
    /// Another item for the same value of the same list.
    fn clone(&self) -> (item: Self)
        ensures
            item == *self,
            item.in_place(),
    {
        proof {
            use_type_invariant(&self.list);
            use_type_invariant(self);
        }
        ThinArcItem { list: self.list.clone(), pos: self.pos }
    }
}

impl<H, T> std::ops::Deref for ThinArcItem<H, T> {
    type Target = T;

    fn deref(&self) -> (value: &T)
        ensures
            *value == self.value(),
            self.in_place(),
    {
        proof {
            use_type_invariant(&self.list);
            use_type_invariant(self);
        }
        &self.list.inner.slice[self.pos].value
    }
}

/// The raw form of a [`ThinArcItem`]: a handle on one slot of a list.
pub struct RawItem<H, T> {
    list: ThinArcList<H, T>,
    pos: usize,
}

impl<H, T> RawItem<H, T> {
    #[verifier::type_invariant]
    spec fn position_in_list(self) -> bool {
        self.pos < self.list.inner.slice@.len()
    }

    /// The list the slot belongs to.
    pub closed spec fn parent(self) -> ThinArcList<H, T> {
        self.list
    }

    /// The position of the slot.
    pub closed spec fn position(self) -> usize {
        self.pos
    }

    /// The slot lies within its list, whose slots record their own positions.
    pub open spec fn in_place(self) -> bool {
        &&& self.position() < self.parent().len()
        &&& positions_recorded(self.parent().slots())
    }

    /// The item this raw form stands for.
    pub closed spec fn restored(self) -> ThinArcItem<H, T> {
        ThinArcItem { list: self.list, pos: self.pos }
    }

    /// A borrow of the item this raw form stands for.
    pub closed spec fn borrowed_form(&self) -> ArcItemBorrow<'_, H, T> {
        ArcItemBorrow { list: &self.list, pos: self.pos }
    }
}

/// A borrowed [`ThinArcItem`]: the value of one slot of a list, for the lifetime `'a`.
pub struct ArcItemBorrow<'a, H, T> {
    list: &'a ThinArcList<H, T>,
    pos: usize,
}

impl<'a, H, T> ArcItemBorrow<'a, H, T> {
    #[verifier::type_invariant]
    spec fn position_in_list(self) -> bool {
        self.pos < self.list.inner.slice@.len()
    }

    /// The list the borrowed item belongs to.
    pub closed spec fn parent(self) -> ThinArcList<H, T> {
        *self.list
    }

    /// The position of the borrowed item.
    pub closed spec fn position(self) -> usize {
        self.pos
    }

    /// The borrowed item lies within its list, whose slots record their own positions.
    pub open spec fn in_place(self) -> bool {
        &&& self.position() < self.parent().len()
        &&& positions_recorded(self.parent().slots())
    }

    /// The item that is borrowed.
    pub closed spec fn owned_form(self) -> ThinArcItem<H, T> {
        ThinArcItem { list: *self.list, pos: self.pos }
    }

    /// A new item for the borrowed value.
    pub fn clone_arc(&self) -> (item: ThinArcItem<H, T>)
        ensures
            item == self.owned_form(),
            item.parent() == self.parent(),
            item.position() == self.position(),
            self.in_place(),
            item.in_place(),
    {
        proof {
            use_type_invariant(self.list);
            use_type_invariant(self);
        }
        ThinArcItem { list: self.list.clone(), pos: self.pos }
    }

    /// Hands the borrowed item to `f` and returns what `f` returns.
    pub fn with_arc<F, U>(&self, f: F) -> (r: U)
        where
            F: FnOnce(&ThinArcItem<H, T>) -> U,
        requires
            f.requires((&self.owned_form(),)),
        ensures
            f.ensures((&self.owned_form(),), r),
            self.owned_form().parent() == self.parent(),
            self.owned_form().position() == self.position(),
            self.in_place(),
            self.owned_form().in_place(),
    {
        proof {
            use_type_invariant(self.list);
            use_type_invariant(self);
        }
        let item = ThinArcItem { list: self.list.clone(), pos: self.pos };
        f(&item)
    }
}

/// An item is determined by its list and its position in it.
pub proof fn lemma_item_determined<H, T>(a: ThinArcItem<H, T>, b: ThinArcItem<H, T>)
    requires
        a.parent() == b.parent(),
        a.position() == b.position(),
    ensures
        a == b,
{
}

/// The item at `index` of `list` belongs to `list`, sits at `index` and stands for
/// the value at `index`.
pub proof fn law_item_at<H, T>(list: ThinArcList<H, T>, index: usize)
    requires
        index < list.len(),
    ensures
        list.item_at(index).parent() == list,
        list.item_at(index).position() == index,
        list.item_at(index).value() == list.values()[index as int],
{
}

/// Going from an item to its list and back to the item at the item's position gives
/// the same item.
pub proof fn law_parent_round_trip<H, T>(item: ThinArcItem<H, T>)
    ensures
        item.parent().item_at(item.position()) == item,
{
}

/// Turning an item into its raw form and back gives the same item; the raw form
/// names the item's slot.
pub proof fn law_raw_round_trip<H, T>(item: ThinArcItem<H, T>)
    ensures
        item.raw_form().restored() == item,
        item.raw_form().parent() == item.parent(),
        item.raw_form().position() == item.position(),
{
}

/// Borrowing an item and making an item from the borrow gives the same item; the
/// borrow names the item's slot.
pub proof fn law_borrow_round_trip<H, T>(item: &ThinArcItem<H, T>)
    ensures
        item.borrowed_form().owned_form() == *item,
        item.borrowed_form().parent() == item.parent(),
        item.borrowed_form().position() == item.position(),
{
}

/// Borrowing the item that a raw form stands for, and making an item from the
/// borrow, gives the item that the raw form restores.
pub proof fn law_raw_borrow_agree<H, T>(raw: &RawItem<H, T>)
    ensures
        raw.borrowed_form().owned_form() == raw.restored(),
        raw.borrowed_form().parent() == raw.parent(),
        raw.borrowed_form().position() == raw.position(),
{
}

} // verus!
