use std::cmp::Ordering;
use vstd::prelude::*;
use vstd::std_specs::cmp::PartialEqSpec;
use vstd::std_specs::cmp::PartialOrdSpec;

use crate::thin_arc_list::ThinArcItem;

verus! {

/// Items compare by the values they stand for. Two items for the same slot are
/// equal without comparing the values.
impl<H, T: PartialEq> PartialEq for ThinArcItem<H, T> {
    fn eq(&self, other: &ThinArcItem<H, T>) -> (r: bool)
        ensures
            r ==> (self.parent() == other.parent() && self.position() == other.position())
                || call_ensures(T::eq, (&self.value(), &other.value()), true),
            !r ==> call_ensures(T::eq, (&self.value(), &other.value()), false),
    {
        self.same_slot(other) || **self == **other
    }

    fn ne(&self, other: &ThinArcItem<H, T>) -> (r: bool)
        ensures
            r ==> call_ensures(T::ne, (&self.value(), &other.value()), true),
            !r ==> (self.parent() == other.parent() && self.position() == other.position())
                || call_ensures(T::ne, (&self.value(), &other.value()), false),
    {
        !self.same_slot(other) && **self != **other
    }
}

impl<H, T: PartialEq> vstd::std_specs::cmp::PartialEqSpecImpl for ThinArcItem<H, T> {
    /// Item equality follows value equality where the values' `==` follows its
    /// specification and holds of every value with itself.
    open spec fn obeys_eq_spec() -> bool {
        &&& T::obeys_eq_spec()
        &&& forall|x: T| #[trigger] x.eq_spec(&x)
    }

    open spec fn eq_spec(&self, other: &ThinArcItem<H, T>) -> bool {
        self.value().eq_spec(&other.value())
    }
}

impl<H, T: Eq> Eq for ThinArcItem<H, T> {

}

/// Items are ordered as the values they stand for.
impl<H, T: PartialOrd> PartialOrd for ThinArcItem<H, T> {
    fn partial_cmp(&self, other: &ThinArcItem<H, T>) -> (r: Option<Ordering>)
        ensures
            call_ensures(T::partial_cmp, (&self.value(), &other.value()), r),
    {
        (**self).partial_cmp(&**other)
    }

    fn lt(&self, other: &ThinArcItem<H, T>) -> (r: bool)
        ensures
            call_ensures(T::lt, (&self.value(), &other.value()), r),
    {
        **self < **other
    }

    fn le(&self, other: &ThinArcItem<H, T>) -> (r: bool)
        ensures
            call_ensures(T::le, (&self.value(), &other.value()), r),
    {
        **self <= **other
    }

    fn gt(&self, other: &ThinArcItem<H, T>) -> (r: bool)
        ensures
            call_ensures(T::gt, (&self.value(), &other.value()), r),
    {
        **self > **other
    }

    fn ge(&self, other: &ThinArcItem<H, T>) -> (r: bool)
        ensures
            call_ensures(T::ge, (&self.value(), &other.value()), r),
    {
        **self >= **other
    }
}

impl<H, T: PartialOrd> vstd::std_specs::cmp::PartialOrdSpecImpl for ThinArcItem<H, T> {
    open spec fn obeys_partial_cmp_spec() -> bool {
        T::obeys_partial_cmp_spec()
    }

    open spec fn partial_cmp_spec(&self, other: &ThinArcItem<H, T>) -> Option<Ordering> {
        self.value().partial_cmp_spec(&other.value())
    }
}

} // verus!
