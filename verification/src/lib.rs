//! A reference-counted list with a shared header whose items know their own
//! position, so that a single item can be handed out (for instance as the data
//! of a task waker) and still lead back to the whole list.

mod item_cmp;
pub mod task;
pub mod thin_arc_list;
