//! A list together with its selection state, as the interface's list
//! widgets keep it: which entry is highlighted and where the viewport
//! starts. The selection arithmetic mirrors what the rendering layer
//! does, so the logic here can be checked without a terminal.

use vstd::prelude::*;

verus! {

/// Mathematical image of a [`StatefulList`].
pub ghost struct StatefulListModel<T> {
    pub items: Seq<T>,
    pub selected: Option<int>,
    pub offset: int,
}

/// Items plus the selection state of the widget showing them.
#[derive(Debug)]
pub struct StatefulList<T> {
    items: Vec<T>,
    selected: Option<usize>,
    offset: usize,
}

impl<T> View for StatefulList<T> {
    type V = StatefulListModel<T>;

    closed spec fn view(&self) -> StatefulListModel<T> {
        StatefulListModel {
            items: self.items@,
            selected: match self.selected {
                Option::Some(i) => Option::Some(i as int),
                Option::None => Option::None,
            },
            offset: self.offset as int,
        }
    }
}

impl<T> StatefulList<T> {
    /// A list with nothing selected yet.
    pub fn new(items: Vec<T>) -> (r: StatefulList<T>)
        ensures
            r@.items == items@,
            r@.selected is None,
            r@.offset == 0,
    {
        Self { items, selected: None, offset: 0 }
    }

    /// Replaces the items; the selection state is kept.
    pub fn set_items(&mut self, items: Vec<T>)
        ensures
            final(self)@ == (StatefulListModel { items: items@, ..old(self)@ }),
    {
        self.items = items;
    }

    /// Appends one item.
    pub fn push(&mut self, value: T)
        ensures
            final(self)@ == (StatefulListModel {
                items: old(self)@.items.push(value),
                ..old(self)@
            }),
    {
        self.items.push(value)
    }

    /// Whether the list holds nothing.
    pub fn is_empty(&self) -> (r: bool)
        ensures
            r == (self@.items.len() == 0),
    {
        self.items.is_empty()
    }

    /// The items.
    pub fn items(&self) -> (r: &Vec<T>)
        ensures
            r@ == self@.items,
    {
        &self.items
    }

    /// How many items the list holds.
    pub fn len(&self) -> (r: usize)
        ensures
            r == self@.items.len(),
    {
        self.items.len()
    }

    /// Removes and returns the item at `index`, shifting the rest up.
    pub fn remove_item(&mut self, index: usize) -> (r: T)
        requires
            index < old(self)@.items.len(),
        ensures
            r == old(self)@.items[index as int],
            final(self)@ == (StatefulListModel {
                items: old(self)@.items.remove(index as int),
                ..old(self)@
            }),
    {
        self.items.remove(index)
    }

    /// Appends a batch of items, draining the given vector.
    pub fn append_items(&mut self, other: &mut Vec<T>)
        ensures
            final(self)@ == (StatefulListModel {
                items: old(self)@.items + old(other)@,
                ..old(self)@
            }),
            final(other)@.len() == 0,
    {
        self.items.append(other)
    }

    /// Takes every item out, leaving the list empty; the selection state
    /// stays.
    pub fn take_items(&mut self) -> (r: Vec<T>)
        ensures
            r@ == old(self)@.items,
            final(self)@ == (StatefulListModel { items: Seq::empty(), ..old(self)@ }),
    {
        let mut out: Vec<T> = Vec::new();
        core::mem::swap(&mut self.items, &mut out);
        out
    }

    /// The highlighted entry, when there is one.
    pub fn selected(&self) -> (r: Option<usize>)
        ensures
            match r {
                Some(i) => self@.selected == Some(i as int),
                None => self@.selected is None,
            },
    {
        self.selected
    }

    /// Highlights the given entry, or nothing.
    pub fn select(&mut self, selected: Option<usize>)
        ensures
            final(self)@ == (StatefulListModel {
                selected: match selected {
                    Some(i) => Some(i as int),
                    None => None,
                },
                ..old(self)@
            }),
    {
        self.selected = selected;
    }

    /// The first row the viewport shows.
    pub fn offset(&self) -> (r: usize)
        ensures
            r == self@.offset,
    {
        self.offset
    }

    /// Scrolls the viewport to start at the given row.
    pub fn set_offset(&mut self, offset: usize)
        ensures
            final(self)@ == (StatefulListModel { offset: offset as int, ..old(self)@ }),
    {
        self.offset = offset;
    }

    /// Moves the highlight one entry down; with nothing highlighted it
    /// starts at the first entry. The widget clamps the index to the list
    /// when it draws.
    pub fn select_next(&mut self)
        ensures
            final(self)@ == (StatefulListModel {
                selected: Some(
                    match old(self)@.selected {
                        Some(i) => if i < usize::MAX {
                            i + 1
                        } else {
                            i
                        },
                        None => 0,
                    },
                ),
                ..old(self)@
            }),
    {
        self.selected = Some(
            match self.selected {
                Some(i) => if i < usize::MAX {
                    i + 1
                } else {
                    i
                },
                None => 0,
            },
        );
    }

    /// Moves the highlight one entry up; with nothing highlighted it
    /// lands past the end, which the widget clamps to the last entry.
    pub fn select_previous(&mut self)
        ensures
            final(self)@ == (StatefulListModel {
                selected: Some(
                    match old(self)@.selected {
                        Some(i) => if i > 0 {
                            i - 1
                        } else {
                            0
                        },
                        None => usize::MAX as int,
                    },
                ),
                ..old(self)@
            }),
    {
        self.selected = Some(
            match self.selected {
                Some(i) => if i > 0 {
                    i - 1
                } else {
                    0
                },
                None => usize::MAX,
            },
        );
    }

    /// Pulls the highlight back inside the list after items were removed:
    /// an out-of-range highlight moves to the last entry, or goes away
    /// when the list is empty.
    pub fn refresh_state(&mut self)
        ensures
            final(self)@.items == old(self)@.items,
            final(self)@.offset == old(self)@.offset,
            final(self)@.selected == (match old(self)@.selected {
                Some(i) => if i < old(self)@.items.len() {
                    Some(i)
                } else if old(self)@.items.len() > 0 {
                    Some(old(self)@.items.len() - 1)
                } else {
                    Option::<int>::None
                },
                None => Option::<int>::None,
            }),
    {
        if let Some(selected) = self.selected {
            if selected >= self.items.len() {
                if !self.items.is_empty() {
                    self.selected = Some(self.items.len() - 1);
                } else {
                    self.selected = None;
                }
            }
        }
    }
}

} // verus!
