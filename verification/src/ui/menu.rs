use vstd::prelude::*;
use vstd::string::StringExecFns;

verus! {

/// A list of entries of which one is highlighted.
#[derive(Clone, Debug)]
pub struct Menu {
    pub selected: Option<usize>,
    pub items: Vec<String>,
}

/// The entry that is highlighted after a step down from `selected` in a list
/// of `len` entries: the next one, the last one staying where it is.
pub open spec fn selection_after_next(selected: Option<usize>, len: nat) -> Option<usize> {
    match selected {
        Some(i) => if i + 1 < len {
            Some((i + 1) as usize)
        } else {
            Some(i)
        },
        None => if len > 0 {
            Some(0)
        } else {
            None
        },
    }
}

/// The entry that is highlighted after a step up from `selected` in a list of
/// `len` entries: the one before, the first one staying where it is.
pub open spec fn selection_after_previous(selected: Option<usize>, len: nat) -> Option<usize> {
    match selected {
        Some(i) => if i > 0 {
            Some((i - 1) as usize)
        } else {
            Some(0)
        },
        None => if len > 0 {
            Some(0)
        } else {
            None
        },
    }
}

impl Menu {
    /// A menu is well formed when the highlight, if there is one, is on one of
    /// its entries.
    pub open spec fn wf(&self) -> bool {
        match self.selected {
            Some(i) => i < self.items@.len(),
            None => true,
        }
    }

    /// The entry that is highlighted, if any.
    pub fn selected(&self) -> (r: Option<usize>)
        ensures
            r == self.selected,
    {
        self.selected
    }

    /// Puts the highlight on the entry `index`, or takes it away.
    pub fn select(&mut self, index: Option<usize>)
        ensures
            final(self).items == old(self).items,
            final(self).selected == index,
    {
        self.selected = index;
    }

    /// The menu of the start page in English.
    pub fn home() -> (m: Self)
        ensures
            m.wf(),
            m.selected == Some(0usize),
            m.items@.len() == 5,
            m.items@[0]@ == "[t] Tests"@,
            m.items@[1]@ == "[r] Results"@,
            m.items@[2]@ == "[d] Redo"@,
            m.items@[3]@ == "[h] Help"@,
            m.items@[4]@ == "[q] Exit"@,
    {
        let mut items: Vec<String> = Vec::new();
        items.push(String::from_str("[t] Tests"));
        items.push(String::from_str("[r] Results"));
        items.push(String::from_str("[d] Redo"));
        items.push(String::from_str("[h] Help"));
        items.push(String::from_str("[q] Exit"));
        Self::new(items)
    }

    /// A menu of `items` with the highlight on the first of them.
    pub fn new(items: Vec<String>) -> (m: Self)
        ensures
            m.wf(),
            m.items == items,
            m.selected == (if items@.len() > 0 {
                Some(0usize)
            } else {
                None
            }),
    {
        let selected: Option<usize> = if items.len() > 0 {
            Some(0)
        } else {
            None
        };
        Menu { selected, items }
    }

    /// Moves the highlight one entry down.
    pub fn next(&mut self)
        requires
            old(self).wf(),
        ensures
            final(self).wf(),
            final(self).items == old(self).items,
            final(self).selected == selection_after_next(
                old(self).selected,
                old(self).items@.len(),
            ),
    {
        let i: Option<usize> = match self.selected {
            Some(i) => {
                if i == self.items.len() - 1 {
                    Some(i)
                } else {
                    Some(i + 1)
                }
            },
            None => if self.items.len() > 0 {
                Some(0)
            } else {
                None
            },
        };
        self.selected = i;
    }

    /// Moves the highlight one entry up.
    pub fn previous(&mut self)
        requires
            old(self).wf(),
        ensures
            final(self).wf(),
            final(self).items == old(self).items,
            final(self).selected == selection_after_previous(
                old(self).selected,
                old(self).items@.len(),
            ),
    {
        let i: Option<usize> = match self.selected {
            Some(i) => {
                if i == 0 {
                    Some(0)
                } else {
                    Some(i - 1)
                }
            },
            None => if self.items.len() > 0 {
                Some(0)
            } else {
                None
            },
        };
        self.selected = i;
    }
}

} // verus!
