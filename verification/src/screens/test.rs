use crate::app::ScreenType;
use crate::input::Key;
use crate::models::test::texts;
use crate::screens::{names, names_of};
use crate::ui::menu::{selection_after_next, selection_after_previous, Menu};
use vstd::prelude::*;

verus! {

/// What a [`Tests`] screen asks to have painted.
#[derive(Clone, Copy, Debug, PartialEq, Eq, Structural)]
pub enum TestsPage {
    /// Nothing but a cleared screen.
    Clear,
    /// The note that no test is left to do.
    Empty,
    /// The list of tests.
    List,
}

/// The list of the tests that are still to do. Each entry is an identifier
/// and the name under which the test is shown.
pub struct Tests {
    pub first_render: bool,
    pub locale: String,
    pub items: Vec<(String, String)>,
    pub list: Menu,
}

impl Tests {
    /// The screen is well formed when the menu shows the names of the
    /// entries, and the highlight is on one of them.
    pub open spec fn wf(&self) -> bool {
        &&& self.list.wf()
        &&& texts(self.list.items@) == names_of(self.items@)
    }

    /// Whether the entries are a list as the store gives it, or none at all,
    /// with the highlight on the first of them.
    pub open spec fn lists_store(&self) -> bool {
        &&& crate::service::dbservice::is_listing(crate::service::dbservice::pair_texts(self.items@))
            || self.items@.len() == 0
        &&& self.list.selected == crate::screens::runner::first_selection(self.items@.len())
    }

    /// The identifier of the highlighted entry, if there is one.
    pub open spec fn chosen(&self) -> Option<Seq<char>> {
        match self.list.selected {
            Some(idx) => if idx < self.items@.len() {
                Some(self.items@[idx as int].0@)
            } else {
                None
            },
            None => None,
        }
    }

    /// The list of the entries `items`, with the highlight on the first.
    pub fn new(items: Vec<(String, String)>, locale: String) -> (r: Self)
        ensures
            r.wf(),
            r.first_render,
            r.locale == locale,
            r.items == items,
            r.list.selected == crate::screens::runner::first_selection(items@.len()),
    {
        let list = Menu::new(names(&items));
        assert(list.items@.len() == texts(list.items@).len());
        Tests { first_render: true, locale, items, list }
    }

    /// Replaces the entries, and puts the highlight on the first of them.
    pub fn update_items(&mut self, items: Vec<(String, String)>)
        ensures
            final(self).wf(),
            final(self).first_render == old(self).first_render,
            final(self).locale == old(self).locale,
            final(self).items == items,
            final(self).list.selected == crate::screens::runner::first_selection(items@.len()),
    {
        let list = Menu::new(names(&items));
        assert(list.items@.len() == texts(list.items@).len());
        self.items = items;
        self.list = list;
    }

    /// Decides what to paint: the first frame is a cleared screen, after that
    /// the list, or a note where the list is empty.
    pub fn draw(&mut self) -> (page: TestsPage)
        ensures
            !final(self).first_render,
            final(self).locale == old(self).locale,
            final(self).items == old(self).items,
            final(self).list == old(self).list,
            page == (if old(self).first_render {
                TestsPage::Clear
            } else if old(self).items@.len() == 0 {
                TestsPage::Empty
            } else {
                TestsPage::List
            }),
    {
        if self.first_render {
            self.first_render = false;
            return TestsPage::Clear;
        }
        if self.items.len() == 0 {
            TestsPage::Empty
        } else {
            TestsPage::List
        }
    }

    /// Handles a key press: back leads home, up and down move the highlight,
    /// and enter opens a run of the highlighted test, named by its
    /// identifier.
    pub fn handle_key_code(&mut self, code: Key) -> (r: (ScreenType, String))
        requires
            old(self).wf(),
        ensures
            final(self).wf(),
            final(self).first_render == old(self).first_render,
            final(self).locale == old(self).locale,
            final(self).items == old(self).items,
            final(self).list.items == old(self).list.items,
            final(self).list.selected == (if code == Key::Up {
                selection_after_previous(old(self).list.selected, old(self).list.items@.len())
            } else if code == Key::Down {
                selection_after_next(old(self).list.selected, old(self).list.items@.len())
            } else {
                old(self).list.selected
            }),
            r.0 == (if code.is_letter('b', 'B') {
                ScreenType::Home
            } else if code == Key::Enter && old(self).chosen() is Some {
                ScreenType::Runner
            } else {
                ScreenType::Tests
            }),
            r.1@ == (if code == Key::Enter && old(self).chosen() is Some {
                old(self).chosen()->0
            } else {
                Seq::<char>::empty()
            }),
    {
        if code.letter('b', 'B') {
            return (ScreenType::Home, String::new());
        }
        match code {
            Key::Up => self.list.previous(),
            Key::Down => self.list.next(),
            Key::Enter => {
                return self.handle_enter();
            },
            _ => {},
        }
        (ScreenType::Tests, String::new())
    }

    fn handle_enter(&mut self) -> (r: (ScreenType, String))
        ensures
            *final(self) == *old(self),
            r.0 == (if old(self).chosen() is Some {
                ScreenType::Runner
            } else {
                ScreenType::Tests
            }),
            r.1@ == (if old(self).chosen() is Some {
                old(self).chosen()->0
            } else {
                Seq::<char>::empty()
            }),
    {
        match self.list.selected() {
            Some(idx) => {
                if idx < self.items.len() {
                    (ScreenType::Runner, self.items[idx].0.clone())
                } else {
                    (ScreenType::Tests, String::new())
                }
            },
            None => (ScreenType::Tests, String::new()),
        }
    }
}

} // verus!
