use crate::app::ScreenType;
use crate::input::Key;
use crate::models::test::texts;
use crate::screens::{names, names_of, Paint};
use crate::ui::menu::{selection_after_next, selection_after_previous, Menu};
use vstd::prelude::*;

verus! {

/// The list of the finished tests, each of which can be run again or have
/// its latest result shown. Each entry is an identifier and the name under
/// which the test is shown.
pub struct Rerun {
    pub first_render: bool,
    pub locale: String,
    pub items: Vec<(String, String)>,
    pub list: Menu,
}

impl Rerun {
    /// The screen is well formed when the menu shows the names of the
    /// entries, and the highlight is on one of them.
    pub open spec fn wf(&self) -> bool {
        &&& self.list.wf()
        &&& texts(self.list.items@) == names_of(self.items@)
    }

    /// Whether the entries are a list as the store gives it, or none at all,
    /// with the highlight on the first of them.
    pub open spec fn lists_store(&self) -> bool {
        &&& crate::service::dbservice::is_listing(crate::service::dbservice::pair_texts(self.items@))
            || self.items@.len() == 0
        &&& self.list.selected == crate::screens::runner::first_selection(self.items@.len())
    }

    /// The identifier of the highlighted entry, if there is one.
    pub open spec fn chosen(&self) -> Option<Seq<char>> {
        match self.list.selected {
            Some(idx) => if idx < self.items@.len() {
                Some(self.items@[idx as int].0@)
            } else {
                None
            },
            None => None,
        }
    }

    /// The screen that `code` leads to: back leads home; with an entry
    /// highlighted, `r` opens a run of it and enter shows its result.
    pub open spec fn screen_after(&self, code: Key) -> ScreenType {
        if code.is_letter('b', 'B') {
            ScreenType::Home
        } else if code.is_letter('r', 'R') && self.chosen() is Some {
            ScreenType::Runner
        } else if code == Key::Enter && self.chosen() is Some {
            ScreenType::Results
        } else {
            ScreenType::Rerun
        }
    }

    /// The identifier that goes with the screen that `code` leads to: that of
    /// the highlighted entry where a run or a result is opened, else nothing.
    pub open spec fn id_after(&self, code: Key) -> Seq<char> {
        if (code.is_letter('r', 'R') || code == Key::Enter) && self.chosen() is Some {
            self.chosen()->0
        } else {
            Seq::<char>::empty()
        }
    }

    /// The list of the entries `items`, with the highlight on the first.
    pub fn new(items: Vec<(String, String)>, locale: String) -> (r: Self)
        ensures
            r.wf(),
            r.first_render,
            r.locale == locale,
            r.items == items,
            r.list.selected == crate::screens::runner::first_selection(items@.len()),
    {
        let list = Menu::new(names(&items));
        assert(list.items@.len() == texts(list.items@).len());
        Rerun { first_render: true, locale, items, list }
    }

    /// Replaces the entries, and puts the highlight on the first of them.
    pub fn update_items(&mut self, items: Vec<(String, String)>)
        ensures
            final(self).wf(),
            final(self).first_render == old(self).first_render,
            final(self).locale == old(self).locale,
            final(self).items == items,
            final(self).list.selected == crate::screens::runner::first_selection(items@.len()),
    {
        let list = Menu::new(names(&items));
        assert(list.items@.len() == texts(list.items@).len());
        self.items = items;
        self.list = list;
    }

    /// Decides what to paint: the first frame is a cleared screen.
    pub fn draw(&mut self) -> (page: Paint)
        ensures
            !final(self).first_render,
            final(self).locale == old(self).locale,
            final(self).items == old(self).items,
            final(self).list == old(self).list,
            page == (if old(self).first_render {
                Paint::Clear
            } else {
                Paint::Page
            }),
    {
        if self.first_render {
            self.first_render = false;
            return Paint::Clear;
        }
        Paint::Page
    }

    /// Handles a key press: up and down move the highlight, and the screen to
    /// show next comes back with the identifier that goes with it.
    pub fn handle_key_code(&mut self, code: Key) -> (r: (ScreenType, String))
        requires
            old(self).wf(),
        ensures
            final(self).wf(),
            final(self).first_render == old(self).first_render,
            final(self).locale == old(self).locale,
            final(self).items == old(self).items,
            final(self).list.items == old(self).list.items,
            final(self).list.selected == (if code == Key::Up {
                selection_after_previous(old(self).list.selected, old(self).list.items@.len())
            } else if code == Key::Down {
                selection_after_next(old(self).list.selected, old(self).list.items@.len())
            } else {
                old(self).list.selected
            }),
            r.0 == old(self).screen_after(code),
            r.1@ == old(self).id_after(code),
    {
        if code.letter('b', 'B') {
            return (ScreenType::Home, String::new());
        }
        if code.letter('r', 'R') {
            return self.handle_rerun();
        }
        match code {
            Key::Up => self.list.previous(),
            Key::Down => self.list.next(),
            Key::Enter => {
                return self.handle_show_results();
            },
            _ => {},
        }
        (ScreenType::Rerun, String::new())
    }

    /// A copy of the identifier of the highlighted entry, if there is one.
    fn chosen_id(&self) -> (r: Option<String>)
        ensures
            r is Some == self.chosen() is Some,
            r is Some ==> r->0@ == self.chosen()->0,
    {
        match self.list.selected() {
            Some(idx) => {
                if idx < self.items.len() {
                    Some(self.items[idx].0.clone())
                } else {
                    None
                }
            },
            None => None,
        }
    }

    fn handle_rerun(&mut self) -> (r: (ScreenType, String))
        ensures
            *final(self) == *old(self),
            r.0 == (if old(self).chosen() is Some {
                ScreenType::Runner
            } else {
                ScreenType::Rerun
            }),
            r.1@ == (if old(self).chosen() is Some {
                old(self).chosen()->0
            } else {
                Seq::<char>::empty()
            }),
    {
        match self.chosen_id() {
            Some(id) => (ScreenType::Runner, id),
            None => (ScreenType::Rerun, String::new()),
        }
    }

    fn handle_show_results(&mut self) -> (r: (ScreenType, String))
        ensures
            *final(self) == *old(self),
            r.0 == (if old(self).chosen() is Some {
                ScreenType::Results
            } else {
                ScreenType::Rerun
            }),
            r.1@ == (if old(self).chosen() is Some {
                old(self).chosen()->0
            } else {
                Seq::<char>::empty()
            }),
    {
        match self.chosen_id() {
            Some(id) => (ScreenType::Results, id),
            None => (ScreenType::Rerun, String::new()),
        }
    }
}

} // verus!
