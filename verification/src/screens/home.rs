use crate::app::ScreenType;
use crate::input::Key;
use crate::screens::Paint;
use crate::ui::menu::{selection_after_next, selection_after_previous, Menu};
use vstd::prelude::*;
use vstd::string::StringExecFns;

verus! {

/// The labels of the entries of the start page, in the language in use.
#[derive(Clone, Debug)]
pub struct HomeLabels {
    pub tests: String,
    pub redo: String,
    pub help: String,
    pub exit: String,
}

/// The screen that an entry of the start page leads to.
pub open spec fn entry_screen(selected: Option<usize>) -> ScreenType {
    match selected {
        Some(i) => if i == 0 {
            ScreenType::Tests
        } else if i == 1 {
            ScreenType::Rerun
        } else if i == 2 {
            ScreenType::Help
        } else if i == 3 {
            ScreenType::Quit
        } else {
            ScreenType::Home
        },
        None => ScreenType::Home,
    }
}

/// The start page: a menu of the other screens.
pub struct Home {
    pub first_render: bool,
    pub locale: String,
    pub menu: Menu,
}

impl Home {
    /// The page is well formed when its menu is.
    pub open spec fn wf(&self) -> bool {
        self.menu.wf()
    }

    /// Whether the menu shows the four entries under the given labels, each
    /// behind its key, with the highlight on the first.
    pub open spec fn shows_texts(
        &self,
        tests: Seq<char>,
        redo: Seq<char>,
        help: Seq<char>,
        exit: Seq<char>,
    ) -> bool {
        &&& self.menu.selected == Some(0usize)
        &&& self.menu.items@.len() == 4
        &&& self.menu.items@[0]@ == seq!['[', 't', ']', ' '] + tests
        &&& self.menu.items@[1]@ == seq!['[', 'r', ']', ' '] + redo
        &&& self.menu.items@[2]@ == seq!['[', 'h', ']', ' '] + help
        &&& self.menu.items@[3]@ == seq!['[', 'q', ']', ' '] + exit
    }

    /// Whether the menu shows the four entries under the labels `labels`,
    /// each behind its key, with the highlight on the first.
    pub open spec fn shows(&self, labels: HomeLabels) -> bool {
        self.shows_texts(labels.tests@, labels.redo@, labels.help@, labels.exit@)
    }

    /// The start page in the language `locale`, whose entries carry the labels
    /// `labels`.
    pub fn new(locale: String, labels: &HomeLabels) -> (home: Self)
        ensures
            home.wf(),
            home.first_render,
            home.locale == locale,
            home.shows(*labels),
    {
        let mut home = Home {
            first_render: true,
            menu: Menu::new(Vec::new()),
            locale: String::new(),
        };
        home.update_locale(locale, labels);
        home
    }

    /// Decides what to paint: the first frame is a cleared screen.
    pub fn draw(&mut self) -> (page: Paint)
        ensures
            !final(self).first_render,
            final(self).locale == old(self).locale,
            final(self).menu == old(self).menu,
            page == (if old(self).first_render {
                Paint::Clear
            } else {
                Paint::Page
            }),
    {
        if self.first_render {
            self.first_render = false;
            return Paint::Clear;
        }
        Paint::Page
    }

    /// Handles a key press: up and down move the highlight, enter follows the
    /// highlighted entry, and `t`, `r` and `h` lead straight to their screens.
    pub fn handle_key_code(&mut self, code: Key) -> (screen: ScreenType)
        requires
            old(self).wf(),
        ensures
            final(self).wf(),
            final(self).first_render == old(self).first_render,
            final(self).locale == old(self).locale,
            final(self).menu.items == old(self).menu.items,
            final(self).menu.selected == (if code == Key::Up {
                selection_after_previous(old(self).menu.selected, old(self).menu.items@.len())
            } else if code == Key::Down {
                selection_after_next(old(self).menu.selected, old(self).menu.items@.len())
            } else {
                old(self).menu.selected
            }),
            screen == (if code == Key::Enter {
                entry_screen(old(self).menu.selected)
            } else if code.is_letter('t', 'T') {
                ScreenType::Tests
            } else if code.is_letter('r', 'R') {
                ScreenType::Rerun
            } else if code.is_letter('h', 'H') {
                ScreenType::Help
            } else {
                ScreenType::Home
            }),
    {
        match code {
            Key::Up => self.menu.previous(),
            Key::Down => self.menu.next(),
            Key::Enter => {
                return self.handle_enter();
            },
            Key::Char(c) => {
                if c == 't' || c == 'T' {
                    return ScreenType::Tests;
                } else if c == 'r' || c == 'R' {
                    return ScreenType::Rerun;
                } else if c == 'h' || c == 'H' {
                    return ScreenType::Help;
                }
            },
            _ => {},
        }
        ScreenType::Home
    }

    /// Takes over a language and the labels of the entries in it, and puts
    /// the highlight back on the first entry.
    pub fn update_locale(&mut self, locale: String, labels: &HomeLabels)
        ensures
            final(self).wf(),
            final(self).first_render == old(self).first_render,
            final(self).locale == locale,
            final(self).shows(*labels),
    {
        proof {
            reveal_strlit("[t] ");
            reveal_strlit("[r] ");
            reveal_strlit("[h] ");
            reveal_strlit("[q] ");
        }
        self.locale = locale;
        let mut menu_items: Vec<String> = Vec::new();
        menu_items.push(String::from_str("[t] ").concat(labels.tests.as_str()));
        menu_items.push(String::from_str("[r] ").concat(labels.redo.as_str()));
        menu_items.push(String::from_str("[h] ").concat(labels.help.as_str()));
        menu_items.push(String::from_str("[q] ").concat(labels.exit.as_str()));
        assert(menu_items@[0]@ =~= seq!['[', 't', ']', ' '] + labels.tests@);
        assert(menu_items@[1]@ =~= seq!['[', 'r', ']', ' '] + labels.redo@);
        assert(menu_items@[2]@ =~= seq!['[', 'h', ']', ' '] + labels.help@);
        assert(menu_items@[3]@ =~= seq!['[', 'q', ']', ' '] + labels.exit@);
        self.menu = Menu::new(menu_items);
    }

    fn handle_enter(&mut self) -> (screen: ScreenType)
        ensures
            *final(self) == *old(self),
            screen == entry_screen(old(self).menu.selected),
    {
        match self.menu.selected() {
            Some(screen) => {
                if screen == 0 {
                    ScreenType::Tests
                } else if screen == 1 {
                    ScreenType::Rerun
                } else if screen == 2 {
                    ScreenType::Help
                } else if screen == 3 {
                    ScreenType::Quit
                } else {
                    ScreenType::Home
                }
            },
            None => ScreenType::Home,
        }
    }
}

} // verus!
