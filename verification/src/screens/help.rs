use crate::app::ScreenType;
use crate::input::Key;
use crate::models::test::texts;
use crate::screens::{names, names_of, Paint};
use crate::ui::menu::{selection_after_next, selection_after_previous, Menu};
use vstd::prelude::*;

verus! {

/// The help page at rest.
pub const STATE_DEFAULT: u8 = 0;

/// The list of languages is open.
pub const STATE_LANG_SWITCH: u8 = 1;

/// The invitation to import is open.
pub const STATE_IMPORT_SWITCH: u8 = 2;

/// An import is under way.
pub const STATE_IMPORT_PROGRESS: u8 = 3;

/// An import is done and its log is on display.
pub const STATE_IMPORT_DONE: u8 = 4;

/// The position of the first language with the code `code`, if there is one.
pub open spec fn locale_index(all: Seq<(String, String)>, code: Seq<char>) -> Option<usize> {
    if exists|i: int| 0 <= i < all.len() && #[trigger] all[i].0@ == code {
        let i = choose|i: int|
            0 <= i < all.len() && #[trigger] all[i].0@ == code && forall|j: int|
                0 <= j < i ==> (#[trigger] all[j]).0@ != code;
        Some(i as usize)
    } else {
        None
    }
}

/// Finds the position of the first language with the code `code`.
pub fn find_locale(all: &Vec<(String, String)>, code: &String) -> (r: Option<usize>)
    ensures
        r == locale_index(all@, code@),
        r matches Some(i) ==> i < all@.len() && all@[i as int].0@ == code@,
{
    let mut idx: usize = 0;
    while idx < all.len()
        invariant
            idx <= all@.len(),
            forall|j: int| 0 <= j < idx ==> (#[trigger] all@[j]).0@ != code@,
        decreases all@.len() - idx,
    {
        if all[idx].0 == *code {
            proof {
                let i = choose|i: int|
                    0 <= i < all@.len() && #[trigger] all@[i].0@ == code@ && forall|j: int|
                        0 <= j < i ==> (#[trigger] all@[j]).0@ != code@;
                assert(i == idx) by {
                    if i < idx {
                        assert(all@[i].0@ != code@);
                    }
                    if idx < i {
                        assert(all@[idx as int].0@ != code@);
                    }
                }
            }
            return Some(idx);
        }
        idx = idx + 1;
    }
    None
}

/// The help page, on which the language is chosen and an import is started.
/// `state` is one of the five `STATE_` constants.
pub struct Help {
    pub first_render: bool,
    pub locale: String,
    pub state: u8,
    pub import_results: Vec<String>,
    pub all_locales: Vec<(String, String)>,
    pub lang_name: String,
    pub langs: Menu,
}

impl Help {
    /// The page is well formed when the menu shows the names of the
    /// languages, and the highlight, if there is one, is on one of them.
    pub open spec fn wf(&self) -> bool {
        &&& self.langs.wf()
        &&& texts(self.langs.items@) == names_of(self.all_locales@)
    }

    /// Whether enter picks a language: the list of languages is open and one
    /// of them is highlighted.
    pub open spec fn picks(&self) -> bool {
        self.state == STATE_LANG_SWITCH && self.langs.selected is Some && self.langs.selected->0
            < self.all_locales@.len()
    }

    /// The code of the highlighted language.
    pub open spec fn picked_code(&self) -> Seq<char> {
        self.all_locales@[self.langs.selected->0 as int].0@
    }

    /// The name of the highlighted language.
    pub open spec fn picked_name(&self) -> Seq<char> {
        self.all_locales@[self.langs.selected->0 as int].1@
    }

    /// The state that follows on `code`.
    pub open spec fn state_after(&self, code: Key) -> u8 {
        if code.is_letter('b', 'B') {
            STATE_DEFAULT
        } else if code.is_letter('c', 'C') {
            if self.state == STATE_DEFAULT {
                STATE_LANG_SWITCH
            } else if self.state == STATE_LANG_SWITCH {
                STATE_DEFAULT
            } else {
                self.state
            }
        } else if code.is_letter('i', 'I') {
            if self.state == STATE_DEFAULT {
                STATE_IMPORT_SWITCH
            } else if self.state == STATE_IMPORT_SWITCH || self.state == STATE_IMPORT_DONE {
                STATE_DEFAULT
            } else {
                self.state
            }
        } else if code.is_letter('s', 'S') {
            if self.state == STATE_IMPORT_SWITCH {
                STATE_IMPORT_PROGRESS
            } else {
                self.state
            }
        } else if code == Key::Enter {
            if self.picks() {
                STATE_DEFAULT
            } else {
                self.state
            }
        } else if code == Key::Esc {
            if self.state == STATE_LANG_SWITCH || self.state == STATE_IMPORT_SWITCH || self.state
                == STATE_IMPORT_DONE {
                STATE_DEFAULT
            } else {
                self.state
            }
        } else {
            self.state
        }
    }

    /// The highlight in the list of languages that follows on `code`: up and
    /// down move it while the list is open, and escape puts it back on the
    /// language in use.
    pub open spec fn selection_after(&self, code: Key) -> Option<usize> {
        if code == Key::Up && self.state == STATE_LANG_SWITCH {
            selection_after_previous(self.langs.selected, self.langs.items@.len())
        } else if code == Key::Down && self.state == STATE_LANG_SWITCH {
            selection_after_next(self.langs.selected, self.langs.items@.len())
        } else if code == Key::Esc && self.state == STATE_LANG_SWITCH {
            locale_index(self.all_locales@, self.locale@)
        } else {
            self.langs.selected
        }
    }

    /// The screen that `code` leads to: back leads home, and `s` on the
    /// invitation to import starts the import.
    pub open spec fn screen_after(&self, code: Key) -> ScreenType {
        if code.is_letter('b', 'B') {
            ScreenType::Home
        } else if code.is_letter('s', 'S') && self.state == STATE_IMPORT_SWITCH {
            ScreenType::Importer
        } else {
            ScreenType::Help
        }
    }

    /// The page for the language `locale` out of `all_locales`, each of which
    /// is a code and a name.
    pub fn new(locale: String, all_locales: Vec<(String, String)>) -> (r: Self)
        ensures
            r.wf(),
            r.first_render,
            r.locale == locale,
            r.state == STATE_DEFAULT,
            r.import_results@.len() == 0,
            r.all_locales == all_locales,
            r.lang_name@ == (match locale_index(all_locales@, locale@) {
                Some(i) => all_locales@[i as int].1@,
                None => Seq::<char>::empty(),
            }),
            r.langs.selected == crate::screens::runner::first_selection(all_locales@.len()),
    {
        let lang_name = match find_locale(&all_locales, &locale) {
            Some(i) => all_locales[i].1.clone(),
            None => String::new(),
        };
        let langs = Menu::new(names(&all_locales));
        assert(langs.items@.len() == texts(langs.items@).len());
        Help {
            first_render: true,
            locale,
            state: STATE_DEFAULT,
            all_locales,
            lang_name,
            langs,
            import_results: Vec::new(),
        }
    }

    /// Decides what to paint: the first frame is a cleared screen.
    pub fn draw(&mut self) -> (page: Paint)
        ensures
            !final(self).first_render,
            final(self).locale == old(self).locale,
            final(self).state == old(self).state,
            final(self).import_results == old(self).import_results,
            final(self).all_locales == old(self).all_locales,
            final(self).lang_name == old(self).lang_name,
            final(self).langs == old(self).langs,
            page == (if old(self).first_render {
                Paint::Clear
            } else {
                Paint::Page
            }),
    {
        if self.first_render {
            self.first_render = false;
            return Paint::Clear;
        }
        Paint::Page
    }

    /// Handles a key press, and returns the screen to show next together with
    /// the language in use; when `s` is pressed the language is left out.
    pub fn handle_key_code(&mut self, code: Key) -> (r: (ScreenType, String))
        requires
            old(self).wf(),
        ensures
            final(self).wf(),
            final(self).first_render == old(self).first_render,
            final(self).all_locales == old(self).all_locales,
            final(self).langs.items == old(self).langs.items,
            final(self).state == old(self).state_after(code),
            final(self).langs.selected == old(self).selection_after(code),
            r.0 == old(self).screen_after(code),
            code == Key::Enter && old(self).picks() ==> final(self).locale@ == old(
                self,
            ).picked_code() && final(self).lang_name@ == old(self).picked_name(),
            !(code == Key::Enter && old(self).picks()) ==> final(self).locale == old(self).locale
                && final(self).lang_name == old(self).lang_name,
            code.is_letter('b', 'B') ==> final(self).import_results@.len() == 0,
            !code.is_letter('b', 'B') ==> final(self).import_results == old(self).import_results,
            r.1@ == (if code.is_letter('s', 'S') {
                Seq::<char>::empty()
            } else {
                final(self).locale@
            }),
    {
        if code.letter('b', 'B') {
            self.state = STATE_DEFAULT;
            self.import_results = Vec::new();
            return (ScreenType::Home, self.locale.clone());
        }
        if code.letter('c', 'C') {
            self.handle_lang_switch();
        } else if code.letter('i', 'I') {
            self.handle_import_switch();
        } else if code.letter('s', 'S') {
            return self.handle_import();
        } else {
            match code {
                Key::Enter => self.handle_enter(),
                Key::Up => {
                    if self.state == STATE_LANG_SWITCH {
                        self.langs.previous();
                    }
                },
                Key::Down => {
                    if self.state == STATE_LANG_SWITCH {
                        self.langs.next();
                    }
                },
                Key::Esc => {
                    if self.state == STATE_LANG_SWITCH {
                        self.state = STATE_DEFAULT;
                        let loc_idx = self.get_locale_idx();
                        assert(texts(self.langs.items@).len() == self.langs.items@.len());
                        self.langs.select(loc_idx);
                    } else if self.state == STATE_IMPORT_SWITCH || self.state
                        == STATE_IMPORT_DONE {
                        self.state = STATE_DEFAULT;
                    }
                },
                _ => {},
            }
        }
        (ScreenType::Help, self.locale.clone())
    }

    fn handle_lang_switch(&mut self)
        ensures
            *final(self) == (Help {
                state: if old(self).state == STATE_DEFAULT {
                    STATE_LANG_SWITCH
                } else if old(self).state == STATE_LANG_SWITCH {
                    STATE_DEFAULT
                } else {
                    old(self).state
                },
                ..*old(self)
            }),
    {
        if self.state == STATE_DEFAULT {
            self.state = STATE_LANG_SWITCH;
        } else if self.state == STATE_LANG_SWITCH {
            self.state = STATE_DEFAULT;
        }
    }

    fn handle_import_switch(&mut self)
        ensures
            *final(self) == (Help {
                state: if old(self).state == STATE_DEFAULT {
                    STATE_IMPORT_SWITCH
                } else if old(self).state == STATE_IMPORT_SWITCH || old(self).state
                    == STATE_IMPORT_DONE {
                    STATE_DEFAULT
                } else {
                    old(self).state
                },
                ..*old(self)
            }),
    {
        if self.state == STATE_DEFAULT {
            self.state = STATE_IMPORT_SWITCH;
        } else if self.state == STATE_IMPORT_SWITCH || self.state == STATE_IMPORT_DONE {
            self.state = STATE_DEFAULT;
        }
    }

    fn handle_import(&mut self) -> (r: (ScreenType, String))
        ensures
            *final(self) == (Help {
                state: if old(self).state == STATE_IMPORT_SWITCH {
                    STATE_IMPORT_PROGRESS
                } else {
                    old(self).state
                },
                ..*old(self)
            }),
            r.0 == (if old(self).state == STATE_IMPORT_SWITCH {
                ScreenType::Importer
            } else {
                ScreenType::Help
            }),
            r.1@ == Seq::<char>::empty(),
    {
        if self.state != STATE_IMPORT_SWITCH {
            return (ScreenType::Help, String::new());
        }
        self.state = STATE_IMPORT_PROGRESS;
        (ScreenType::Importer, String::new())
    }

    fn handle_enter(&mut self)
        ensures
            final(self).first_render == old(self).first_render,
            final(self).all_locales == old(self).all_locales,
            final(self).langs == old(self).langs,
            final(self).import_results == old(self).import_results,
            old(self).picks() ==> final(self).state == STATE_DEFAULT && final(self).locale@
                == old(self).picked_code() && final(self).lang_name@ == old(self).picked_name(),
            !old(self).picks() ==> *final(self) == *old(self),
    {
        if self.state != STATE_LANG_SWITCH {
            return ;
        }
        match self.langs.selected() {
            Some(idx) => {
                if idx < self.all_locales.len() {
                    let code = self.all_locales[idx].0.clone();
                    let name = self.all_locales[idx].1.clone();
                    self.locale = code;
                    self.lang_name = name;
                    self.state = STATE_DEFAULT;
                }
            },
            None => {},
        }
    }

    fn get_locale_idx(&self) -> (r: Option<usize>)
        ensures
            r == locale_index(self.all_locales@, self.locale@),
            r matches Some(i) ==> i < self.all_locales@.len(),
    {
        find_locale(&self.all_locales, &self.locale)
    }
}

} // verus!
