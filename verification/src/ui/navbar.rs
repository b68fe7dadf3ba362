use vstd::prelude::*;
use vstd::string::StringExecFns;

verus! {

/// The actions that a navigation bar can offer.
#[derive(Clone, Copy, Debug, PartialEq, Eq, Structural)]
pub enum NavType {
    Back,
    Quit,
    Details,
    Next,
    Previous,
    Start,
    Language,
    Rerun,
    Results,
    Import,
}

/// The key that triggers an action, as the navigation bar shows it.
pub open spec fn shortcut(nav: NavType) -> Seq<char> {
    match nav {
        NavType::Back => "b"@,
        NavType::Quit => "q"@,
        NavType::Details => "d"@,
        NavType::Next => "->"@,
        NavType::Previous => "<-"@,
        NavType::Start => "s"@,
        NavType::Language => "c"@,
        NavType::Rerun => "r"@,
        NavType::Results => "ENTER"@,
        NavType::Import => "i"@,
    }
}

/// The key that triggers an action, as the navigation bar shows it.
pub fn get_shortcut(nav: &NavType) -> (s: &'static str)
    ensures
        s@ == shortcut(*nav),
{
    match nav {
        NavType::Back => "b",
        NavType::Quit => "q",
        NavType::Details => "d",
        NavType::Next => "->",
        NavType::Previous => "<-",
        NavType::Start => "s",
        NavType::Language => "c",
        NavType::Rerun => "r",
        NavType::Results => "ENTER",
        NavType::Import => "i",
    }
}

/// The key under which the label of an action is found among the texts of
/// the user interface.
pub open spec fn text_key(nav: NavType) -> Seq<char> {
    match nav {
        NavType::Back => "navigation.back"@,
        NavType::Quit => "navigation.quit"@,
        NavType::Details => "navigation.details"@,
        NavType::Next => "navigation.next"@,
        NavType::Previous => "navigation.previous"@,
        NavType::Start => "navigation.start"@,
        NavType::Language => "navigation.language"@,
        NavType::Rerun => "navigation.rerun"@,
        NavType::Results => "navigation.results"@,
        NavType::Import => "navigation.import"@,
    }
}

/// The key under which the label of an action is looked up.
pub fn get_text_key(nav: &NavType) -> (s: &'static str)
    ensures
        s@ == text_key(*nav),
{
    match nav {
        NavType::Back => "navigation.back",
        NavType::Quit => "navigation.quit",
        NavType::Details => "navigation.details",
        NavType::Next => "navigation.next",
        NavType::Previous => "navigation.previous",
        NavType::Start => "navigation.start",
        NavType::Language => "navigation.language",
        NavType::Rerun => "navigation.rerun",
        NavType::Results => "navigation.results",
        NavType::Import => "navigation.import",
    }
}

/// The two parts of one element of a navigation bar: the key in brackets, and
/// the label between two blanks.
pub open spec fn element(nav: NavType, label: Seq<char>) -> (Seq<char>, Seq<char>) {
    (seq!['['] + shortcut(nav) + seq![']'], seq![' '] + label + seq![' '])
}

/// The element that opens a navigation bar: no key, and the bar's own label
/// followed by a colon.
pub open spec fn lead_element(label: Seq<char>) -> (Seq<char>, Seq<char>) {
    (Seq::<char>::empty(), seq![' '] + label + seq![':', ' '])
}

/// Whether a bar of these actions opens with its own label: every bar does,
/// but the one that begins with `Start`.
pub open spec fn has_lead(items: Seq<NavType>) -> bool {
    !(items.len() > 0 && items[0] == NavType::Start)
}

/// The elements of a navigation bar with the actions `items`, labelled
/// `labels` in the same order.
pub open spec fn elements(items: Seq<NavType>, main_label: Seq<char>, labels: Seq<Seq<char>>) -> Seq<
    (Seq<char>, Seq<char>),
> {
    let rest = Seq::new(items.len(), |i: int| element(items[i], labels[i]));
    if has_lead(items) {
        seq![lead_element(main_label)] + rest
    } else {
        rest
    }
}

/// The text of each part of the elements `v`.
pub open spec fn element_texts(v: Seq<(String, String)>) -> Seq<(Seq<char>, Seq<char>)> {
    Seq::new(v.len(), |i: int| (v[i].0@, v[i].1@))
}

/// The elements of a navigation bar with the actions `items`, labelled
/// `labels` in the same order; `main_label` is the label of the bar itself.
pub fn get_elements(items: &Vec<NavType>, main_label: &str, labels: &Vec<String>) -> (nb: Vec<
    (String, String),
>)
    requires
        labels@.len() == items@.len(),
    ensures
        element_texts(nb@) == elements(
            items@,
            main_label@,
            Seq::new(labels@.len(), |i: int| labels@[i]@),
        ),
{
    proof {
        reveal_strlit("");
        reveal_strlit(" ");
        reveal_strlit(": ");
        reveal_strlit("[");
        reveal_strlit("]");
    }
    let ghost label_texts = Seq::new(labels@.len(), |i: int| labels@[i]@);
    let mut nb: Vec<(String, String)> = Vec::new();
    let lead: bool = !(items.len() > 0 && items[0] == NavType::Start);
    if lead {
        let key = String::from_str("");
        let label = String::from_str(" ").concat(main_label).concat(": ");
        assert(key@ =~= lead_element(main_label@).0);
        assert(label@ =~= lead_element(main_label@).1);
        nb.push((key, label));
        assert(element_texts(nb@) =~= seq![lead_element(main_label@)]);
    } else {
        assert(element_texts(nb@) =~= Seq::<(Seq<char>, Seq<char>)>::empty());
    }
    let ghost head = element_texts(nb@);
    let mut i: usize = 0;
    while i < items.len()
        invariant
            labels@.len() == items@.len(),
            i <= items@.len(),
            label_texts == Seq::new(labels@.len(), |k: int| labels@[k]@),
            element_texts(nb@) == head + Seq::new(
                i as nat,
                |k: int| element(items@[k], label_texts[k]),
            ),
        decreases items@.len() - i,
    {
        let ghost before = element_texts(nb@);
        proof {
            reveal_strlit(" ");
            reveal_strlit("[");
            reveal_strlit("]");
        }
        let key = String::from_str("[").concat(get_shortcut(&items[i])).concat("]");
        let label = String::from_str(" ").concat(labels[i].as_str()).concat(" ");
        assert(key@ =~= element(items@[i as int], label_texts[i as int]).0);
        assert(label@ =~= element(items@[i as int], label_texts[i as int]).1);
        nb.push((key, label));
        proof {
            assert(element_texts(nb@) =~= before + seq![
                element(items@[i as int], label_texts[i as int]),
            ]);
            assert(element_texts(nb@) =~= head + Seq::new(
                (i + 1) as nat,
                |k: int| element(items@[k], label_texts[k]),
            ));
        }
        i = i + 1;
    }
    assert(element_texts(nb@) =~= elements(items@, main_label@, label_texts));
    nb
}

} // verus!
