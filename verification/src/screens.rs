use vstd::prelude::*;

pub mod help;
pub mod home;
pub mod rerun;
pub mod results;
pub mod runner;
pub mod test;

verus! {

/// What a screen with a single page asks to have painted.
#[derive(Clone, Copy, Debug, PartialEq, Eq, Structural)]
pub enum Paint {
    /// Nothing but a cleared screen: the first frame of a screen.
    Clear,
    /// The page of the screen.
    Page,
}

/// The second parts of the pairs `items`, in order.
pub open spec fn names_of(items: Seq<(String, String)>) -> Seq<Seq<char>> {
    Seq::new(items.len(), |i: int| items[i].1@)
}

/// Copies the second part of each pair: the names under which the entries of
/// a list are shown.
pub fn names(items: &Vec<(String, String)>) -> (r: Vec<String>)
    ensures
        crate::models::test::texts(r@) == names_of(items@),
{
    let mut r: Vec<String> = Vec::new();
    let mut i: usize = 0;
    while i < items.len()
        invariant
            i <= items@.len(),
            r@.len() == i,
            forall|k: int| 0 <= k < i ==> r@[k]@ == items@[k].1@,
        decreases items@.len() - i,
    {
        r.push(items[i].1.clone());
        i = i + 1;
    }
    assert(crate::models::test::texts(r@) =~= names_of(items@));
    r
}

} // verus!
