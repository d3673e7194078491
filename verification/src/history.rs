//! The navigation history: the addresses visited, oldest first. The last
//! one is the current page.

use crate::address::{join_url, url_join, view_opt, Address, AddressView};
use vstd::prelude::*;

verus! {

/// The addresses visited, in visit order.
pub struct History {
    entries: Vec<Address>,
}

impl View for History {
    type V = Seq<AddressView>;

    closed spec fn view(&self) -> Seq<AddressView> {
        self.entries@.map_values(|a: Address| a@)
    }
}

/// The reference `./`, which names the directory of a document.
pub open spec fn here() -> Seq<char> {
    seq!['.', '/']
}

/// The current page, if any page was visited.
pub open spec fn current(h: Seq<AddressView>) -> Option<AddressView> {
    if h.len() > 0 {
        Some(h.last())
    } else {
        None
    }
}

/// The host of the current page.
pub open spec fn current_host(h: Seq<AddressView>) -> Option<Seq<char>> {
    match current(h) {
        Some(a) => a.host,
        None => None,
    }
}

/// The directory of the current page: its address joined with `./`.
pub open spec fn current_directory(h: Seq<AddressView>) -> Option<Seq<char>> {
    match current(h) {
        Some(a) => url_join(a.text, here()),
        None => None,
    }
}

/// The page that going back leads to: the one before the current page.
pub open spec fn previous(h: Seq<AddressView>) -> Option<AddressView> {
    if h.len() >= 2 {
        Some(h[h.len() - 2])
    } else {
        None
    }
}

/// The history after going back: without the current page, unless there
/// is no page before it.
pub open spec fn after_back(h: Seq<AddressView>) -> Seq<AddressView> {
    if h.len() >= 2 {
        h.drop_last()
    } else {
        h
    }
}

impl History {
    /// A history without any page.
    pub fn new() -> (r: History)
        ensures
            r@ == Seq::<AddressView>::empty(),
    {
        let r = History { entries: Vec::new() };
        assert(r@ =~= Seq::<AddressView>::empty());
        r
    }

    /// The number of pages.
    pub fn len(&self) -> (r: usize)
        ensures
            r == self@.len(),
    {
        self.entries.len()
    }

    /// The current page.
    pub fn current(&self) -> (r: Option<&Address>)
        ensures
            r is Some == (self@.len() > 0),
            r is Some ==> Some(r.unwrap()@) == current(self@),
    {
        let n = self.entries.len();
        if n > 0 {
            Some(&self.entries[n - 1])
        } else {
            None
        }
    }
}

/// Makes `address` the current page.
pub fn append(history: &mut History, address: Address)
    ensures
        final(history)@ == old(history)@.push(address@),
{
    history.entries.push(address);
    assert(history@ =~= old(history)@.push(address@));
}

/// The host of the current page, if there is a page and it has a host.
pub fn get_current_host(history: &History) -> (r: Option<String>)
    ensures
        view_opt(r) == current_host(history@),
{
    match history.current() {
        Some(a) => match a.host_str() {
            Some(h) => Some(h.to_owned()),
            None => None,
        },
        None => None,
    }
}

/// The directory of the current page, as an address in text: what
/// joining `./` to the current address gives, if there is a page and the
/// join succeeds.
pub fn get_current_url(history: &History) -> (r: Option<String>)
    ensures
        view_opt(r) == current_directory(history@),
{
    match history.current() {
        Some(a) => {
            proof {
                reveal_strlit("./");
                assert("./"@ =~= here());
            }
            join_url(a, "./")
        },
        None => None,
    }
}

/// Goes back one page: drops the current page and returns the one before
/// it, which is then current. With fewer than two pages nothing changes
/// and nothing is returned.
pub fn get_previous_url(history: &mut History) -> (r: Option<Address>)
    ensures
        final(history)@ == after_back(old(history)@),
        match r {
            Some(a) => Some(a@),
            None => None,
        } == previous(old(history)@),
{
    if history.entries.len() > 1 {
        history.entries.pop();
        let n = history.entries.len();
        let a = history.entries[n - 1].clone();
        assert(history@ =~= after_back(old(history)@));
        Some(a)
    } else {
        None
    }
}

/// Drops the current page, if there is one. The page before it is then
/// current.
pub fn forget_current(history: &mut History)
    ensures
        final(history)@ == if old(history)@.len() > 0 {
            old(history)@.drop_last()
        } else {
            old(history)@
        },
{
    if history.entries.len() > 0 {
        history.entries.pop();
        assert(history@ =~= old(history)@.drop_last());
    }
}

/// Forgets every page.
pub fn clear(history: &mut History)
    ensures
        final(history)@ == Seq::<AddressView>::empty(),
{
    history.entries.clear();
    assert(history@ =~= Seq::<AddressView>::empty());
}

/// Going back after a visit returns the page that was current before the
/// visit and leaves the history as it was before the visit.
pub proof fn lemma_back_undoes_append(h: Seq<AddressView>, a: AddressView)
    requires
        h.len() > 0,
    ensures
        previous(h.push(a)) == current(h),
        after_back(h.push(a)) == h,
{
    assert(h.push(a).drop_last() =~= h);
}

/// After visits of `a`, `b` and `c` in an empty history, going back
/// returns `b`, then `a`, then nothing.
pub proof fn lemma_back_retraces(a: AddressView, b: AddressView, c: AddressView)
    ensures
        ({
            let h = Seq::<AddressView>::empty().push(a).push(b).push(c);
            &&& previous(h) == Some(b)
            &&& previous(after_back(h)) == Some(a)
            &&& previous(after_back(after_back(h))) == None::<AddressView>
        }),
{
    let h1 = Seq::<AddressView>::empty().push(a);
    lemma_back_undoes_append(h1.push(b), c);
    lemma_back_undoes_append(h1, b);
}

} // verus!
