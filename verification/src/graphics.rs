//! Console registration: each console that the application sets up is given
//! an id by which it is found again.
use vstd::prelude::*;

verus! {

/// The id of a registered console.
#[derive(Clone, Copy, Debug, PartialEq, Eq, Structural)]
pub struct ConsoleId(usize);

impl ConsoleId {
    pub closed spec fn index_spec(self) -> usize {
        self.0
    }

    /// The position of the console in the order of registration.
    pub fn index(&self) -> (i: usize)
        ensures
            i == self.index_spec(),
    {
        self.0
    }
}

/// The consoles of the application, in the order in which they were added.
pub struct ConsoleList<C> {
    consoles: Vec<C>,
}

impl<C> View for ConsoleList<C> {
    type V = Seq<C>;

    closed spec fn view(&self) -> Seq<C> {
        self.consoles@
    }
}

impl<C> ConsoleList<C> {
    /// No console yet.
    pub fn new() -> (list: Self)
        ensures
            list@ == Seq::<C>::empty(),
    {
        ConsoleList { consoles: Vec::new() }
    }

    /// The number of registered consoles.
    pub fn len(&self) -> (n: usize)
        ensures
            n == self@.len(),
    {
        self.consoles.len()
    }

    /// Whether `id` names a registered console.
    pub fn is_valid(&self, id: ConsoleId) -> (valid: bool)
        ensures
            valid == (id.index_spec() < self@.len()),
    {
        id.0 < self.consoles.len()
    }

    /// Registers the console that `f` makes from `gfx`, and returns its id:
    /// the number of consoles registered before it.
    pub fn add_console_with<'g, G, F: FnOnce(&'g G) -> C>(&mut self, gfx: &'g G, f: F) -> (id: ConsoleId)
        requires
            f.requires((gfx,)),
        ensures
            id.index_spec() == old(self)@.len(),
            final(self)@.len() == old(self)@.len() + 1,
            final(self)@.drop_last() == old(self)@,
            f.ensures((gfx,), final(self)@.last()),
    {
        let id = ConsoleId(self.consoles.len());
        let console = f(gfx);
        self.consoles.push(console);
        assert(self.consoles@.drop_last() =~= old(self)@);
        id
    }

    /// The console with id `id`.
    pub fn console(&self, id: ConsoleId) -> (console: &C)
        requires
            id.index_spec() < self@.len(),
        ensures
            *console == self@[id.index_spec() as int],
    {
        &self.consoles[id.0]
    }

    /// The console with id `id`, to be changed in place.
    pub fn console_mut(&mut self, id: ConsoleId) -> (console: &mut C)
        requires
            id.index_spec() < old(self)@.len(),
        ensures
            *console == old(self)@[id.index_spec() as int],
            final(self)@ == old(self)@.update(id.index_spec() as int, *final(console)),
    {
        &mut self.consoles[id.0]
    }
}

/// Registering a console gives it the id after all earlier ones: the new id
/// names the new console, and every id handed out before stays valid and
/// names the same console as before.
pub proof fn lemma_add_keeps_ids<C>(
    before: Seq<C>,
    after: Seq<C>,
    added: ConsoleId,
    earlier: ConsoleId,
)
    requires
        after.len() == before.len() + 1,
        after.drop_last() == before,
        added.index_spec() == before.len(),
        earlier.index_spec() < before.len(),
    ensures
        added.index_spec() < after.len(),
        after[added.index_spec() as int] == after.last(),
        earlier.index_spec() < after.len(),
        after[earlier.index_spec() as int] == before[earlier.index_spec() as int],
        earlier != added,
{
    assert(after.drop_last()[earlier.index_spec() as int] == after[earlier.index_spec() as int]);
}

/// Changing a console in place leaves every other console as it was.
pub proof fn lemma_change_is_local<C>(before: Seq<C>, id: ConsoleId, other: ConsoleId, changed: C)
    requires
        id.index_spec() < before.len(),
        other.index_spec() < before.len(),
        other != id,
    ensures
        before.update(id.index_spec() as int, changed)[other.index_spec() as int]
            == before[other.index_spec() as int],
        before.update(id.index_spec() as int, changed)[id.index_spec() as int] == changed,
{
}

} // verus!
