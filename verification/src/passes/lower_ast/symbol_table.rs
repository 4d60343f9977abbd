//! The scoped symbol table: one growing store of items indexed by id, and a
//! stack of scopes that bind names to ids.

use vstd::prelude::*;
use crate::ir::table::{ItemId, Table};

verus! {

/// The bindings of one scope, oldest first.
pub type Bindings = Seq<(Seq<char>, ItemId)>;

/// The mathematical state of a scoped table: the items by id, and the open
/// scopes from the root scope to the innermost.
pub struct ScopedTableView<T> {
    pub items: Seq<T>,
    pub scopes: Seq<Bindings>,
}

/// The id that `bindings` gives to `name`, if it binds it.
pub open spec fn bound_in(bindings: Bindings, name: Seq<char>) -> Option<ItemId>
    decreases bindings.len(),
{
    if bindings.len() == 0 {
        None
    } else if bindings.last().0 == name {
        Some(bindings.last().1)
    } else {
        bound_in(bindings.drop_last(), name)
    }
}

/// The id that `name` resolves to in the first `depth` scopes: that of the
/// innermost of them that binds it.
pub open spec fn resolves_within(scopes: Seq<Bindings>, depth: int, name: Seq<char>) -> Option<
    ItemId,
>
    decreases depth,
{
    if depth <= 0 {
        None
    } else {
        match bound_in(scopes[depth - 1], name) {
            Some(id) => Some(id),
            None => resolves_within(scopes, depth - 1, name),
        }
    }
}

impl<T> ScopedTableView<T> {
    /// The state of a new table: no item, and the root scope open.
    pub open spec fn empty() -> Self {
        ScopedTableView { items: Seq::empty(), scopes: seq![Seq::empty()] }
    }

    /// Every bound id is the id of an item, a scope is open, and the ids fit
    /// the machine.
    pub open spec fn wf(self) -> bool {
        &&& self.scopes.len() > 0
        &&& self.items.len() <= usize::MAX
        &&& forall|s: int, b: int|
            0 <= s < self.scopes.len() && 0 <= b < self.scopes[s].len() ==> (
            #[trigger] self.scopes[s][b]).1 < self.items.len()
    }

    /// The bindings of the innermost scope.
    pub open spec fn innermost(self) -> Bindings {
        self.scopes.last()
    }

    /// The id that `name` resolves to: that of the innermost open scope that
    /// binds it.
    pub open spec fn resolves(self, name: Seq<char>) -> Option<ItemId> {
        resolves_within(self.scopes, self.scopes.len() as int, name)
    }

    /// The state after a nested scope was opened.
    pub open spec fn entered(self) -> Self {
        ScopedTableView { items: self.items, scopes: self.scopes.push(Seq::empty()) }
    }

    /// The state after the innermost scope was closed: its bindings are gone,
    /// its items stay.
    pub open spec fn left(self) -> Self {
        ScopedTableView { items: self.items, scopes: self.scopes.drop_last() }
    }

    /// What declaring `name` answers: the id of the new item, or as an error
    /// the id that the innermost scope already binds the name to.
    pub open spec fn declare_result(self, name: Seq<char>) -> Result<ItemId, ItemId> {
        match bound_in(self.innermost(), name) {
            Some(id) => Err(id),
            None => Ok(self.items.len() as ItemId),
        }
    }

    /// The state after declaring `name` for `item`: unchanged where the
    /// innermost scope binds the name already; else the item is stored under
    /// the next id and the innermost scope binds the name to it.
    pub open spec fn declared(self, name: Seq<char>, item: T) -> Self {
        match bound_in(self.innermost(), name) {
            Some(_) => self,
            None => ScopedTableView {
                items: self.items.push(item),
                scopes: self.scopes.update(
                    self.scopes.len() - 1,
                    self.innermost().push((name, self.items.len() as ItemId)),
                ),
            },
        }
    }
}

/// The scoped symbol table.
#[derive(Debug)]
pub struct ScopedTable<T> {
    pub items: Vec<T>,
    pub scopes: Vec<Vec<(String, ItemId)>>,
}

/// The view of the bindings of one scope.
pub open spec fn bindings_view(scope: Seq<(String, ItemId)>) -> Bindings {
    Seq::new(scope.len(), |i: int| (scope[i].0@, scope[i].1))
}

impl<T> ScopedTable<T> {
    /// The mathematical view.
    pub open spec fn view(&self) -> ScopedTableView<T> {
        ScopedTableView {
            items: self.items@,
            scopes: Seq::new(self.scopes@.len(), |s: int| bindings_view(self.scopes@[s]@)),
        }
    }

    /// A table without items, with the root scope open.
    pub fn new() -> (r: Self)
        ensures
            r@ == ScopedTableView::<T>::empty(),
            r@.wf(),
    {
        let mut scopes = Vec::new();
        scopes.push(Vec::new());
        let r = ScopedTable { items: Vec::new(), scopes };
        proof {
            assert(r@.scopes[0] =~= Seq::empty());
            assert(r@.scopes =~= seq![Seq::empty()]);
        }
        r
    }

    /// The number of items declared so far.
    pub fn len(&self) -> (r: usize)
        ensures
            r == self@.items.len(),
    {
        self.items.len()
    }

    /// The number of open scopes.
    pub fn depth(&self) -> (r: usize)
        ensures
            r == self@.scopes.len(),
    {
        self.scopes.len()
    }

    /// Opens a scope nested in the innermost one.
    pub fn new_scope(&mut self)
        requires
            old(self)@.wf(),
        ensures
            final(self)@ == old(self)@.entered(),
            final(self)@.wf(),
    {
        self.scopes.push(Vec::new());
        proof {
            assert(self@.scopes =~= old(self)@.entered().scopes) by {
                assert forall|s: int| 0 <= s < self@.scopes.len() implies self@.scopes[s]
                    =~= old(self)@.entered().scopes[s] by {}
            }
        }
    }

    /// Closes the innermost scope. Its items keep their ids.
    pub fn close_scope(&mut self)
        requires
            old(self)@.wf(),
            old(self)@.scopes.len() > 1,
        ensures
            final(self)@ == old(self)@.left(),
            final(self)@.wf(),
    {
        self.scopes.pop();
        proof {
            assert(self@.scopes =~= old(self)@.left().scopes);
        }
    }

    fn find_in_scope(scope: &Vec<(String, ItemId)>, name: &String) -> (r: Option<ItemId>)
        ensures
            r == bound_in(bindings_view(scope@), name@),
    {
        let mut k: usize = scope.len();
        proof {
            assert(bindings_view(scope@).subrange(0, k as int) =~= bindings_view(scope@));
        }
        while k > 0
            invariant
                k <= scope@.len(),
                bound_in(bindings_view(scope@), name@) == bound_in(
                    bindings_view(scope@).subrange(0, k as int),
                    name@,
                ),
            decreases k,
        {
            let ghost prefix = bindings_view(scope@).subrange(0, k as int);
            proof {
                assert(prefix.last() == (scope@[k - 1].0@, scope@[k - 1].1));
                assert(prefix.drop_last() =~= bindings_view(scope@).subrange(0, k - 1));
            }
            k -= 1;
            if scope[k].0 == *name {
                return Some(scope[k].1);
            }
        }
        None
    }

    /// Resolves `name`: the scopes are searched from the innermost outwards,
    /// and the first that binds the name decides.
    pub fn lookup(&self, name: &String) -> (r: Option<ItemId>)
        ensures
            r == self@.resolves(name@),
            self@.wf() ==> (r matches Some(id) ==> id < self@.items.len()),
    {
        proof {
            if self@.wf() {
                lemma_resolves_is_item(self@, name@);
            }
        }
        let mut depth: usize = self.scopes.len();
        while depth > 0
            invariant
                depth <= self.scopes@.len(),
                self@.resolves(name@) == resolves_within(self@.scopes, depth as int, name@),
                self@.wf() ==> (self@.resolves(name@) matches Some(id) ==> id
                    < self@.items.len()),
            decreases depth,
        {
            depth -= 1;
            match Self::find_in_scope(&self.scopes[depth], name) {
                Some(id) => {
                    return Some(id);
                },
                None => {},
            }
        }
        None
    }

    /// Declares `name` in the innermost scope. Where that scope binds the
    /// name already, nothing changes and the error is the id bound to it;
    /// else the item gets the next id.
    pub fn declare(&mut self, name: String, item: T) -> (r: Result<ItemId, ItemId>)
        requires
            old(self)@.wf(),
        ensures
            r == old(self)@.declare_result(name@),
            final(self)@ == old(self)@.declared(name@, item),
            final(self)@.wf(),
            r matches Err(id) ==> id < old(self)@.items.len(),
    {
        let innermost: usize = self.scopes.len() - 1;
        match Self::find_in_scope(&self.scopes[innermost], &name) {
            Some(id) => {
                proof {
                    lemma_bound_is_listed(self@.scopes[innermost as int], name@);
                }
                Err(id)
            },
            None => {
                let id: ItemId = self.items.len();
                self.items.push(item);
                // the push went through, so the new length fits the machine
                let _ = self.items.len();
                self.scopes[innermost].push((name, id));
                proof {
                    let after = old(self)@.declared(name@, item);
                    assert forall|s: int| 0 <= s < self@.scopes.len() implies self@.scopes[s]
                        =~= after.scopes[s] by {}
                    assert(self@.scopes =~= after.scopes);
                }
                Ok(id)
            },
        }
    }

    /// The item with the given id; it is there whether or not the scope that
    /// declared it is still open.
    pub fn get(&self, id: ItemId) -> (r: &T)
        requires
            id < self@.items.len(),
        ensures
            *r == self@.items[id as int],
    {
        &self.items[id]
    }

    /// The finished table: the items without the scopes.
    pub fn into_table(self) -> (r: Table<T>)
        ensures
            r@ == self@.items,
    {
        Table { items: self.items }
    }
}

/// A name that a scope binds is bound to an id listed in that scope.
pub proof fn lemma_bound_is_listed(bindings: Bindings, name: Seq<char>)
    requires
        bound_in(bindings, name) is Some,
    ensures
        exists|b: int|
            0 <= b < bindings.len() && #[trigger] bindings[b] == (
                name,
                bound_in(bindings, name)->0,
            ),
    decreases bindings.len(),
{
    if bindings.last().0 == name {
        assert(bindings[bindings.len() - 1] == (name, bound_in(bindings, name)->0));
    } else {
        lemma_bound_is_listed(bindings.drop_last(), name);
        let b = choose|b: int|
            0 <= b < bindings.drop_last().len() && #[trigger] bindings.drop_last()[b] == (
                name,
                bound_in(bindings, name)->0,
            );
        assert(bindings[b] == bindings.drop_last()[b]);
    }
}

/// What a scope binds after one more binding: the new name is bound to the
/// new id, every other name as before.
pub proof fn lemma_bound_after_push(bindings: Bindings, name: Seq<char>, id: ItemId, other: Seq<char>)
    ensures
        bound_in(bindings.push((name, id)), other) == if other == name {
            Some(id)
        } else {
            bound_in(bindings, other)
        },
{
    let pushed = bindings.push((name, id));
    assert(pushed.last() == (name, id));
    assert(pushed.drop_last() =~= bindings);
}

/// Resolution within the first `depth` scopes reads those scopes only.
pub proof fn lemma_resolves_within_prefix(
    a: Seq<Bindings>,
    b: Seq<Bindings>,
    depth: int,
    name: Seq<char>,
)
    requires
        0 <= depth <= a.len(),
        depth <= b.len(),
        forall|s: int| 0 <= s < depth ==> a[s] == b[s],
    ensures
        resolves_within(a, depth, name) == resolves_within(b, depth, name),
    decreases depth,
{
    if depth > 0 {
        lemma_resolves_within_prefix(a, b, depth - 1, name);
    }
}

/// Opening a scope changes no resolution.
pub proof fn lemma_entered_resolves<T>(t: ScopedTableView<T>, name: Seq<char>)
    requires
        t.wf(),
    ensures
        t.entered().resolves(name) == t.resolves(name),
        t.entered().wf(),
        t.entered().left() == t,
{
    let e = t.entered();
    assert(bound_in(e.scopes[e.scopes.len() - 1], name) is None);
    lemma_resolves_within_prefix(e.scopes, t.scopes, t.scopes.len() as int, name);
    assert(e.left().scopes =~= t.scopes);
}

/// After a declaration that succeeds, the name resolves to the new id, which
/// no earlier item has, and every other name resolves as before. The items
/// declared before keep their ids.
pub proof fn lemma_declared_resolves<T>(
    t: ScopedTableView<T>,
    name: Seq<char>,
    item: T,
    other: Seq<char>,
)
    requires
        t.wf(),
        t.items.len() < usize::MAX,
        t.declare_result(name) is Ok,
    ensures
        t.declare_result(name) == Ok::<ItemId, ItemId>(t.items.len() as ItemId),
        t.declared(name, item).wf(),
        t.declared(name, item).items == t.items.push(item),
        t.declared(name, item).resolves(name) == Some(t.items.len() as ItemId),
        other != name ==> t.declared(name, item).resolves(other) == t.resolves(other),
        t.declared(name, item).left().scopes == t.left().scopes,
{
    let d = t.declared(name, item);
    let top = t.scopes.len() - 1;
    lemma_bound_after_push(t.innermost(), name, t.items.len() as ItemId, other);
    lemma_bound_after_push(t.innermost(), name, t.items.len() as ItemId, name);
    lemma_resolves_within_prefix(d.scopes, t.scopes, top, other);
    assert(d.left().scopes =~= t.left().scopes);
    assert forall|s: int, b: int|
        0 <= s < d.scopes.len() && 0 <= b < d.scopes[s].len() implies (#[trigger] d.scopes[s][b]).1
        < d.items.len() by {
        if s == top && b == t.innermost().len() {
        } else {
            assert(d.scopes[s][b] == t.scopes[s][b]);
        }
    }
}

/// Redeclaration: a second declaration of a name in the same scope answers
/// with the id of the first and changes nothing; the first item stays.
pub proof fn lemma_redeclaration<T>(t: ScopedTableView<T>, name: Seq<char>, first: T, second: T)
    requires
        t.wf(),
        t.items.len() < usize::MAX,
        t.declare_result(name) is Ok,
    ensures
        ({
            let once = t.declared(name, first);
            &&& once.declare_result(name) == Err::<ItemId, ItemId>(t.items.len() as ItemId)
            &&& once.declared(name, second) == once
            &&& once.items[t.items.len() as int] == first
        }),
{
    lemma_declared_resolves(t, name, first, name);
    lemma_bound_after_push(t.innermost(), name, t.items.len() as ItemId, name);
}

/// Shadowing: a name declared again in a nested scope gets an id of its own;
/// inside that scope the name resolves to the inner id, and once the scope is
/// closed it resolves to the outer id again. Both items stay in the table.
pub proof fn lemma_shadowing<T>(t: ScopedTableView<T>, name: Seq<char>, outer: T, inner: T)
    requires
        t.wf(),
        t.items.len() + 1 < usize::MAX,
        t.declare_result(name) is Ok,
    ensures
        ({
            let outside = t.declared(name, outer);
            let outer_id = t.items.len() as ItemId;
            let inside = outside.entered().declared(name, inner);
            let inner_id = outside.items.len() as ItemId;
            &&& outside.entered().declare_result(name) == Ok::<ItemId, ItemId>(inner_id)
            &&& inner_id != outer_id
            &&& outside.resolves(name) == Some(outer_id)
            &&& inside.resolves(name) == Some(inner_id)
            &&& inside.left().resolves(name) == Some(outer_id)
            &&& inside.left().items[outer_id as int] == outer
            &&& inside.left().items[inner_id as int] == inner
        }),
{
    let outside = t.declared(name, outer);
    lemma_declared_resolves(t, name, outer, name);
    lemma_entered_resolves(outside, name);
    let nested = outside.entered();
    assert(bound_in(nested.innermost(), name) is None);
    lemma_declared_resolves(nested, name, inner, name);
    let inside = nested.declared(name, inner);
    assert(inside.left().scopes =~= outside.scopes);
}

/// Closing a scope undoes what was bound in it: afterwards every name
/// resolves as before the scope was opened.
pub proof fn lemma_scope_restores<T>(
    t: ScopedTableView<T>,
    name: Seq<char>,
    item: T,
    other: Seq<char>,
)
    requires
        t.wf(),
        t.items.len() < usize::MAX,
    ensures
        t.entered().declared(name, item).left().resolves(other) == t.resolves(other),
        t.entered().declared(name, item).left().scopes == t.scopes,
{
    lemma_entered_resolves(t, other);
    let nested = t.entered();
    assert(bound_in(nested.innermost(), name) is None);
    lemma_declared_resolves(nested, name, item, other);
}

/// A name resolves to the id of an item.
pub proof fn lemma_resolves_is_item<T>(t: ScopedTableView<T>, name: Seq<char>)
    requires
        t.wf(),
    ensures
        t.resolves(name) matches Some(id) ==> id < t.items.len(),
{
    lemma_resolves_within_is_item(t, t.scopes.len() as int, name);
}

/// A name resolves within any number of scopes to the id of an item.
pub proof fn lemma_resolves_within_is_item<T>(t: ScopedTableView<T>, depth: int, name: Seq<char>)
    requires
        t.wf(),
        0 <= depth <= t.scopes.len(),
    ensures
        resolves_within(t.scopes, depth, name) matches Some(id) ==> id < t.items.len(),
    decreases depth,
{
    if depth > 0 {
        match bound_in(t.scopes[depth - 1], name) {
            Some(id) => {
                lemma_bound_is_listed(t.scopes[depth - 1], name);
            },
            None => {
                lemma_resolves_within_is_item(t, depth - 1, name);
            },
        }
    }
}

} // verus!
