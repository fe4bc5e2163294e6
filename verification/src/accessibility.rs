//! Accessibility data collected while painting: nodes, the tree that holds
//! them by id, and keyboard focus over an ordered list of nodes.

use crate::geometry::Rect;
use std::collections::HashMap;
use vstd::prelude::*;
use vstd::std_specs::iter::IteratorSpec;

verus! {

broadcast use vstd::std_specs::hash::group_hash_axioms;

/// Unique identifier of an accessible element.
#[derive(Debug, Clone, Copy, PartialEq, Eq, Hash, Structural)]
pub struct AccessId(pub u64);

/// Role of an accessible element.
#[derive(Debug, Clone, Copy, PartialEq, Eq, Structural)]
pub enum AccessRole {
    Button,
    Group,
    Label,
    TextInput,
    Window,
}

/// A node of the accessibility tree.
#[derive(Debug, Clone)]
pub struct AccessNode<T> {
    pub id: AccessId,
    pub role: AccessRole,
    pub name: String,
    /// Bounds in logical pixels, where known.
    pub bounds: Option<Rect<T>>,
    pub children: Vec<AccessId>,
}

impl<T> AccessNode<T> {
    /// A node without bounds or children.
    pub fn new(id: AccessId, role: AccessRole, name: String) -> (r: Self)
        ensures
            r.id == id,
            r.role == role,
            r.name == name,
            r.bounds.is_none(),
            r.children@ == Seq::<AccessId>::empty(),
    {
        AccessNode { id, role, name, bounds: None, children: Vec::new() }
    }

    /// The same node with its bounds set.
    pub fn with_bounds(self, bounds: Rect<T>) -> (r: Self)
        ensures
            r.bounds == Some(bounds),
            r.id == self.id,
            r.role == self.role,
            r.name == self.name,
            r.children == self.children,
    {
        let mut node = self;
        node.bounds = Some(bounds);
        node
    }

    /// The same node with `child` appended to its children.
    pub fn with_child(self, child: AccessId) -> (r: Self)
        ensures
            r.children@ == self.children@.push(child),
            r.id == self.id,
            r.role == self.role,
            r.name == self.name,
            r.bounds == self.bounds,
    {
        let mut node = self;
        node.children.push(child);
        node
    }
}

/// What an accessibility tree holds: its root id and its nodes by id.
pub struct AccessTreeView<T> {
    pub root_id: AccessId,
    pub nodes: Map<AccessId, AccessNode<T>>,
}

/// Container of accessibility nodes, built while painting alongside the scene.
pub struct AccessTree<T> {
    root_id: AccessId,
    nodes: HashMap<u64, AccessNode<T>>,
}

impl<T> View for AccessTree<T> {
    type V = AccessTreeView<T>;

    closed spec fn view(&self) -> AccessTreeView<T> {
        AccessTreeView {
            root_id: self.root_id,
            nodes: Map::new(
                |id: AccessId| self.nodes@.contains_key(id.0),
                |id: AccessId| self.nodes@[id.0],
            ),
        }
    }
}

impl<T> AccessTree<T> {
    /// An empty tree with the given root id.
    pub fn new(root_id: AccessId) -> (r: Self)
        ensures
            r@.root_id == root_id,
            r@.nodes == Map::<AccessId, AccessNode<T>>::empty(),
    {
        let tree = AccessTree { root_id, nodes: HashMap::new() };
        tree
    }

    pub fn root_id(&self) -> (id: AccessId)
        ensures
            id == self@.root_id,
    {
        self.root_id
    }

    /// Adds a node under its own id. A node already stored under that id is
    /// replaced.
    pub fn push(&mut self, node: AccessNode<T>)
        ensures
            final(self)@.root_id == old(self)@.root_id,
            final(self)@.nodes == old(self)@.nodes.insert(node.id, node),
    {
        let key = node.id.0;
        self.nodes.insert(key, node);
    }

    /// The node stored under `id`.
    pub fn get(&self, id: AccessId) -> (r: Option<&AccessNode<T>>)
        ensures
            match r {
                Some(node) => self@.nodes.contains_key(id) && *node == self@.nodes[id],
                None => !self@.nodes.contains_key(id),
            },
    {
        self.nodes.get(&id.0)
    }

    /// The ids of all nodes, each once, in no particular order.
    pub fn ids(&self) -> (r: Vec<AccessId>)
        ensures
            r@.no_duplicates(),
            r@.to_set() == self@.nodes.dom(),
    {
        let mut out: Vec<AccessId> = Vec::new();
        for key in iter: self.nodes.keys()
            invariant
                out@.len() == iter.index(),
                forall|i: int| 0 <= i < out@.len() ==> out@[i] == AccessId(*iter.seq()[i]),
        {
            out.push(AccessId(*key));
        }
        proof {
            let keys = vstd::std_specs::hash::spec_keys_iter(&self.nodes).remaining();
            assert(out@.to_set() =~= self@.nodes.dom()) by {
                assert forall|id: AccessId| out@.to_set().contains(id) <==> self@.nodes.dom().contains(
                    id,
                ) by {
                    if out@.to_set().contains(id) {
                        let i = choose|i: int| 0 <= i < out@.len() && out@[i] == id;
                        assert(keys.unref()[i] == id.0);
                    }
                    if self@.nodes.dom().contains(id) {
                        let i = choose|i: int| 0 <= i < keys.unref().len() && keys.unref()[i] == id.0;
                        assert(out@[i] == id);
                    }
                }
            }
        }
        out
    }

    /// Number of nodes in the tree.
    pub fn node_count(&self) -> (n: usize)
        ensures
            n == self@.nodes.len(),
    {
        proof {
            self.lemma_same_size();
        }
        self.nodes.len()
    }

    /// Removes every node and keeps the root id.
    pub fn clear(&mut self)
        ensures
            final(self)@.root_id == old(self)@.root_id,
            final(self)@.nodes == Map::<AccessId, AccessNode<T>>::empty(),
    {
        self.nodes.clear();
    }

    /// The view has as many nodes as the table: ids and keys correspond one
    /// to one.
    proof fn lemma_same_size(&self)
        ensures
            self@.nodes.dom().finite(),
            self@.nodes.len() == self.nodes@.len(),
    {
        let keys = self.nodes@.dom();
        let ids = self@.nodes.dom();
        let wrapped = keys.map(|k: u64| AccessId(k));
        assert(wrapped =~= ids);
        keys.lemma_map_finite(|k: u64| AccessId(k));
        vstd::set_lib::lemma_map_size(keys, wrapped, |k: u64| AccessId(k));
    }
}

/// Position of the first occurrence of `id` in `order`.
pub open spec fn first_index_of(order: Seq<AccessId>, id: AccessId) -> Option<int>
    decreases order.len(),
{
    if order.len() == 0 {
        None
    } else if order[0] == id {
        Some(0)
    } else {
        match first_index_of(order.drop_first(), id) {
            Some(i) => Some(i + 1),
            None => None,
        }
    }
}

/// What a focus manager holds.
pub struct FocusView {
    pub focused: Option<AccessId>,
    pub order: Seq<AccessId>,
}

impl FocusView {
    /// Position of the focused element in the focus order, where it has one.
    pub open spec fn focus_index(self) -> Option<int> {
        match self.focused {
            Some(id) => first_index_of(self.order, id),
            None => None,
        }
    }

    /// The element that `focus_next` moves to: the one after the focused
    /// element, wrapping to the first; the first when nothing in the order is
    /// focused; no change when the order is empty.
    pub open spec fn next(self) -> Option<AccessId> {
        if self.order.len() == 0 {
            self.focused
        } else {
            match self.focus_index() {
                Some(i) => Some(self.order[(i + 1) % (self.order.len() as int)]),
                None => Some(self.order[0]),
            }
        }
    }

    /// The element that `focus_prev` moves to: the one before the focused
    /// element, wrapping to the last; the last when nothing in the order is
    /// focused; no change when the order is empty.
    pub open spec fn prev(self) -> Option<AccessId> {
        if self.order.len() == 0 {
            self.focused
        } else {
            match self.focus_index() {
                Some(i) => if i == 0 {
                    Some(self.order.last())
                } else {
                    Some(self.order[i - 1])
                },
                None => Some(self.order.last()),
            }
        }
    }
}

/// Keyboard focus over the accessible elements of a window.
#[derive(Debug)]
pub struct FocusManager {
    /// Currently focused element, if any.
    focused: Option<AccessId>,
    /// Focusable elements in tab order.
    focus_order: Vec<AccessId>,
}

impl View for FocusManager {
    type V = FocusView;

    closed spec fn view(&self) -> FocusView {
        FocusView { focused: self.focused, order: self.focus_order@ }
    }
}

impl FocusManager {
    /// No focus and an empty focus order.
    pub fn new() -> (r: Self)
        ensures
            r@.focused.is_none(),
            r@.order == Seq::<AccessId>::empty(),
    {
        FocusManager { focused: None, focus_order: Vec::new() }
    }

    /// The currently focused element.
    pub fn focused(&self) -> (r: Option<AccessId>)
        ensures
            r == self@.focused,
    {
        self.focused
    }

    /// Focuses `id`, whether or not it is in the focus order.
    pub fn set_focus(&mut self, id: AccessId)
        ensures
            final(self)@.focused == Some(id),
            final(self)@.order == old(self)@.order,
    {
        self.focused = Some(id);
    }

    pub fn clear_focus(&mut self)
        ensures
            final(self)@.focused.is_none(),
            final(self)@.order == old(self)@.order,
    {
        self.focused = None;
    }

    /// Replaces the focus (tab) order. The focused element stays.
    pub fn set_focus_order(&mut self, order: Vec<AccessId>)
        ensures
            final(self)@.order == order@,
            final(self)@.focused == old(self)@.focused,
    {
        self.focus_order = order;
    }

    /// Moves focus to the next element of the focus order.
    pub fn focus_next(&mut self)
        ensures
            final(self)@.focused == old(self)@.next(),
            final(self)@.order == old(self)@.order,
    {
        let len = self.focus_order.len();
        if len == 0 {
            return ;
        }
        let next_idx: usize = match self.current_index() {
            Some(idx) => (idx + 1) % len,
            None => 0,
        };
        self.focused = Some(self.focus_order[next_idx]);
    }

    /// Moves focus to the previous element of the focus order.
    pub fn focus_prev(&mut self)
        ensures
            final(self)@.focused == old(self)@.prev(),
            final(self)@.order == old(self)@.order,
    {
        let len = self.focus_order.len();
        if len == 0 {
            return ;
        }
        let prev_idx: usize = match self.current_index() {
            Some(idx) => {
                if idx == 0 {
                    len - 1
                } else {
                    idx - 1
                }
            },
            None => len - 1,
        };
        self.focused = Some(self.focus_order[prev_idx]);
    }

    /// Position of the focused element in the focus order.
    fn current_index(&self) -> (r: Option<usize>)
        ensures
            match r {
                Some(i) => self@.focus_index() == Some(i as int) && i < self@.order.len(),
                None => self@.focus_index().is_none(),
            },
    {
        match self.focused {
            None => None,
            Some(id) => {
                let mut i: usize = 0;
                while i < self.focus_order.len()
                    invariant
                        self.focused == Some(id),
                        i <= self.focus_order.len(),
                        forall|k: int| 0 <= k < i ==> self.focus_order@[k] != id,
                    decreases self.focus_order.len() - i,
                {
                    if self.focus_order[i] == id {
                        proof {
                            lemma_first_index_found(self.focus_order@, id, i as int);
                        }
                        return Some(i);
                    }
                    i += 1;
                }
                proof {
                    lemma_first_index_absent(self.focus_order@, id);
                }
                None
            },
        }
    }
}

impl Default for FocusManager {
    fn default() -> (r: Self)
        ensures
            r@.focused.is_none(),
            r@.order == Seq::<AccessId>::empty(),
    {
        FocusManager::new()
    }
}

/// `first_index_of` is `i` where `id` stands at `i` and nowhere before.
proof fn lemma_first_index_found(order: Seq<AccessId>, id: AccessId, i: int)
    requires
        0 <= i < order.len(),
        order[i] == id,
        forall|k: int| 0 <= k < i ==> order[k] != id,
    ensures
        first_index_of(order, id) == Some(i),
    decreases order.len(),
{
    if i > 0 {
        let rest = order.drop_first();
        lemma_first_index_found(rest, id, i - 1);
    }
}

/// `first_index_of` is `None` where `id` stands nowhere in `order`.
proof fn lemma_first_index_absent(order: Seq<AccessId>, id: AccessId)
    requires
        forall|k: int| 0 <= k < order.len() ==> order[k] != id,
    ensures
        first_index_of(order, id).is_none(),
    decreases order.len(),
{
    if order.len() > 0 {
        let rest = order.drop_first();
        lemma_first_index_absent(rest, id);
    }
}

} // verus!
