//! The opening book: a prefix tree over coordinate move strings built from
//! pre-parsed games. A cursor walks the tree as moves are played; while the
//! book is enabled it proposes a child drawn with probability proportional
//! to the square of the child's game count.

use vstd::prelude::*;
use rand::Rng;

verus! {

#[verifier::external_type_specification]
#[verifier::external_body]
pub struct ExThreadRng(rand::rngs::ThreadRng);

/// Relies on `rand::rng`: the calling thread's generator.
#[verifier::external_body]
fn thread_rng_new() -> rand::rngs::ThreadRng {
    rand::rng()
}

/// Relies on `rand::Rng::random_range`: a value drawn from a non-empty
/// range lies in it.
#[verifier::external_body]
fn thread_random_below(rng: &mut rand::rngs::ThreadRng, n: u64) -> (r: u64)
    requires
        n > 0,
    ensures
        r < n,
{
    rng.random_range(0..n)
}

/// One node of the prefix tree: the move that reached it, how many games
/// went through it, and the continuations seen after it.
pub struct CurrentPosition {
    pub last_move: String,
    pub child_positions: Vec<CurrentPosition>,
    pub count: usize,
    pub depth: usize,
}

/// Among a node's children the reaching moves are unique, every child was
/// reached by at least one game, and the same holds below.
pub open spec fn node_wf(n: CurrentPosition) -> bool
    decreases n,
{
    &&& forall|i: int, j: int|
        0 <= i < j < n.child_positions@.len() ==> (#[trigger] n.child_positions@[i]).last_move@
            != (#[trigger] n.child_positions@[j]).last_move@
    &&& forall|i: int|
        0 <= i < n.child_positions@.len() ==> node_wf(#[trigger] n.child_positions@[i])
            && n.child_positions@[i].count >= 1
}

/// Equal tree shape and labels: the same move names, counts, depths and
/// arity everywhere (string values may differ in identity, never in text).
pub open spec fn node_like(a: CurrentPosition, b: CurrentPosition) -> bool
    decreases a,
{
    &&& a.last_move@ == b.last_move@
    &&& a.count == b.count
    &&& a.depth == b.depth
    &&& a.child_positions@.len() == b.child_positions@.len()
    &&& forall|i: int|
        0 <= i < a.child_positions@.len() ==> node_like(
            #[trigger] a.child_positions@[i],
            b.child_positions@[i],
        )
}

/// The shape of a node: names as text, counts, depths, children in order.
pub ghost struct NodeView {
    pub last_move: Seq<char>,
    pub count: nat,
    pub depth: nat,
    pub children: Seq<NodeView>,
}

/// The shape of a tree, with every string read as its text.
pub open spec fn view_node(n: CurrentPosition) -> NodeView
    decreases n,
{
    NodeView {
        last_move: n.last_move@,
        count: n.count as nat,
        depth: n.depth as nat,
        children: Seq::new(
            n.child_positions@.len(),
            |i: int|
                if 0 <= i < n.child_positions@.len() {
                    view_node(n.child_positions@[i])
                } else {
                    NodeView {
                        last_move: Seq::empty(),
                        count: 0,
                        depth: 0,
                        children: Seq::empty(),
                    }
                },
        ),
    }
}

/// The texts of a game's moves.
pub open spec fn views_of(game: Seq<String>) -> Seq<Seq<char>> {
    game.map_values(|s: String| s@)
}

/// One more, saturating at the counter's ceiling.
pub open spec fn sat_inc(n: nat) -> nat {
    if n < usize::MAX {
        n + 1
    } else {
        n
    }
}

/// The index of the first child reached by the given move, or -1.
pub open spec fn find_child(children: Seq<NodeView>, name: Seq<char>) -> int
    decreases children.len(),
{
    if children.len() == 0 {
        -1
    } else if children[0].last_move == name {
        0
    } else {
        let r = find_child(children.drop_first(), name);
        if r < 0 {
            -1
        } else {
            r + 1
        }
    }
}

/// The fresh chain a game's tail grows under a new leaf: one node per
/// remaining move, each reached by its move, counted once.
pub open spec fn fresh_view(game: Seq<Seq<char>>, idx: int, parent_depth: nat) -> NodeView
    decreases game.len() - idx,
{
    NodeView {
        last_move: game[idx],
        count: 1,
        depth: sat_inc(parent_depth),
        children: if idx + 1 >= game.len() {
            Seq::empty()
        } else {
            seq![fresh_view(game, idx + 1, sat_inc(parent_depth))]
        },
    }
}

/// What threading one game into a node leaves behind: past the game's end
/// nothing changes; otherwise the node keeps its own fields, the matching
/// child (if one is there) gains a count and takes the game's tail in the
/// same way, and a missing continuation grows a fresh chain at the end of
/// the child list. No other child is touched.
pub open spec fn add_view(v: NodeView, game: Seq<Seq<char>>, idx: int) -> NodeView
    decreases game.len() - idx,
{
    if idx >= game.len() {
        v
    } else {
        let f = find_child(v.children, game[idx]);
        if f >= 0 {
            NodeView {
                children: v.children.update(
                    f,
                    add_view(
                        NodeView { count: sat_inc(v.children[f].count), ..v.children[f] },
                        game,
                        idx + 1,
                    ),
                ),
                ..v
            }
        } else {
            NodeView { children: v.children.push(fresh_view(game, idx, v.depth)), ..v }
        }
    }
}

/// The synthetic root before any game is threaded in.
pub open spec fn initial_root(n_games: nat, depth: nat) -> NodeView {
    NodeView { last_move: "startpos"@, count: n_games, depth, children: Seq::empty() }
}

/// The tree after the first `upto` games are threaded, in order, into `v`.
pub open spec fn threaded(v: NodeView, games: Seq<Vec<String>>, upto: int) -> NodeView
    decreases upto,
{
    if upto <= 0 {
        v
    } else {
        add_view(threaded(v, games, upto - 1), views_of(games[upto - 1]@), 0)
    }
}

/// `find_child` answers with the first matching index.
proof fn lemma_find_child_at(children: Seq<NodeView>, name: Seq<char>, f: int)
    requires
        0 <= f < children.len(),
        children[f].last_move == name,
        forall|j: int| 0 <= j < f ==> (#[trigger] children[j]).last_move != name,
    ensures
        find_child(children, name) == f,
    decreases children.len(),
{
    if f == 0 {
    } else {
        assert(children[0].last_move != name);
        assert forall|j: int| 0 <= j < f - 1 implies (#[trigger] children.drop_first()[j]).last_move
            != name by {
            assert(children.drop_first()[j] == children[j + 1]);
        }
        assert(children.drop_first()[f - 1] == children[f]);
        lemma_find_child_at(children.drop_first(), name, f - 1);
    }
}

/// `find_child` finds nothing when no child matches.
proof fn lemma_find_child_none(children: Seq<NodeView>, name: Seq<char>)
    requires
        forall|j: int| 0 <= j < children.len() ==> (#[trigger] children[j]).last_move != name,
    ensures
        find_child(children, name) == -1,
    decreases children.len(),
{
    if children.len() > 0 {
        assert forall|j: int|
            0 <= j < children.drop_first().len() implies (
        #[trigger] children.drop_first()[j]).last_move != name by {
            assert(children.drop_first()[j] == children[j + 1]);
        }
        lemma_find_child_none(children.drop_first(), name);
    }
}

/// Threading a game's tail into a fresh one-game leaf builds exactly the
/// fresh chain of the whole tail.
proof fn lemma_add_view_fresh(xv: NodeView, game: Seq<Seq<char>>, idx: int, parent_depth: nat)
    requires
        0 <= idx < game.len(),
        xv == (NodeView {
            last_move: game[idx],
            count: 1,
            depth: sat_inc(parent_depth),
            children: Seq::empty(),
        }),
    ensures
        add_view(xv, game, idx + 1) == fresh_view(game, idx, parent_depth),
{
    if idx + 1 >= game.len() {
        assert(add_view(xv, game, idx + 1) == xv);
        assert(fresh_view(game, idx, parent_depth) =~= xv) by {
            assert(fresh_view(game, idx, parent_depth).children =~= Seq::<NodeView>::empty());
        }
    } else {
        lemma_find_child_none(xv.children, game[idx + 1]);
        assert(add_view(xv, game, idx + 1).children =~= seq![
            fresh_view(game, idx + 1, xv.depth),
        ]);
        assert(add_view(xv, game, idx + 1) =~= fresh_view(game, idx, parent_depth));
    }
}

impl CurrentPosition {
    /// Builds the tree over the given games: a synthetic root, then one
    /// path per game.
    pub fn new(games: Vec<Vec<String>>, depth: usize) -> (r: Self)
        ensures
            node_wf(r),
            r.last_move@ == "startpos"@,
            r.count == games@.len(),
            r.depth == depth,
            view_node(r) == threaded(
                initial_root(games@.len() as nat, depth as nat),
                games@,
                games@.len() as int,
            ),
    {
        let count = games.len();
        let mut root = CurrentPosition {
            last_move: "startpos".to_owned(),
            child_positions: Vec::new(),
            count,
            depth,
        };
        proof {
            assert(view_node(root).children =~= Seq::<NodeView>::empty());
            assert(view_node(root) =~= initial_root(games@.len() as nat, depth as nat));
        }
        let mut g: usize = 0;
        while g < games.len()
            invariant
                node_wf(root),
                root.last_move@ == "startpos"@,
                root.count == games@.len(),
                root.depth == depth,
                g <= games@.len(),
                view_node(root) == threaded(
                    initial_root(games@.len() as nat, depth as nat),
                    games@,
                    g as int,
                ),
            decreases games@.len() - g,
        {
            root.add_game(&games[g], 0);
            g = g + 1;
        }
        root
    }

    /// Threads one game's move list into the tree from `move_index` on:
    /// a continuation already seen gains a count, a new one grows a leaf
    /// path. The node's own naming fields stay as they are.
    pub fn add_game(&mut self, game: &Vec<String>, move_index: usize)
        requires
            node_wf(*old(self)),
        ensures
            node_wf(*final(self)),
            view_node(*final(self)) == add_view(
                view_node(*old(self)),
                views_of(game@),
                move_index as int,
            ),
            final(self).last_move == old(self).last_move,
            final(self).count == old(self).count,
            final(self).depth == old(self).depth,
        decreases game@.len() - move_index,
    {
        if move_index >= game.len() {
            proof {
                assert(view_node(*self) == add_view(
                    view_node(*old(self)),
                    views_of(game@),
                    move_index as int,
                ));
            }
            return ;
        }
        let current_move = &game[move_index];
        let mut found: Option<usize> = None;
        let mut i: usize = 0;
        while i < self.child_positions.len()
            invariant
                found matches Some(f) ==> f < self.child_positions@.len()
                    && self.child_positions@[f as int].last_move@ == current_move@ && forall|j: int|
                    0 <= j < f ==> (#[trigger] self.child_positions@[j]).last_move@
                        != current_move@,
                found is None ==> forall|j: int|
                    0 <= j < i ==> (#[trigger] self.child_positions@[j]).last_move@
                        != current_move@,
                i <= self.child_positions@.len(),
            decreases self.child_positions@.len() - i,
        {
            if found.is_none() && self.child_positions[i].last_move == *current_move {
                found = Some(i);
            }
            i = i + 1;
        }
        match found {
            Some(f) => {
                let ghost old_children = self.child_positions@;
                let mut child = self.child_positions.remove(f);
                proof {
                    assert(node_wf(old_children[f as int]));
                }
                if child.count < usize::MAX {
                    child.count = child.count + 1;
                }
                let ghost child0 = child;
                proof {
                    assert(child.child_positions == old_children[f as int].child_positions);
                    assert(node_wf(child));
                }
                child.add_game(game, move_index + 1);
                proof {
                    assert(child.last_move@ == current_move@);
                }
                self.child_positions.insert(f, child);
                proof {
                    let ks = self.child_positions@;
                    assert(ks =~= old_children.update(f as int, child));
                    assert forall|a: int, b: int|
                        0 <= a < b < ks.len() implies (#[trigger] ks[a]).last_move@
                        != (#[trigger] ks[b]).last_move@ by {
                        if a != f {
                            assert(ks[a] == old_children[a]);
                        } else {
                            assert(ks[a].last_move@ == old_children[a].last_move@);
                        }
                        if b != f {
                            assert(ks[b] == old_children[b]);
                        } else {
                            assert(ks[b].last_move@ == old_children[b].last_move@);
                        }
                    }
                    assert forall|a: int| 0 <= a < ks.len() implies node_wf(#[trigger] ks[a])
                        && ks[a].count >= 1 by {
                        if a != f {
                            assert(ks[a] == old_children[a]);
                        }
                    }
                    let gi = move_index as int;
                    let o = *old(self);
                    let g = views_of(game@);
                    let ov = view_node(o);
                    assert(o.child_positions@ == old_children);
                    assert(g[gi] == game@[gi]@);
                    assert(ov.children.len() == old_children.len());
                    assert forall|j: int| 0 <= j < old_children.len() implies #[trigger] ov.children[j]
                        == view_node(old_children[j]) by {}
                    assert(ov.children[f as int].last_move == g[gi]);
                    assert forall|j: int| 0 <= j < f implies (#[trigger] ov.children[j]).last_move
                        != g[gi] by {
                        assert(old_children[j].last_move@ != game@[gi]@);
                    }
                    lemma_find_child_at(ov.children, g[gi], f as int);
                    assert(view_node(child0) =~= (NodeView {
                        count: sat_inc(ov.children[f as int].count),
                        ..ov.children[f as int]
                    }));
                    assert(view_node(*self).children =~= ov.children.update(
                        f as int,
                        view_node(child),
                    )) by {
                        assert(ks == old_children.update(f as int, child));
                        assert forall|j: int|
                            0 <= j < ks.len() implies #[trigger] view_node(*self).children[j]
                            == ov.children.update(f as int, view_node(child))[j] by {
                            assert(view_node(*self).children[j] == view_node(ks[j]));
                            if j != f {
                                assert(ks[j] == old_children[j]);
                            }
                        }
                    }
                    assert(view_node(*self) =~= add_view(ov, g, gi));
                }
            },
            None => {
                let mut new_child = CurrentPosition {
                    last_move: clone_string(current_move),
                    child_positions: Vec::new(),
                    count: 1,
                    depth: if self.depth < usize::MAX {
                        self.depth + 1
                    } else {
                        self.depth
                    },
                };
                let ghost fresh0 = new_child;
                new_child.add_game(game, move_index + 1);
                let ghost old_children = self.child_positions@;
                self.child_positions.push(new_child);
                proof {
                    let gi = move_index as int;
                    let ks = self.child_positions@;
                    assert forall|a: int, b: int|
                        0 <= a < b < ks.len() implies (#[trigger] ks[a]).last_move@
                        != (#[trigger] ks[b]).last_move@ by {
                        if b == ks.len() - 1 {
                            assert(ks[a] == old_children[a]);
                            assert(ks[b].last_move@ == current_move@);
                        } else {
                            assert(ks[a] == old_children[a]);
                            assert(ks[b] == old_children[b]);
                        }
                    }
                    assert forall|a: int| 0 <= a < ks.len() implies node_wf(#[trigger] ks[a])
                        && ks[a].count >= 1 by {
                        if a < ks.len() - 1 {
                            assert(ks[a] == old_children[a]);
                        }
                    }
                    let o = *old(self);
                    let g = views_of(game@);
                    let ov = view_node(o);
                    assert(o.child_positions@ == old_children);
                    assert(g[gi] == game@[gi]@);
                    assert(view_node(fresh0) =~= (NodeView {
                        last_move: g[gi],
                        count: 1,
                        depth: sat_inc(ov.depth),
                        children: Seq::empty(),
                    })) by {
                        assert(view_node(fresh0).children =~= Seq::<NodeView>::empty());
                    }
                    lemma_add_view_fresh(view_node(fresh0), g, gi, ov.depth);
                    assert(view_node(new_child) == fresh_view(g, gi, ov.depth));
                    assert forall|j: int|
                        0 <= j < ov.children.len() implies (#[trigger] ov.children[j]).last_move
                        != g[gi] by {
                        assert(ov.children[j] == view_node(old_children[j]));
                        assert(old_children[j].last_move@ != game@[gi]@);
                    }
                    lemma_find_child_none(ov.children, g[gi]);
                    assert(view_node(*self).children =~= ov.children.push(view_node(new_child)))
                        by {
                        assert(ks == old_children.push(new_child));
                        assert forall|j: int|
                            0 <= j < ks.len() implies #[trigger] view_node(*self).children[j]
                            == ov.children.push(view_node(new_child))[j] by {
                            assert(view_node(*self).children[j] == view_node(ks[j]));
                            if j < old_children.len() {
                                assert(ks[j] == old_children[j]);
                            }
                        }
                    }
                    assert(view_node(*self) =~= add_view(ov, g, gi));
                }
            },
        }
    }
}

/// A deep copy of a node: well-formed whenever the source is, and of the
/// very same shape — names, counts, depths and arity alike, throughout.
fn clone_node(n: &CurrentPosition) -> (r: CurrentPosition)
    requires
        node_wf(*n),
    ensures
        node_wf(r),
        node_like(r, *n),
    decreases *n,
{
    let mut children: Vec<CurrentPosition> = Vec::new();
    let mut i: usize = 0;
    while i < n.child_positions.len()
        invariant
            node_wf(*n),
            i <= n.child_positions@.len(),
            children@.len() == i,
            forall|j: int|
                0 <= j < i ==> node_wf(#[trigger] children@[j]) && children@[j].count >= 1
                    && node_like(children@[j], n.child_positions@[j]),
        decreases n.child_positions@.len() - i,
    {
        proof {
            assert(node_wf(n.child_positions@[i as int]));
        }
        let c = clone_node(&n.child_positions[i]);
        children.push(c);
        i = i + 1;
    }
    CurrentPosition {
        last_move: clone_string(&n.last_move),
        child_positions: children,
        count: n.count,
        depth: n.depth,
    }
}

fn clone_string(s: &String) -> (r: String)
    ensures
        r@ == s@,
{
    s.clone()
}

/// The book: the loaded tree, a cursor into it, and whether proposals are
/// switched on.
pub struct OpeningBook {
    enabled: bool,
    start_position: CurrentPosition,
    current_position: CurrentPosition,
    rng: rand::rngs::ThreadRng,
}

impl OpeningBook {
    pub closed spec fn spec_enabled(self) -> bool {
        self.enabled
    }

    pub closed spec fn inv(self) -> bool {
        node_wf(self.start_position) && node_wf(self.current_position)
    }

    /// The stored root the cursor returns to on a reset.
    pub closed spec fn start_node(self) -> CurrentPosition {
        self.start_position
    }

    /// A book over pre-parsed games, cursor at the root, enabled; the
    /// stored root is the same tree.
    pub fn from_games(games: Vec<Vec<String>>) -> (r: Self)
        ensures
            r.inv(),
            r.spec_enabled(),
            r.cur_node().last_move@ == "startpos"@,
            r.cur_node().count == games@.len(),
            view_node(r.cur_node()) == threaded(
                initial_root(games@.len() as nat, 0),
                games@,
                games@.len() as int,
            ),
            node_like(r.start_node(), r.cur_node()),
    {
        let current_position = CurrentPosition::new(games, 0);
        let start_position = clone_node(&current_position);
        OpeningBook { enabled: true, start_position, current_position, rng: thread_rng_new() }
    }

    pub fn is_enabled(&self) -> (r: bool)
        ensures
            r == self.spec_enabled(),
    {
        self.enabled
    }

    pub fn set_disabled(&mut self)
        ensures
            !final(self).spec_enabled(),
            final(self).inv() == old(self).inv(),
            final(self).cur_node() == old(self).cur_node(),
            final(self).start_node() == old(self).start_node(),
    {
        self.enabled = false;
    }

    pub fn set_enabled(&mut self)
        ensures
            final(self).spec_enabled(),
            final(self).inv() == old(self).inv(),
            final(self).cur_node() == old(self).cur_node(),
            final(self).start_node() == old(self).start_node(),
    {
        self.enabled = true;
    }

    /// Puts the cursor back on the loaded tree's root: afterwards it has
    /// the stored root's exact shape, and the stored root is untouched.
    pub fn reset(&mut self)
        requires
            old(self).inv(),
        ensures
            final(self).inv(),
            final(self).spec_enabled() == old(self).spec_enabled(),
            final(self).start_node() == old(self).start_node(),
            node_like(final(self).cur_node(), old(self).start_node()),
    {
        self.current_position = clone_node(&self.start_position);
    }

    /// While enabled and the cursor has continuations, proposes one, drawn
    /// with weight `count * count`; the proposal is the reaching move of
    /// one of the cursor's children.
    pub fn get_next_move(&mut self) -> (r: Option<String>)
        requires
            old(self).inv(),
        ensures
            final(self).inv(),
            final(self).spec_enabled() == old(self).spec_enabled(),
            final(self).cur_node() == old(self).cur_node(),
            final(self).start_node() == old(self).start_node(),
            r is None <==> (!old(self).spec_enabled() || old(self).cur_node().child_positions@.len()
                == 0),
            r matches Some(s) ==> exists|i: int|
                0 <= i < old(self).cur_node().child_positions@.len() && (#[trigger] old(
                self,
                ).cur_node().child_positions@[i]).last_move@ == s@,
    {
        if !self.enabled {
            return None;
        }
        if self.current_position.child_positions.len() == 0 {
            return None;
        }
        let n = self.current_position.child_positions.len();
        let mut weights: Vec<u64> = Vec::new();
        let mut i: usize = 0;
        while i < n
            invariant
                self == old(self),
                self.inv(),
                n == self.current_position.child_positions@.len(),
                i <= n,
                weights@.len() == i,
                forall|j: int| 0 <= j < i ==> #[trigger] weights@[j] >= 1,
            decreases n - i,
        {
            let c = self.current_position.child_positions[i].count as u64;
            proof {
                assert(c >= 1);
                let ci = c as int;
                assert(1 <= ci && ci <= 0xffffffff ==> 1 <= ci * ci && ci * ci <= 0xfffffffe00000001)
                    by (nonlinear_arith);
            }
            let w: u64 = if c > 0xffffffffu64 {
                u64::MAX
            } else {
                c * c
            };
            weights.push(w);
            i = i + 1;
        }
        let idx = pick_weighted(&mut self.rng, &weights);
        let child = &self.current_position.child_positions[idx];
        let s = clone_string(&child.last_move);
        proof {
            assert(old(self).cur_node().child_positions@[idx as int].last_move@ == s@);
        }
        Some(s)
    }

    /// Follows the cursor down the child reached by the move, if the book
    /// knows it; says whether it did.
    pub fn apply_move(&mut self, m: String) -> (r: bool)
        requires
            old(self).inv(),
        ensures
            final(self).inv(),
            final(self).spec_enabled() == old(self).spec_enabled(),
            final(self).start_node() == old(self).start_node(),
            r <==> exists|i: int|
                0 <= i < old(self).cur_node().child_positions@.len() && (#[trigger] old(
                self,
                ).cur_node().child_positions@[i]).last_move@ == m@,
            r ==> exists|i: int|
                0 <= i < old(self).cur_node().child_positions@.len() && (#[trigger] old(
                self,
                ).cur_node().child_positions@[i]).last_move@ == m@ && node_like(
                    final(self).cur_node(),
                    old(self).cur_node().child_positions@[i],
                ),
            !r ==> *final(self) == *old(self),
    {
        let n = self.current_position.child_positions.len();
        let mut i: usize = 0;
        while i < n
            invariant
                self == old(self),
                self.inv(),
                n == self.current_position.child_positions@.len(),
                i <= n,
                forall|j: int|
                    0 <= j < i ==> (#[trigger] self.current_position.child_positions@[j]).last_move@
                        != m@,
            decreases n - i,
        {
            if self.current_position.child_positions[i].last_move == m {
                proof {
                    assert(node_wf(self.current_position.child_positions@[i as int]));
                    assert((old(self).cur_node().child_positions@[i as int]).last_move@ == m@);
                }
                let c = clone_node(&self.current_position.child_positions[i]);
                self.current_position = c;
                proof {
                    assert(node_like(
                        self.cur_node(),
                        old(self).cur_node().child_positions@[i as int],
                    ));
                }
                return true;
            }
            i = i + 1;
        }
        false
    }

    /// The node the cursor stands on.
    pub closed spec fn cur_node(self) -> CurrentPosition {
        self.current_position
    }
}

/// Sum of the weights up to `i`, saturating as the adder does.
pub open spec fn sat_prefix(s: Seq<u64>, i: int) -> int
    decreases i,
{
    if i <= 0 {
        0
    } else {
        let below = sat_prefix(s, i - 1);
        if below + s[i - 1] > u64::MAX {
            u64::MAX as int
        } else {
            below + s[i - 1]
        }
    }
}

/// Draws an index with probability proportional to its weight.
fn pick_weighted(rng: &mut rand::rngs::ThreadRng, weights: &Vec<u64>) -> (r: usize)
    requires
        weights@.len() >= 1,
        forall|j: int| 0 <= j < weights@.len() ==> #[trigger] weights@[j] >= 1,
    ensures
        r < weights@.len(),
{
    let n = weights.len();
    let mut total: u64 = 0;
    let mut i: usize = 0;
    while i < n
        invariant
            n == weights@.len(),
            forall|j: int| 0 <= j < n ==> #[trigger] weights@[j] >= 1,
            i <= n,
            total == sat_prefix(weights@, i as int),
            i >= 1 ==> total >= 1,
        decreases n - i,
    {
        let w = weights[i];
        total = if total > u64::MAX - w {
            u64::MAX
        } else {
            total + w
        };
        i = i + 1;
    }
    let pick = thread_random_below(rng, total);
    let mut acc: u64 = 0;
    let mut k: usize = 0;
    while k < n
        invariant
            n == weights@.len(),
            forall|j: int| 0 <= j < n ==> #[trigger] weights@[j] >= 1,
            k <= n,
            acc == sat_prefix(weights@, k as int),
            pick >= acc,
            pick < total,
            total == sat_prefix(weights@, n as int),
        decreases n - k,
    {
        let w = weights[k];
        let next: u64 = if acc > u64::MAX - w {
            u64::MAX
        } else {
            acc + w
        };
        if pick < next {
            return k;
        }
        acc = next;
        k = k + 1;
    }
    proof {
        assert(false);
    }
    0
}

} // verus!
