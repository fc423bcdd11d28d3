use vstd::prelude::*;

verus! {

/// The components below the destination root after one step of a walk: the
/// root entry (depth 0) or a child is pushed; a sibling replaces the last
/// component; an entry higher up first drops the components deeper than its
/// parent.
pub open spec fn step_stack(
    stack: Seq<Seq<char>>,
    current_depth: nat,
    depth: nat,
    name: Seq<char>,
) -> Seq<Seq<char>> {
    if depth == 0 || depth > current_depth {
        stack.push(name)
    } else {
        let pops = (current_depth - depth + 1) as nat;
        let keep = if stack.len() >= pops {
            (stack.len() - pops) as nat
        } else {
            0
        };
        stack.take(keep as int).push(name)
    }
}

/// A walk in pre-order: the root first at depth 0, every later entry below
/// it, and no entry more than one level below the one before.
pub open spec fn is_preorder(entries: Seq<(nat, Seq<char>)>) -> bool {
    &&& entries.len() > 0 ==> entries[0].0 == 0
    &&& forall|i: int| 0 < i < entries.len() ==> #[trigger] entries[i].0 >= 1
    &&& forall|i: int| 0 < i < entries.len() ==> #[trigger] entries[i].0 <= entries[i - 1].0 + 1
}

/// The path of entry `i` relative to the walk's parent directory: the names
/// of its ancestors from the root down, then its own name.
pub open spec fn relative_path(entries: Seq<(nat, Seq<char>)>, i: int) -> Seq<Seq<char>>
    decreases i,
{
    if i <= 0 {
        seq![entries[0].1]
    } else {
        relative_path(entries, i - 1).take(entries[i].0 as int).push(entries[i].1)
    }
}

/// The components that a builder holds after the entries `0..=i`.
pub open spec fn replay(entries: Seq<(nat, Seq<char>)>, i: int) -> Seq<Seq<char>>
    decreases i + 1,
{
    if i < 0 {
        Seq::empty()
    } else {
        step_stack(
            replay(entries, i - 1),
            if i == 0 {
                0
            } else {
                entries[i - 1].0
            },
            entries[i].0,
            entries[i].1,
        )
    }
}

/// For every entry of a pre-order walk, the builder's destination is the
/// destination root followed by the entry's path relative to the walk.
pub proof fn lemma_builder_mirrors(entries: Seq<(nat, Seq<char>)>, i: int)
    requires
        is_preorder(entries),
        0 <= i < entries.len(),
    ensures
        replay(entries, i) == relative_path(entries, i),
        replay(entries, i).len() == entries[i].0 + 1,
    decreases i,
{
    if i == 0 {
        assert(replay(entries, -1) == Seq::<Seq<char>>::empty());
        assert(replay(entries, 0) =~= seq![entries[0].1]);
    } else {
        lemma_builder_mirrors(entries, i - 1);
        let prev = replay(entries, i - 1);
        let d = entries[i].0;
        let c = entries[i - 1].0;
        assert(d >= 1);
        assert(d <= c + 1);
        if d > c {
            assert(prev.take(d as int) =~= prev);
        }
    }
}

/// Builds the destination of each entry of a walk of the source, mirroring
/// the source tree under the destination root.
pub struct DstPath {
    root: String,
    stack: Vec<String>,
    current_depth: usize,
}

impl DstPath {
    pub open spec fn spec_components(&self) -> Seq<Seq<char>> {
        Seq::new(self.spec_stack_len(), |i: int| self.spec_component(i))
    }

    pub closed spec fn spec_stack_len(&self) -> nat {
        self.stack@.len()
    }

    pub closed spec fn spec_component(&self, i: int) -> Seq<char> {
        self.stack@[i]@
    }

    pub closed spec fn spec_root(&self) -> Seq<char> {
        self.root@
    }

    pub closed spec fn spec_current_depth(&self) -> nat {
        self.current_depth as nat
    }

    /// A builder for the destination root `dst`, before any entry.
    pub fn new(dst: String) -> (r: Option<DstPath>)
        ensures
            r matches Some(b) && b.spec_root() == dst@ && b.spec_components() == Seq::<
                Seq<char>,
            >::empty() && b.spec_current_depth() == 0,
    {
        let b = DstPath { root: dst, stack: Vec::new(), current_depth: 0 };
        assert(b.spec_components() =~= Seq::<Seq<char>>::empty());
        Some(b)
    }

    /// The destination root.
    pub fn root(&self) -> (r: &String)
        ensures
            r@ == self.spec_root(),
    {
        &self.root
    }

    /// The components of the last destination below the root.
    pub fn components(&self) -> (r: Vec<String>)
        ensures
            r@.len() == self.spec_components().len(),
            forall|i: int| 0 <= i < r@.len() ==> #[trigger] r@[i]@ == self.spec_components()[i],
    {
        let mut out: Vec<String> = Vec::new();
        let mut i: usize = 0;
        while i < self.stack.len()
            invariant
                i <= self.stack@.len(),
                out@.len() == i,
                forall|j: int| 0 <= j < i ==> #[trigger] out@[j]@ == self.stack@[j]@,
            decreases self.stack@.len() - i,
        {
            out.push(self.stack[i].clone());
            i = i + 1;
        }
        out
    }

    /// Moves to the entry `name` found at `depth` of the walk and gives the
    /// components of its destination below the root. Creating a directory
    /// entry's destination is left to the caller.
    pub fn build_dst(&mut self, depth: usize, name: String) -> (r: Vec<String>)
        ensures
            final(self).spec_components() == step_stack(
                old(self).spec_components(),
                old(self).spec_current_depth(),
                depth as nat,
                name@,
            ),
            final(self).spec_current_depth() == depth,
            final(self).spec_root() == old(self).spec_root(),
            r@.len() == final(self).spec_components().len(),
            forall|i: int|
                0 <= i < r@.len() ==> #[trigger] r@[i]@ == final(self).spec_components()[i],
    {
        let ghost old_components = self.spec_components();
        if depth == 0 || depth > self.current_depth {
            self.stack.push(name);
        } else {
            let pops = self.current_depth - depth + 1;
            let mut k: usize = 0;
            while k < pops
                invariant
                    k <= pops,
                self.root@ == old(self).root@,
                    self.stack@.len() == if old_components.len() >= k {
                        (old_components.len() - k) as nat
                    } else {
                        0
                    },
                    forall|j: int|
                        0 <= j < self.stack@.len() ==> #[trigger] self.stack@[j]@
                            == old_components[j],
                decreases pops - k,
            {
                self.stack.pop();
                k = k + 1;
            }
            self.stack.push(name);
        }
        self.current_depth = depth;
        assert(self.spec_components() =~= step_stack(
            old_components,
            old(self).spec_current_depth(),
            depth as nat,
            name@,
        ));
        self.components()
    }
}

/// A walk given as (depth, name) pairs, as text.
pub open spec fn walk_view(walk: Seq<(usize, String)>) -> Seq<(nat, Seq<char>)> {
    Seq::new(walk.len(), |i: int| (walk[i].0 as nat, walk[i].1@))
}

/// Runs a fresh builder for `root` over a whole pre-order walk: the
/// destination of every entry is the root followed by the entry's path
/// relative to the walk's parent directory.
pub fn destinations(root: String, walk: &Vec<(usize, String)>) -> (r: Vec<Vec<String>>)
    requires
        is_preorder(walk_view(walk@)),
    ensures
        r@.len() == walk@.len(),
        forall|i: int|
            0 <= i < r@.len() ==> (#[trigger] r@[i])@.len() == relative_path(walk_view(walk@), i).len(),
        forall|i: int, j: int|
            0 <= i < r@.len() && 0 <= j < r@[i]@.len() ==> #[trigger] r@[i]@[j]@ == relative_path(
                walk_view(walk@),
                i,
            )[j],
{
    let ghost entries = walk_view(walk@);
    let mut builder = match DstPath::new(root) {
        Some(b) => b,
        None => {
            return Vec::new();
        },
    };
    let mut out: Vec<Vec<String>> = Vec::new();
    let mut i: usize = 0;
    while i < walk.len()
        invariant
            entries == walk_view(walk@),
            is_preorder(entries),
            i <= walk@.len(),
            out@.len() == i,
            builder.spec_components() == replay(entries, i - 1),
            builder.spec_current_depth() == if i == 0 {
                0
            } else {
                entries[i - 1].0
            },
            forall|k: int|
                0 <= k < i ==> (#[trigger] out@[k])@.len() == relative_path(entries, k).len(),
            forall|k: int, j: int|
                0 <= k < i && 0 <= j < out@[k]@.len() ==> #[trigger] out@[k]@[j]@
                    == relative_path(entries, k)[j],
        decreases walk@.len() - i,
    {
        let depth = walk[i].0;
        let name = walk[i].1.clone();
        let comps = builder.build_dst(depth, name);
        proof {
            lemma_builder_mirrors(entries, i as int);
            assert(replay(entries, i as int) == step_stack(
                replay(entries, i - 1),
                if i == 0 {
                    0
                } else {
                    entries[i - 1].0
                },
                entries[i as int].0,
                entries[i as int].1,
            ));
        }
        out.push(comps);
        i = i + 1;
    }
    out
}

} // verus!
