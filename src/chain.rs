//! The chain of posts: newest first, each post pointing at the next older one.
use vstd::prelude::*;
use crate::address::Address;
use crate::state::PostState;

verus! {

/// The post `p` with its older neighbour set to `prev`, all else kept.
pub open spec fn with_prev(p: PostState, prev: Option<Address>) -> PostState {
    PostState {
        title: p.title,
        content: p.content,
        user: p.user,
        pre_post_key: prev,
        authority: p.authority,
    }
}

/// Where following `pre_post_key` from `from` for `steps` steps leads: `None`
/// once a step starts at an address that holds no post or at a post with no
/// older neighbour.
pub open spec fn follow(posts: Map<Address, PostState>, from: Address, steps: nat) -> Option<Address>
    decreases steps,
{
    if steps == 0 {
        Some(from)
    } else {
        match follow(posts, from, (steps - 1) as nat) {
            Some(a) => if posts.contains_key(a) {
                posts[a].pre_post_key
            } else {
                None
            },
            None => None,
        }
    }
}

/// `c` lists every stored post once, newest first: each post points at the
/// one after it, and the last one points nowhere.
pub open spec fn chain_links(posts: Map<Address, PostState>, c: Seq<Address>) -> bool {
    &&& c.len() > 0
    &&& c.no_duplicates()
    &&& forall|a: Address| #[trigger] posts.contains_key(a) <==> c.contains(a)
    &&& forall|i: int| 0 <= i < c.len() - 1 ==> #[trigger] posts[c[i]].pre_post_key == Some(c[i + 1])
    &&& posts[c.last()].pre_post_key.is_none()
}

/// Following the links from the front of a chain walks the chain itself.
pub proof fn lemma_follow_walks_chain(posts: Map<Address, PostState>, c: Seq<Address>, k: nat)
    requires
        chain_links(posts, c),
        k < c.len(),
    ensures
        follow(posts, c[0], k) == Some(c[k as int]),
    decreases k,
{
    if k > 0 {
        lemma_follow_walks_chain(posts, c, (k - 1) as nat);
        assert(c.contains(c[k - 1]));
        assert(posts[c[k - 1]].pre_post_key == Some(c[(k - 1) + 1]));
    }
}

/// A chain of distinct addresses has as many posts as the map holds.
pub proof fn lemma_chain_counts_posts(posts: Map<Address, PostState>, c: Seq<Address>)
    requires
        chain_links(posts, c),
    ensures
        posts.dom().finite(),
        posts.dom().len() == c.len(),
{
    assert(posts.dom() =~= c.to_set());
    c.unique_seq_to_set();
}

/// A new post in front of the chain that points at the old front.
pub proof fn lemma_chain_push(posts: Map<Address, PostState>, c: Seq<Address>, a: Address, p: PostState)
    requires
        chain_links(posts, c),
        !posts.contains_key(a),
        p.pre_post_key == Some(c[0]),
    ensures
        chain_links(posts.insert(a, p), seq![a] + c),
        (seq![a] + c)[0] == a,
        (seq![a] + c).last() == c.last(),
{
    let n = seq![a] + c;
    let m = posts.insert(a, p);
    assert(!c.contains(a));
    assert forall|i: int, j: int| 0 <= i < n.len() && 0 <= j < n.len() && i != j implies n[i] != n[j] by {
        if i > 0 && j > 0 {
            assert(n[i] == c[i - 1] && n[j] == c[j - 1]);
        } else if i == 0 {
            assert(n[j] == c[j - 1]);
        } else {
            assert(n[i] == c[i - 1]);
        }
    }
    assert forall|b: Address| #[trigger] m.contains_key(b) <==> n.contains(b) by {
        if c.contains(b) {
            let i = choose|i: int| 0 <= i < c.len() && c[i] == b;
            assert(n[i + 1] == b);
        }
        if n.contains(b) && b != a {
            let i = choose|i: int| 0 <= i < n.len() && n[i] == b;
            assert(c[i - 1] == b);
        }
        if b == a {
            assert(n[0] == b);
        }
    }
    assert forall|i: int| 0 <= i < n.len() - 1 implies #[trigger] m[n[i]].pre_post_key == Some(n[i + 1]) by {
        if i > 0 {
            assert(n[i] == c[i - 1] && n[i + 1] == c[i]);
            assert(c.contains(c[i - 1]));
        }
    }
    assert(n.last() == c.last());
    assert(c.contains(c.last()));
}

/// Dropping the front post of a chain of two or more.
pub proof fn lemma_chain_drop_front(posts: Map<Address, PostState>, c: Seq<Address>)
    requires
        chain_links(posts, c),
        c.len() >= 2,
    ensures
        chain_links(posts.remove(c[0]), c.drop_first()),
        c.drop_first()[0] == c[1],
        c.drop_first().last() == c.last(),
{
    let n = c.drop_first();
    let m = posts.remove(c[0]);
    assert forall|b: Address| #[trigger] m.contains_key(b) <==> n.contains(b) by {
        if c.contains(b) && b != c[0] {
            let i = choose|i: int| 0 <= i < c.len() && c[i] == b;
            assert(n[i - 1] == b);
        }
        if n.contains(b) {
            let i = choose|i: int| 0 <= i < n.len() && n[i] == b;
            assert(c[i + 1] == b);
        }
    }
    assert forall|i: int| 0 <= i < n.len() - 1 implies #[trigger] m[n[i]].pre_post_key == Some(n[i + 1]) by {
        assert(n[i] == c[i + 1] && n[i + 1] == c[i + 2]);
        assert(posts[c[i + 1]].pre_post_key == Some(c[(i + 1) + 1]));
    }
    assert(n.last() == c[c.len() - 1]);
    assert(c[0] != c[c.len() - 1]);
}

/// Splicing `b` out of the chain, where `a` is the newer post that points at
/// it and `b` is not the last post: `a` then points where `b` did.
pub proof fn lemma_chain_splice(posts: Map<Address, PostState>, c: Seq<Address>, b: Address, a: Address, i: int)
    requires
        chain_links(posts, c),
        0 <= i < c.len(),
        c[i] == b,
        posts.contains_key(a),
        posts.contains_key(b),
        posts[a].pre_post_key == Some(b),
        posts[b].pre_post_key.is_some(),
    ensures
        1 <= i < c.len() - 1,
        c[i] == b,
        c[i - 1] == a,
        a != b,
        chain_links(
            posts.remove(b).insert(a, with_prev(posts[a], posts[b].pre_post_key)),
            c.remove(i),
        ),
        c.remove(i)[0] == c[0],
        c.remove(i).last() == c.last(),
{
    let ib = i;
    let ia = choose|i: int| 0 <= i < c.len() && c[i] == a;
    assert(c.contains(a) && c.contains(b));
    assert(ia < c.len() - 1);
    assert(posts[c[ia]].pre_post_key == Some(c[ia + 1]));
    assert(ib == ia + 1);
    assert(ib < c.len() - 1);
    let n = c.remove(i);
    let m = posts.remove(b).insert(a, with_prev(posts[a], posts[b].pre_post_key));
    assert(posts[c[i]].pre_post_key == Some(c[i + 1]));
    assert forall|x: int, y: int| 0 <= x < n.len() && 0 <= y < n.len() && x != y implies n[x] != n[y] by {
        let px = if x < i { x } else { x + 1 };
        let py = if y < i { y } else { y + 1 };
        assert(n[x] == c[px] && n[y] == c[py]);
    }
    assert forall|d: Address| #[trigger] m.contains_key(d) <==> n.contains(d) by {
        if c.contains(d) && d != b {
            let k = choose|k: int| 0 <= k < c.len() && c[k] == d;
            let q = if k < i { k } else { k - 1 };
            assert(n[q] == d);
        }
        if n.contains(d) {
            let q = choose|q: int| 0 <= q < n.len() && n[q] == d;
            let k = if q < i { q } else { q + 1 };
            assert(c[k] == d);
            assert(c.contains(d));
        }
    }
    assert forall|k: int| 0 <= k < n.len() - 1 implies #[trigger] m[n[k]].pre_post_key == Some(n[k + 1]) by {
        if k < i - 1 {
            assert(n[k] == c[k] && n[k + 1] == c[k + 1]);
            assert(posts[c[k]].pre_post_key == Some(c[k + 1]));
        } else if k == i - 1 {
            assert(n[k] == a && n[k + 1] == c[i + 1]);
        } else {
            assert(n[k] == c[k + 1] && n[k + 1] == c[k + 2]);
            assert(posts[c[k + 1]].pre_post_key == Some(c[(k + 1) + 1]));
        }
    }
    assert(n.last() == c.last());
    assert(c.contains(c.last()));
    assert(n[0] == c[0]);
}

/// Posts whose older neighbours stay as they were keep the chain.
pub proof fn lemma_chain_same_links(posts: Map<Address, PostState>, after: Map<Address, PostState>, c: Seq<Address>)
    requires
        chain_links(posts, c),
        after.dom() == posts.dom(),
        forall|a: Address| #[trigger] after.contains_key(a) ==> after[a].pre_post_key == posts[a].pre_post_key,
    ensures
        chain_links(after, c),
{
    assert forall|a: Address| #[trigger] after.contains_key(a) <==> c.contains(a) by {
        assert(after.contains_key(a) == posts.contains_key(a));
    }
    assert forall|i: int| 0 <= i < c.len() - 1 implies #[trigger] after[c[i]].pre_post_key == Some(c[i + 1]) by {
        assert(c.contains(c[i]));
        assert(posts.contains_key(c[i]));
        assert(after.contains_key(c[i]));
    }
    assert(c.contains(c.last()));
    assert(after.contains_key(c.last()));
}

} // verus!
