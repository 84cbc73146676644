//! Paths as text. A path is read the way Unix reads it: `/` separates
//! components, repeated and trailing separators count for nothing, and a `.`
//! is a component only where the path begins with it.

use crate::text::{lemma_texts_push, push_char, repeat, repeated, str_eq, texts};
use vstd::prelude::*;

verus! {

/// The pieces of `s` between separators, empty ones too. There is always at
/// least one piece.
pub open spec fn pieces(s: Seq<char>) -> Seq<Seq<char>>
    decreases s.len(),
{
    if s.len() == 0 {
        seq![Seq::empty()]
    } else {
        let before = pieces(s.drop_last());
        if s.last() == '/' {
            before.push(Seq::empty())
        } else {
            before.drop_last().push(before.last().push(s.last()))
        }
    }
}

/// Whether the piece at `position` is a component: it is not empty, and it
/// is not a `.` unless the path begins with it.
pub open spec fn is_component(piece: Seq<char>, position: int) -> bool {
    piece.len() > 0 && (piece != seq!['.'] || position == 0)
}

/// The components among the first pieces of a path.
pub open spec fn kept(all: Seq<Seq<char>>) -> Seq<Seq<char>>
    decreases all.len(),
{
    if all.len() == 0 {
        Seq::empty()
    } else if is_component(all.last(), all.len() - 1) {
        kept(all.drop_last()).push(all.last())
    } else {
        kept(all.drop_last())
    }
}

/// Whether the path starts at the root directory.
pub open spec fn is_rooted(path: Seq<char>) -> bool {
    path.len() > 0 && path[0] == '/'
}

/// The root component, where the first `seen` characters show that the path
/// has one.
pub open spec fn root_of(seen: Seq<char>) -> Seq<Seq<char>> {
    if is_rooted(seen) {
        seq![seq!['/']]
    } else {
        Seq::empty()
    }
}

/// The components of `path`, in order. A rooted path has the root, written
/// `/`, as its first component.
pub open spec fn components_of(path: Seq<char>) -> Seq<Seq<char>> {
    root_of(path) + kept(pieces(path))
}

/// Whether `path` lies at or below `base`: the components of `base` are the
/// first components of `path`.
pub open spec fn is_below(path: Seq<char>, base: Seq<char>) -> bool {
    components_of(base).is_prefix_of(components_of(path))
}

/// How many components `path` has beyond those of `base`.
pub open spec fn depth_below(path: Seq<char>, base: Seq<char>) -> nat {
    (components_of(path).len() - components_of(base).len()) as nat
}

/// `../` written `levels` times: the way up by that many directories.
pub open spec fn parent_prefix(levels: nat) -> Seq<char> {
    repeated("../"@, levels)
}

/// The prefix that leads from the page at `from` back to the directory `to`:
/// one `../` for each directory between them. The page's own file name does
/// not count, and a page that is `to` itself needs no prefix.
pub open spec fn root_prefix(from: Seq<char>, to: Seq<char>) -> Seq<char> {
    let depth = depth_below(from, to);
    if depth >= 1 {
        parent_prefix((depth - 1) as nat)
    } else {
        parent_prefix(0)
    }
}

/// The prefix that leads from a page to the shared index, which lies one
/// directory above the repository's own root.
pub open spec fn index_prefix(to_repo_root: Seq<char>) -> Seq<char> {
    "../"@ + to_repo_root
}

/// The name a path ends in, without its extension. A path without
/// components has none, nor has one that ends in the root or in `..`.
pub open spec fn display_name_of(path: Seq<char>) -> Option<Seq<char>> {
    let all = components_of(path);
    if all.len() == 0 || all.last() == seq!['/'] || all.last() == seq!['.', '.'] {
        None
    } else {
        Some(stem_of(all.last()))
    }
}

/// The position of the last `.` in `name`, or -1 if it has none.
pub open spec fn last_dot(name: Seq<char>) -> int
    decreases name.len(),
{
    if name.len() == 0 {
        -1
    } else if name.last() == '.' {
        name.len() - 1
    } else {
        last_dot(name.drop_last())
    }
}

/// A file name without its extension: the part before the last `.`. A name
/// without `.`, or whose only `.` comes first, is all stem.
pub open spec fn stem_of(name: Seq<char>) -> Seq<char> {
    if last_dot(name) <= 0 {
        name
    } else {
        name.take(last_dot(name))
    }
}

/// The components of `path`.
pub fn components(path: &str) -> (list: Vec<String>)
    ensures
        texts(list@) == components_of(path@),
{
    let mut list: Vec<String> = Vec::new();
    let mut cur = String::new();
    let mut first: bool = true;
    let mut start: bool = true;
    let ghost mut closed: Seq<Seq<char>> = Seq::empty();
    proof {
        reveal_strlit(".");
        reveal_strlit("/");
    }
    for c in it: path.chars()
        invariant
            it.seq() == path@,
            "."@ == seq!['.'],
            "/"@ == seq!['/'],
            pieces(path@.take(it.index() as int)) == closed.push(cur@),
            first == (closed.len() == 0),
            start == (it.index() == 0),
            texts(list@) == root_of(path@.take(it.index() as int)) + kept(closed),
    {
        let ghost seen = path@.take(it.index() as int);
        let ghost next = path@.take(it.index() + 1);
        let ghost done = list@;
        let ghost piece = cur@;
        proof {
            assert(next.drop_last() =~= seen);
            assert(closed.push(piece).drop_last() =~= closed);
        }
        if c == '/' {
            if start {
                list.push(String::from_str("/"));
            } else {
                let keep = !cur.as_str().is_empty() && (first || !str_eq(cur.as_str(), "."));
                if keep {
                    proof {
                        lemma_texts_push(done, cur);
                    }
                    list.push(cur);
                }
            }
            cur = String::new();
            first = false;
            proof {
                closed = closed.push(piece);
            }
        } else {
            push_char(&mut cur, c);
        }
        start = false;
    }
    proof {
        assert(path@.take(path@.len() as int) =~= path@);
        assert(closed.push(cur@).drop_last() =~= closed);
    }
    let keep = !cur.as_str().is_empty() && (first || !str_eq(cur.as_str(), "."));
    if keep {
        proof {
            lemma_texts_push(list@, cur);
        }
        list.push(cur);
    }
    list
}

/// The empty path has no components, so every path lies below it.
pub proof fn lemma_no_components()
    ensures
        components_of(Seq::empty()) == Seq::<Seq<char>>::empty(),
{
    reveal_with_fuel(kept, 2);
}

/// Whether `path` lies at or below `base`.
pub fn lies_below(path: &str, base: &str) -> (below: bool)
    ensures
        below == is_below(path@, base@),
{
    let page = components(path);
    let root = components(base);
    if root.len() > page.len() {
        return false;
    }
    let mut i: usize = 0;
    while i < root.len()
        invariant
            i <= root.len() <= page.len(),
            texts(root@) == components_of(base@),
            texts(page@) == components_of(path@),
            forall|k: int| 0 <= k < i ==> texts(root@)[k] == texts(page@)[k],
        decreases root.len() - i,
    {
        if !str_eq(root[i].as_str(), page[i].as_str()) {
            assert(texts(root@)[i as int] != texts(page@)[i as int]);
            return false;
        }
        i = i + 1;
    }
    true
}

/// The prefix that leads from the page at `from` back to the directory `to`.
pub fn to_root_path(from: &str, to: &str) -> (prefix: String)
    requires
        is_below(from@, to@),
    ensures
        prefix@ == root_prefix(from@, to@),
{
    let page = components(from);
    let root = components(to);
    let depth = page.len() - root.len();
    let levels = if depth >= 1 {
        depth - 1
    } else {
        0
    };
    repeat("../", levels)
}

/// The prefix that leads from a page to the shared index, given the prefix
/// that leads to the repository's root.
pub fn to_index_root(to_repo_root: &str) -> (prefix: String)
    ensures
        prefix@ == index_prefix(to_repo_root@),
{
    let mut prefix = String::from_str("../");
    prefix.append(to_repo_root);
    prefix
}

/// A unit before its repetitions is one repetition more.
pub proof fn lemma_repeated_front(unit: Seq<char>, count: nat)
    ensures
        unit + repeated(unit, count) == repeated(unit, count + 1),
    decreases count,
{
    if count > 0 {
        lemma_repeated_front(unit, (count - 1) as nat);
    }
}

/// A page `depth` components below the root of its repository, with `depth`
/// at least one, reaches that root by `depth - 1` steps up, and a page that is
/// the root itself by none. The shared index is always one step further.
pub proof fn lemma_prefix_by_depth(from: Seq<char>, to: Seq<char>)
    requires
        is_below(from, to),
    ensures
        depth_below(from, to) >= 1 ==> root_prefix(from, to) == repeated(
            "../"@,
            (depth_below(from, to) - 1) as nat,
        ),
        depth_below(from, to) == 0 ==> root_prefix(from, to) == Seq::<char>::empty(),
        depth_below(from, to) >= 1 ==> index_prefix(root_prefix(from, to)) == repeated(
            "../"@,
            depth_below(from, to),
        ),
        depth_below(from, to) == 0 ==> index_prefix(root_prefix(from, to)) == "../"@,
{
    let depth = depth_below(from, to);
    if depth >= 1 {
        lemma_repeated_front("../"@, (depth - 1) as nat);
    }
}

/// `name` without its extension.
pub fn stem(name: &str) -> (short: String)
    ensures
        short@ == stem_of(name@),
{
    let mut head = String::new();
    let mut tail = String::new();
    let mut dotted: bool = false;
    for c in it: name.chars()
        invariant
            it.seq() == name@,
            dotted == (last_dot(name@.take(it.index() as int)) >= 0),
            dotted ==> head@ == name@.take(last_dot(name@.take(it.index() as int))),
            !dotted ==> head@.len() == 0,
            -1 <= last_dot(name@.take(it.index() as int)) < it.index(),
            head@ + tail@ == name@.take(it.index() as int),
    {
        let ghost seen = name@.take(it.index() as int);
        let ghost next = name@.take(it.index() + 1);
        proof {
            assert(next.drop_last() =~= seen);
        }
        if c == '.' {
            head.append(tail.as_str());
            tail = String::from_str(".");
            dotted = true;
            proof {
                reveal_strlit(".");
            }
        } else {
            push_char(&mut tail, c);
        }
    }
    proof {
        assert(name@.take(name@.len() as int) =~= name@);
    }
    if head.as_str().is_empty() {
        String::from_str(name)
    } else {
        head
    }
}

/// The name a path ends in, without its extension.
pub fn display_name(path: &str) -> (name: Option<String>)
    ensures
        name is Some == display_name_of(path@) is Some,
        name is Some ==> name->0@ == display_name_of(path@)->0,
{
    let all = components(path);
    if all.len() == 0 {
        return None;
    }
    let last = all[all.len() - 1].as_str();
    proof {
        reveal_strlit("/");
        reveal_strlit("..");
        assert("/"@ =~= seq!['/']);
        assert(".."@ =~= seq!['.', '.']);
    }
    if str_eq(last, "/") || str_eq(last, "..") {
        None
    } else {
        Some(stem(last))
    }
}

} // verus!
