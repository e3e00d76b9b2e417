//! Paths as lists of components, and the guard that keeps an upload under
//! the server's root directory.
//!
//! Paths are resolved by their text alone: `.` and empty components are
//! dropped, `..` leaves the directory reached so far, and a path that begins
//! with `/` starts over from the top. Nothing here touches the file system.
use crate::text::{chars_eq, chars_of, extend_chars, string_of};
use crate::tokens::{lemma_texts_push, split, split_chars, texts};
use vstd::prelude::*;

verus! {

/// Whether `c` names a directory entry: it is not empty, `.` or `..`.
pub open spec fn is_name(c: Seq<char>) -> bool {
    c.len() > 0 && c != "."@ && c != ".."@
}

/// The directory reached from `stack` by the component `c`.
pub open spec fn step(stack: Seq<Seq<char>>, c: Seq<char>) -> Seq<Seq<char>> {
    if c.len() == 0 || c == "."@ {
        stack
    } else if c == ".."@ {
        if stack.len() > 0 {
            stack.drop_last()
        } else {
            stack
        }
    } else {
        stack.push(c)
    }
}

/// The directory reached from `stack` by the first `upto` of `components`.
pub open spec fn walk(stack: Seq<Seq<char>>, components: Seq<Seq<char>>, upto: int) -> Seq<
    Seq<char>,
>
    decreases upto,
{
    if upto <= 0 {
        stack
    } else {
        step(walk(stack, components, upto - 1), components[upto - 1])
    }
}

/// The place that `path` names when it is followed from `base`: from the top
/// where `path` begins with `/`, from `base` otherwise.
pub open spec fn resolve(base: Seq<Seq<char>>, path: Seq<char>) -> Seq<Seq<char>> {
    let components = split(path, '/');
    let start = if path.len() > 0 && path[0] == '/' {
        Seq::empty()
    } else {
        base
    };
    walk(start, components, components.len() as int)
}

/// The text of a path from the top: each component after a `/`; `/` alone
/// for the top itself.
pub open spec fn join(components: Seq<Seq<char>>) -> Seq<char> {
    if components.len() == 0 {
        "/"@
    } else {
        join_below(components)
    }
}

/// Each component after a `/`.
pub open spec fn join_below(components: Seq<Seq<char>>) -> Seq<char>
    decreases components.len(),
{
    if components.len() == 0 {
        Seq::empty()
    } else {
        join_below(components.drop_last()) + "/"@ + components.last()
    }
}

/// Where an upload named `filename` into the directory `path` goes, for a
/// server whose root directory is `root`: `path` is followed from the root,
/// then `filename` from there. `None` where that place is not the root or
/// below it.
pub open spec fn upload_target(root: Seq<char>, path: Seq<char>, filename: Seq<char>) -> Option<
    Seq<Seq<char>>,
> {
    let base = resolve(Seq::empty(), root);
    let target = resolve(resolve(base, path), filename);
    if base.is_prefix_of(target) {
        Some(target)
    } else {
        None
    }
}

/// A walk that starts among names ends among names.
pub proof fn lemma_walk_names(stack: Seq<Seq<char>>, components: Seq<Seq<char>>, upto: int)
    requires
        forall|i: int| 0 <= i < stack.len() ==> is_name(#[trigger] stack[i]),
        upto <= components.len(),
    ensures
        forall|i: int|
            0 <= i < walk(stack, components, upto).len() ==> is_name(
                #[trigger] walk(stack, components, upto)[i],
            ),
    decreases upto,
{
    if upto > 0 {
        lemma_walk_names(stack, components, upto - 1);
        let before = walk(stack, components, upto - 1);
        let c = components[upto - 1];
        let after = step(before, c);
        assert forall|i: int| 0 <= i < after.len() implies is_name(#[trigger] after[i]) by {
            if c.len() == 0 || c == "."@ {
            } else if c == ".."@ {
                assert(after[i] == before[i]);
            } else if i < before.len() {
                assert(after[i] == before[i]);
            } else {
                assert(after[i] == c);
            }
        }
    }
}

/// An upload never leaves the root: where `upload_target` names a place, the
/// root's components are the first components of that place, and none of the
/// place's components is empty, `.` or `..`.
pub proof fn lemma_upload_stays_under_root(root: Seq<char>, path: Seq<char>, filename: Seq<char>)
    ensures
        upload_target(root, path, filename) matches Some(target) ==> {
            &&& resolve(Seq::empty(), root).is_prefix_of(target)
            &&& forall|i: int| 0 <= i < target.len() ==> is_name(#[trigger] target[i])
        },
{
    let empty = Seq::<Seq<char>>::empty();
    let base = resolve(empty, root);
    lemma_walk_names(empty, split(root, '/'), split(root, '/').len() as int);
    let first = if path.len() > 0 && path[0] == '/' {
        empty
    } else {
        base
    };
    lemma_walk_names(first, split(path, '/'), split(path, '/').len() as int);
    let middle = resolve(base, path);
    let second = if filename.len() > 0 && filename[0] == '/' {
        empty
    } else {
        middle
    };
    lemma_walk_names(second, split(filename, '/'), split(filename, '/').len() as int);
}

/// The place that `path` names when it is followed from `base`.
pub fn resolve_chars(base: Vec<Vec<char>>, path: &[char]) -> (r: Vec<Vec<char>>)
    ensures
        texts(r@) == resolve(texts(base@), path@),
{
    let components = split_chars(path, '/');
    let mut stack: Vec<Vec<char>> = if path.len() > 0 && path[0] == '/' {
        let fresh: Vec<Vec<char>> = Vec::new();
        assert(texts(fresh@) =~= Seq::empty());
        fresh
    } else {
        base
    };
    let ghost start = texts(stack@);
    let ghost all = texts(components@);
    let dot = chars_of(".");
    let dots = chars_of("..");
    let mut i: usize = 0;
    while i < components.len()
        invariant
            i <= components@.len(),
            all == texts(components@),
            dot@ == "."@,
            dots@ == ".."@,
            texts(stack@) == walk(start, all, i as int),
        decreases components@.len() - i,
    {
        let c = &components[i];
        assert(all[i as int] == c@);
        if c.len() == 0 || chars_eq(c.as_slice(), dot.as_slice()) {
        } else if chars_eq(c.as_slice(), dots.as_slice()) {
            if stack.len() > 0 {
                let ghost before = stack@;
                stack.pop();
                assert(texts(stack@) =~= texts(before).drop_last());
            }
        } else {
            proof {
                lemma_texts_push(stack@, *c);
            }
            stack.push(c.clone());
        }
        i += 1;
    }
    stack
}

/// Whether the components of `base` are the first components of `target`.
pub fn is_under(base: &Vec<Vec<char>>, target: &Vec<Vec<char>>) -> (r: bool)
    ensures
        r == texts(base@).is_prefix_of(texts(target@)),
{
    if base.len() > target.len() {
        return false;
    }
    let mut i: usize = 0;
    while i < base.len()
        invariant
            i <= base@.len() <= target@.len(),
            forall|j: int| 0 <= j < i ==> base@[j]@ == target@[j]@,
        decreases base@.len() - i,
    {
        if !chars_eq(base[i].as_slice(), target[i].as_slice()) {
            assert(texts(base@)[i as int] == base@[i as int]@);
            assert(texts(target@).subrange(0, base@.len() as int)[i as int] == target@[i as int]@);
            return false;
        }
        i += 1;
    }
    assert(texts(base@) =~= texts(target@).subrange(0, base@.len() as int));
    true
}

/// The text of a path from the top.
pub fn join_chars(components: &Vec<Vec<char>>) -> (r: Vec<char>)
    ensures
        r@ == join(texts(components@)),
{
    let mut r: Vec<char> = Vec::new();
    if components.len() == 0 {
        r.push('/');
        proof {
            reveal_strlit("/");
            assert(r@ =~= "/"@);
        }
        return r;
    }
    let ghost all = texts(components@);
    let mut i: usize = 0;
    assert(all.take(0) =~= Seq::empty());
    while i < components.len()
        invariant
            i <= components@.len(),
            all == texts(components@),
            r@ == join_below(all.take(i as int)),
        decreases components@.len() - i,
    {
        let ghost before = r@;
        r.push('/');
        extend_chars(&mut r, components[i].as_slice());
        proof {
            reveal_strlit("/");
            let upto = all.take(i + 1);
            assert(upto.drop_last() =~= all.take(i as int));
            assert(upto.last() == components@[i as int]@);
            assert(r@ =~= before + "/"@ + components@[i as int]@);
        }
        i += 1;
    }
    assert(all.take(i as int) =~= all);
    r
}

/// Where an upload named `filename` into the directory `path` goes, for a
/// server whose root directory is `root`, as the text of a path; `None` where
/// that place is not the root or below it.
pub fn upload_path(root: &str, path: &str, filename: &str) -> (r: Option<String>)
    ensures
        match upload_target(root@, path@, filename@) {
            Some(target) => r matches Some(text) && text@ == join(target),
            None => r is None,
        },
{
    let root_chars = chars_of(root);
    let path_chars = chars_of(path);
    let name_chars = chars_of(filename);
    let top: Vec<Vec<char>> = Vec::new();
    assert(texts(top@) =~= Seq::empty());
    let base = resolve_chars(top, root_chars.as_slice());
    let base_copy = copy_components(&base);
    let directory = resolve_chars(base_copy, path_chars.as_slice());
    let target = resolve_chars(directory, name_chars.as_slice());
    if is_under(&base, &target) {
        let text = join_chars(&target);
        Some(string_of(text.as_slice()))
    } else {
        None
    }
}

/// A copy of `components`.
fn copy_components(components: &Vec<Vec<char>>) -> (r: Vec<Vec<char>>)
    ensures
        texts(r@) == texts(components@),
{
    let mut r: Vec<Vec<char>> = Vec::new();
    let mut i: usize = 0;
    while i < components.len()
        invariant
            i <= components@.len(),
            r@.len() == i,
            forall|j: int| 0 <= j < i ==> r@[j]@ == components@[j]@,
        decreases components@.len() - i,
    {
        r.push(components[i].clone());
        i += 1;
    }
    assert(texts(r@) =~= texts(components@));
    r
}

} // verus!
