//! Keeping the entries of an archive inside the directory that they are
//! unpacked into.

use vstd::prelude::*;

verus! {

/// Whether `c` parts two components of a path.
pub open spec fn is_separator(c: char) -> bool {
    c == '/' || c == '\\'
}

/// The components of a path: what stands between its separators. A path
/// without a separator is one component; two separators in a row hold an
/// empty component between them.
pub open spec fn components(path: Seq<char>) -> Seq<Seq<char>>
    decreases path.len(),
{
    if path.len() == 0 {
        seq![Seq::<char>::empty()]
    } else {
        let before = components(path.drop_last());
        if is_separator(path.last()) {
            before.push(Seq::<char>::empty())
        } else {
            before.drop_last().push(before.last().push(path.last()))
        }
    }
}

/// How deep below the start a walk stands after one more component, from
/// `depth` below it: an empty component and `.` stay, `..` goes up, any
/// other name goes down. `None` where the walk would go above the start.
pub open spec fn walk_one(depth: nat, component: Seq<char>) -> Option<nat> {
    if component.len() == 0 || component == seq!['.'] {
        Some(depth)
    } else if component == seq!['.', '.'] {
        if depth == 0 {
            None
        } else {
            Some((depth - 1) as nat)
        }
    } else {
        Some(depth + 1)
    }
}

/// How deep below the start a walk along `parts` ends. `None` where the walk
/// goes above the start at any point.
pub open spec fn walk(parts: Seq<Seq<char>>) -> Option<nat>
    decreases parts.len(),
{
    if parts.len() == 0 {
        Some(0)
    } else {
        match walk(parts.drop_last()) {
            Some(depth) => walk_one(depth, parts.last()),
            None => None,
        }
    }
}

/// Whether a path names its place from a root or a drive, not from the
/// directory at hand.
pub open spec fn is_rooted(path: Seq<char>) -> bool {
    ||| path.len() > 0 && is_separator(path[0])
    ||| path.len() > 1 && path[1] == ':'
}

/// Whether the path of an entry stays inside the directory that it is
/// unpacked into: it holds no NUL character, does not start from a root or
/// a drive, and never climbs above the directory on its way.
pub open spec fn is_confined(path: Seq<char>) -> bool {
    &&& !path.contains('\0')
    &&& !is_rooted(path)
    &&& walk(components(path)) is Some
}

/// A walk that stays below the start does so at each of its points.
pub proof fn lemma_walk_prefix(parts: Seq<Seq<char>>, k: int)
    requires
        walk(parts) is Some,
        0 <= k <= parts.len(),
    ensures
        walk(parts.take(k)) is Some,
    decreases parts.len(),
{
    if k == parts.len() {
        assert(parts.take(k) =~= parts);
    } else {
        assert(parts.drop_last().take(k) =~= parts.take(k));
        lemma_walk_prefix(parts.drop_last(), k);
    }
}

/// The path of a confined entry never leaves the directory: it is not
/// rooted, and after each of its components the walk stands at the directory
/// or below it.
pub proof fn lemma_confined_stays_inside(path: Seq<char>, k: int)
    requires
        is_confined(path),
        0 <= k <= components(path).len(),
    ensures
        !is_rooted(path),
        walk(components(path).take(k)) is Some,
{
    lemma_walk_prefix(components(path), k);
}

/// The values of a list of components.
pub open spec fn parts_view(parts: Seq<Vec<char>>) -> Seq<Seq<char>> {
    parts.map_values(|part: Vec<char>| part@)
}

/// The components of `path`.
pub fn split_path(path: &[char]) -> (parts: Vec<Vec<char>>)
    ensures
        parts_view(parts@) == components(path@),
{
    let mut done: Vec<Vec<char>> = Vec::new();
    let mut current: Vec<char> = Vec::new();
    let mut i: usize = 0;
    proof {
        assert(path@.take(0) =~= Seq::<char>::empty());
        assert(parts_view(done@).push(current@) =~= components(path@.take(0)));
    }
    while i < path.len()
        invariant
            i <= path@.len(),
            parts_view(done@).push(current@) == components(path@.take(i as int)),
        decreases path.len() - i,
    {
        let c = path[i];
        proof {
            assert(path@.take(i + 1).drop_last() =~= path@.take(i as int));
            assert(path@.take(i + 1).last() == c);
        }
        let ghost before = parts_view(done@).push(current@);
        if c == '/' || c == '\\' {
            let ghost finished = current@;
            let ghost prior = done@;
            done.push(current);
            current = Vec::new();
            proof {
                assert(parts_view(done@) =~= parts_view(prior).push(finished));
                assert(parts_view(done@).push(current@) =~= before.push(Seq::<char>::empty()));
            }
        } else {
            current.push(c);
            proof {
                assert(before.drop_last() =~= parts_view(done@));
                assert(before.last().push(c) == current@);
            }
        }
        i = i + 1;
    }
    let ghost finished = current@;
    let ghost prior = done@;
    done.push(current);
    proof {
        assert(parts_view(done@) =~= parts_view(prior).push(finished));
        assert(path@.take(path@.len() as int) =~= path@);
    }
    done
}

/// Whether `part` is the component `.`.
fn is_current_dir(part: &Vec<char>) -> (r: bool)
    ensures
        r == (part@ == seq!['.']),
{
    let r = part.len() == 1 && part[0] == '.';
    proof {
        if r {
            assert(part@ =~= seq!['.']);
        } else if part@.len() == 1 {
            assert(seq!['.'][0] == '.');
        } else {
            assert(seq!['.'].len() == 1);
        }
    }
    r
}

/// Whether `part` is the component `..`.
fn is_parent_dir(part: &Vec<char>) -> (r: bool)
    ensures
        r == (part@ == seq!['.', '.']),
{
    let r = part.len() == 2 && part[0] == '.' && part[1] == '.';
    proof {
        if r {
            assert(part@ =~= seq!['.', '.']);
        } else if part@.len() == 2 {
            assert(seq!['.', '.'][0] == '.');
            assert(seq!['.', '.'][1] == '.');
        } else {
            assert(seq!['.', '.'].len() == 2);
        }
    }
    r
}

/// Whether a walk along `parts` stays at the start or below it.
pub fn stays_below(parts: &Vec<Vec<char>>) -> (r: bool)
    ensures
        r == walk(parts_view(parts@)) is Some,
{
    let ghost all = parts_view(parts@);
    let mut depth: usize = 0;
    let mut i: usize = 0;
    proof {
        assert(all.take(0) =~= Seq::<Seq<char>>::empty());
    }
    while i < parts.len()
        invariant
            i <= parts@.len(),
            all == parts_view(parts@),
            depth <= i,
            walk(all.take(i as int)) == Some(depth as nat),
        decreases parts.len() - i,
    {
        proof {
            assert(all.take(i + 1).drop_last() =~= all.take(i as int));
            assert(all.take(i + 1).last() == parts@[i as int]@);
        }
        let part = &parts[i];
        if part.len() == 0 || is_current_dir(part) {
        } else if is_parent_dir(part) {
            if depth == 0 {
                proof {
                    assert(walk(all.take(i + 1)) is None);
                    if walk(all) is Some {
                        lemma_walk_prefix(all, i + 1);
                    }
                }
                return false;
            }
            depth = depth - 1;
        } else {
            depth = depth + 1;
        }
        i = i + 1;
    }
    proof {
        assert(all.take(parts@.len() as int) =~= all);
    }
    true
}

/// Whether `path` holds the character `wanted`.
pub fn holds_char(path: &[char], wanted: char) -> (r: bool)
    ensures
        r == path@.contains(wanted),
{
    let mut i: usize = 0;
    while i < path.len()
        invariant
            i <= path@.len(),
            forall|k: int| 0 <= k < i ==> path@[k] != wanted,
        decreases path.len() - i,
    {
        if path[i] == wanted {
            return true;
        }
        i = i + 1;
    }
    false
}

/// Whether a path names its place from a root or a drive.
pub fn rooted(path: &[char]) -> (r: bool)
    ensures
        r == is_rooted(path@),
{
    (path.len() > 0 && (path[0] == '/' || path[0] == '\\')) || (path.len() > 1 && path[1] == ':')
}

/// Whether the path of an entry stays inside the directory that it is
/// unpacked into.
pub fn confined(path: &[char]) -> (r: bool)
    ensures
        r == is_confined(path@),
{
    if holds_char(path, '\0') || rooted(path) {
        return false;
    }
    let parts = split_path(path);
    stays_below(&parts)
}

} // verus!
