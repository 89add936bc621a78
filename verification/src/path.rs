//! Module names as paths, and how a relative name is resolved against the name of the module
//! that imports it.

use vstd::prelude::*;

use crate::cstring::zero_free;

verus! {

/// The byte `.`.
pub const DOT: u8 = 0x2e;

/// The byte `/`.
pub const SLASH: u8 = 0x2f;

/// The position of the last `/` of `path`.
pub open spec fn last_slash(path: Seq<u8>) -> Option<int>
    decreases path.len(),
{
    if path.len() == 0 {
        None
    } else if path.last() == SLASH {
        Some(path.len() - 1)
    } else {
        last_slash(path.drop_last())
    }
}

/// What stands before the last `/` of `path`; nothing where there is none.
pub open spec fn directory(path: Seq<u8>) -> Seq<u8> {
    match last_slash(path) {
        Some(p) => path.take(p),
        None => Seq::empty(),
    }
}

/// What stands behind the last `/` of `path`; all of it where there is none.
pub open spec fn last_element(path: Seq<u8>) -> Seq<u8> {
    match last_slash(path) {
        Some(p) => path.skip(p + 1),
        None => path,
    }
}

/// Whether `..` can take the last element off `dir`: there is one, and it is not itself `.` or
/// `..`.
pub open spec fn can_ascend(dir: Seq<u8>) -> bool {
    &&& dir.len() > 0
    &&& last_element(dir) != seq![DOT]
    &&& last_element(dir) != seq![DOT, DOT]
}

/// Whether `name` begins with `./`.
pub open spec fn begins_here(name: Seq<u8>) -> bool {
    name.len() >= 2 && name[0] == DOT && name[1] == SLASH
}

/// Whether `name` begins with `../`.
pub open spec fn begins_above(name: Seq<u8>) -> bool {
    name.len() >= 3 && name[0] == DOT && name[1] == DOT && name[2] == SLASH
}

/// `name` inside the directory `dir`.
pub open spec fn join(dir: Seq<u8>, name: Seq<u8>) -> Seq<u8> {
    if dir.len() == 0 {
        name
    } else {
        dir.push(SLASH) + name
    }
}

/// `name` as seen from the directory `dir`: each leading `./` is dropped, each leading `../`
/// takes the last element off `dir` as long as there is one to take.
pub open spec fn resolve(dir: Seq<u8>, name: Seq<u8>) -> Seq<u8>
    decreases name.len(),
{
    if begins_here(name) {
        resolve(dir, name.skip(2))
    } else if begins_above(name) && can_ascend(dir) {
        resolve(directory(dir), name.skip(3))
    } else {
        join(dir, name)
    }
}

/// Whether `name` is taken relative to the importing module.
pub open spec fn is_relative(name: Seq<u8>) -> bool {
    name.len() > 0 && name[0] == DOT
}

/// The full name of the module that `name` stands for in the module `base`.
pub open spec fn normalized(base: Seq<u8>, name: Seq<u8>) -> Seq<u8> {
    if is_relative(name) {
        resolve(directory(base), name)
    } else {
        name
    }
}

pub(crate) proof fn lemma_last_slash(path: Seq<u8>)
    ensures
        match last_slash(path) {
            Some(p) => 0 <= p < path.len() && path[p] == SLASH && (forall|i: int|
                p < i < path.len() ==> path[i] != SLASH),
            None => forall|i: int| 0 <= i < path.len() ==> path[i] != SLASH,
        },
    decreases path.len(),
{
    if path.len() > 0 && path.last() != SLASH {
        lemma_last_slash(path.drop_last());
        assert forall|i: int| 0 <= i < path.len() - 1 implies path[i] == path.drop_last()[i] by {}
    }
}

pub(crate) proof fn lemma_last_slash_unique(path: Seq<u8>, p: int)
    requires
        0 <= p < path.len(),
        path[p] == SLASH,
        forall|i: int| p < i < path.len() ==> path[i] != SLASH,
    ensures
        last_slash(path) == Some(p),
{
    lemma_last_slash(path);
}

/// Finds the last `/` among the first `len` bytes of `path`.
fn find_last_slash(path: &[u8], len: usize) -> (found: Option<usize>)
    requires
        len <= path@.len(),
    ensures
        match found {
            Some(p) => last_slash(path@.take(len as int)) == Some(p as int) && p < len,
            None => last_slash(path@.take(len as int)) is None,
        },
{
    let mut i: usize = len;
    while i > 0
        invariant
            i <= len <= path@.len(),
            forall|j: int| i <= j < len ==> path@[j] != SLASH,
        decreases i,
    {
        if path[i - 1] == SLASH {
            proof {
                lemma_last_slash_unique(path@.take(len as int), i - 1);
            }
            return Some(i - 1);
        }
        i = i - 1;
    }
    proof {
        lemma_last_slash(path@.take(len as int));
    }
    None
}

/// The length of the directory of `path`.
pub(crate) fn directory_len(path: &[u8]) -> (len: usize)
    ensures
        len == directory(path@).len(),
        len <= path@.len(),
{
    let len: usize = match find_last_slash(path, path.len()) {
        Some(p) => p,
        None => 0,
    };
    assert(path@.take(path@.len() as int) =~= path@);
    len
}

/// Resolves `name` against `base`.
pub fn normalize(base: &[u8], name: &[u8]) -> (full: Vec<u8>)
    ensures
        full@ == normalized(base@, name@),
{
    let name_len: usize = name.len();
    if name_len == 0 || name[0] != DOT {
        return vstd::slice::slice_to_vec(name);
    }
    let mut dir_len: usize = directory_len(base);
    proof {
        lemma_last_slash(base@);
        assert(base@.take(dir_len as int) =~= directory(base@));
        assert(name@.skip(0) =~= name@);
    }
    let mut r: usize = 0;
    loop
        invariant
            dir_len <= base@.len(),
            r <= name_len == name@.len(),
            resolve(base@.take(dir_len as int), name@.skip(r as int)) == resolve(
                directory(base@),
                name@,
            ),
        ensures
            dir_len <= base@.len(),
            r <= name_len == name@.len(),
            join(base@.take(dir_len as int), name@.skip(r as int)) == resolve(
                directory(base@),
                name@,
            ),
        decreases name_len - r,
    {
        let ghost dir = base@.take(dir_len as int);
        let ghost rest = name@.skip(r as int);
        if name_len - r >= 2 && name[r] == DOT && name[r + 1] == SLASH {
            assert(rest.skip(2) =~= name@.skip(r + 2));
            r = r + 2;
        } else if name_len - r >= 3 && name[r] == DOT && name[r + 1] == DOT && name[r + 2]
            == SLASH {
            assert(begins_above(rest));
            if dir_len == 0 {
                break;
            }
            let slash: Option<usize> = find_last_slash(base, dir_len);
            let start: usize = match slash {
                Some(p) => p + 1,
                None => 0,
            };
            assert(last_element(dir) =~= base@.subrange(start as int, dir_len as int));
            let is_here: bool = dir_len - start == 1 && base[start] == DOT;
            let is_above: bool = dir_len - start == 2 && base[start] == DOT && base[start + 1]
                == DOT;
            assert(is_here ==> last_element(dir) =~= seq![DOT]);
            assert(is_above ==> last_element(dir) =~= seq![DOT, DOT]);
            if is_here || is_above {
                break;
            }
            proof {
                if last_element(dir) == seq![DOT] {
                    assert(last_element(dir)[0] == DOT && last_element(dir).len() == 1);
                }
                if last_element(dir) == seq![DOT, DOT] {
                    assert(last_element(dir).len() == 2);
                    assert(last_element(dir)[0] == DOT && last_element(dir)[1] == DOT);
                }
                assert(can_ascend(dir));
                assert(rest.skip(3) =~= name@.skip(r + 3));
            }
            dir_len = match slash {
                Some(p) => p,
                None => 0,
            };
            assert(base@.take(dir_len as int) =~= directory(dir));
            r = r + 3;
        } else {
            assert(!begins_here(rest) && !begins_above(rest));
            break;
        }
    }
    let mut full: Vec<u8> = vstd::slice::slice_to_vec(
        vstd::slice::slice_subrange(base, 0, dir_len),
    );
    assert(full@ =~= base@.take(dir_len as int));
    if dir_len > 0 {
        full.push(SLASH);
    }
    let mut rest: Vec<u8> = vstd::slice::slice_to_vec(
        vstd::slice::slice_subrange(name, r, name_len),
    );
    assert(rest@ =~= name@.skip(r as int));
    full.append(&mut rest);
    full
}

proof fn lemma_directory(path: Seq<u8>)
    ensures
        directory(path).len() <= path.len(),
        directory(path) == path.take(directory(path).len() as int),
{
    lemma_last_slash(path);
    assert(directory(path) =~= path.take(directory(path).len() as int));
}

/// What resolving gives is made of a prefix of the directory and a suffix of the name.
#[verifier::spinoff_prover]
proof fn lemma_resolve_shape(dir: Seq<u8>, name: Seq<u8>) -> (parts: (int, int))
    ensures
        0 <= parts.0 <= dir.len(),
        0 <= parts.1 <= name.len(),
        resolve(dir, name) == join(dir.take(parts.0), name.skip(parts.1)),
    decreases name.len(),
{
    if begins_here(name) {
        let behind = name.skip(2);
        let rest = lemma_resolve_shape(dir, behind);
        assert(resolve(dir, name) == resolve(dir, behind));
        assert(behind.skip(rest.1) == name.skip(rest.1 + 2)) by {
            assert(behind.skip(rest.1) =~= name.skip(rest.1 + 2));
        }
        (rest.0, rest.1 + 2)
    } else if begins_above(name) && can_ascend(dir) {
        let behind = name.skip(3);
        let above = directory(dir);
        lemma_directory(dir);
        let rest = lemma_resolve_shape(above, behind);
        assert(resolve(dir, name) == resolve(above, behind));
        assert(behind.skip(rest.1) == name.skip(rest.1 + 3)) by {
            assert(behind.skip(rest.1) =~= name.skip(rest.1 + 3));
        }
        assert(above.take(rest.0) == dir.take(rest.0)) by {
            assert(above.take(rest.0) =~= dir.take(rest.0));
        }
        (rest.0, rest.1 + 3)
    } else {
        assert(resolve(dir, name) == join(dir, name));
        assert(dir.take(dir.len() as int) == dir) by {
            assert(dir.take(dir.len() as int) =~= dir);
        }
        assert(name.skip(0) == name) by {
            assert(name.skip(0) =~= name);
        }
        (dir.len() as int, 0)
    }
}

/// The directory of a path is a prefix of the path.
pub proof fn law_directory_is_shorter(path: Seq<u8>)
    ensures
        directory(path).len() <= path.len(),
        directory(path) == path.take(directory(path).len() as int),
{
    lemma_directory(path);
}

/// From a module that stands in no directory, `./` in front of a name that is not relative itself
/// names just that module.
pub proof fn law_top_level_sibling(base: Seq<u8>, rest: Seq<u8>)
    requires
        last_slash(base) is None,
        !is_relative(rest),
    ensures
        normalized(base, seq![DOT, SLASH] + rest) == rest,
{
    law_sibling(base, rest);
}

/// A name that does not begin with a dot stands for itself, whatever module imports it.
pub proof fn law_bare_name(base: Seq<u8>, name: Seq<u8>)
    requires
        !is_relative(name),
    ensures
        normalized(base, name) == name,
{
}

/// The full name, with its terminator, fits into a block for the directory of the importing
/// module, the name, a slash and the terminator.
pub proof fn law_fits(base: Seq<u8>, name: Seq<u8>)
    ensures
        normalized(base, name).len() + 1 <= directory(base).len() + name.len() + 2,
{
    let parts = lemma_resolve_shape(directory(base), name);
}

/// The full name of two names without a zero byte has none either.
pub proof fn law_zero_free(base: Seq<u8>, name: Seq<u8>)
    requires
        zero_free(base),
        zero_free(name),
    ensures
        zero_free(normalized(base, name)),
{
    if is_relative(name) {
        lemma_directory(base);
        let dir = directory(base);
        let parts = lemma_resolve_shape(dir, name);
        let full = normalized(base, name);
        assert forall|i: int| 0 <= i < full.len() implies full[i] != 0 by {
            if parts.0 == 0 {
                assert(full =~= name.skip(parts.1));
            } else if i < parts.0 {
                assert(full[i] == dir[i]);
                assert(dir[i] == base[i]);
            } else if i > parts.0 {
                assert(full[i] == name[parts.1 + (i - parts.0 - 1)]);
            }
        }
    }
}

/// `./` in front of a name takes the name from the directory of the importing module.
pub proof fn law_sibling(base: Seq<u8>, rest: Seq<u8>)
    ensures
        normalized(base, seq![DOT, SLASH] + rest) == resolve(directory(base), rest),
        !is_relative(rest) ==> normalized(base, seq![DOT, SLASH] + rest) == join(
            directory(base),
            rest,
        ),
{
    reveal_with_fuel(resolve, 2);
    assert((seq![DOT, SLASH] + rest).skip(2) =~= rest);
}

/// `../` in front of a name takes the name from one directory above, where there is one to leave.
pub proof fn law_parent(base: Seq<u8>, rest: Seq<u8>)
    requires
        can_ascend(directory(base)),
    ensures
        normalized(base, seq![DOT, DOT, SLASH] + rest) == resolve(
            directory(directory(base)),
            rest,
        ),
        !is_relative(rest) ==> normalized(base, seq![DOT, DOT, SLASH] + rest) == join(
            directory(directory(base)),
            rest,
        ),
{
    let name = seq![DOT, DOT, SLASH] + rest;
    reveal_with_fuel(resolve, 2);
    assert(name.skip(3) =~= rest);
    assert(!begins_here(name) && begins_above(name));
}

/// `../` that has no directory to leave stays in the full name.
pub proof fn law_no_parent(base: Seq<u8>, rest: Seq<u8>)
    requires
        !can_ascend(directory(base)),
    ensures
        normalized(base, seq![DOT, DOT, SLASH] + rest) == join(
            directory(base),
            seq![DOT, DOT, SLASH] + rest,
        ),
{
    let name = seq![DOT, DOT, SLASH] + rest;
    assert(!begins_here(name));
}

/// A full name is made of a directory at or above the importing module's, and of what is left of
/// the name: nothing else gets into it.
pub proof fn law_made_of_both(base: Seq<u8>, name: Seq<u8>)
    requires
        is_relative(name),
    ensures
        exists|d: int, r: int|
            0 <= d <= directory(base).len() && 0 <= r <= name.len() && normalized(base, name)
                == #[trigger] join(directory(base).take(d), name.skip(r)),
{
    let parts = lemma_resolve_shape(directory(base), name);
    assert(normalized(base, name) == join(directory(base).take(parts.0), name.skip(parts.1)));
}

} // verus!
