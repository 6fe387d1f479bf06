//! File names on the wire and on disk: the base name of a path, and the
//! place of a received file under the destination directory.
//!
//! Paths are byte strings whose segments are parted by `/`. The base name is
//! the final segment once empty segments and `.` are passed over; a path
//! that ends in `..`, or that has no segment left, has none.
use vstd::prelude::*;
use vstd::slice::{slice_subrange, slice_to_vec};
use vstd::utf8::{
    is_char_boundary_iff_not_is_continuation_byte, is_char_boundary_start_end_of_seq,
    pop_first_scalar, valid_first_scalar, valid_utf8, valid_utf8_concat, valid_utf8_split,
};

verus! {

/// The byte that parts the segments of a path: `/`.
pub const SEPARATOR: u8 = 47;

/// The byte `.`, of which the segments `.` and `..` are made.
pub const DOT: u8 = 46;

/// Where the last segment of `path` begins: behind its last separator, or at
/// 0 if it has none.
pub open spec fn last_segment_start(path: Seq<u8>) -> int
    decreases path.len(),
{
    if path.len() == 0 || path.last() == SEPARATOR {
        path.len() as int
    } else {
        last_segment_start(path.drop_last())
    }
}

/// The segment `.`.
pub open spec fn current_dir() -> Seq<u8> {
    seq![DOT]
}

/// The segment `..`.
pub open spec fn parent_dir() -> Seq<u8> {
    seq![DOT, DOT]
}

/// A name that can stand for one file in a directory: not empty, free of
/// separators, and neither `.` nor `..`.
pub open spec fn is_plain_name(name: Seq<u8>) -> bool {
    &&& name.len() > 0
    &&& !name.contains(SEPARATOR)
    &&& name != current_dir()
    &&& name != parent_dir()
}

/// The base name of `path`: its last segment that is neither empty nor `.`,
/// unless that segment is `..` or there is none.
pub open spec fn spec_base_name(path: Seq<u8>) -> Option<Seq<u8>>
    decreases path.len(),
{
    let start = last_segment_start(path);
    let last = path.subrange(start, path.len() as int);
    if last.len() == 0 || last == current_dir() {
        if 0 < start <= path.len() {
            spec_base_name(path.subrange(0, start - 1))
        } else {
            None
        }
    } else if last == parent_dir() {
        None
    } else {
        Some(last)
    }
}

/// `name` placed in the directory `root`: the two joined, with one separator
/// put between them unless `root` is empty or already ends in one.
pub open spec fn spec_join(root: Seq<u8>, name: Seq<u8>) -> Seq<u8> {
    if root.len() == 0 || root.last() == SEPARATOR {
        root + name
    } else {
        root + seq![SEPARATOR] + name
    }
}

/// Where a file received under the name `payload` is written: the base name
/// of the payload, placed in `root`. A payload without a base name names no
/// file.
pub open spec fn spec_destination(root: Seq<u8>, payload: Seq<u8>) -> Option<Seq<u8>> {
    match spec_base_name(payload) {
        Some(name) => Some(spec_join(root, name)),
        None => None,
    }
}

/// The last segment begins inside the path, behind a separator or at the
/// path's start, and holds no separator itself.
pub proof fn lemma_last_segment_start(path: Seq<u8>)
    ensures
        0 <= last_segment_start(path) <= path.len(),
        last_segment_start(path) > 0 ==> path[last_segment_start(path) - 1] == SEPARATOR,
        forall|i: int| last_segment_start(path) <= i < path.len() ==> path[i] != SEPARATOR,
    decreases path.len(),
{
    if path.len() == 0 || path.last() == SEPARATOR {
    } else {
        let front = path.drop_last();
        lemma_last_segment_start(front);
        assert forall|i: int| last_segment_start(path) <= i < path.len() implies path[i]
            != SEPARATOR by {
            if i < front.len() {
                assert(front[i] == path[i]);
            }
        }
    }
}

/// A position behind a separator (or at the start) from which no separator
/// follows is where the last segment begins.
pub proof fn lemma_last_segment_found(path: Seq<u8>, start: int)
    requires
        0 <= start <= path.len(),
        start > 0 ==> path[start - 1] == SEPARATOR,
        forall|i: int| start <= i < path.len() ==> path[i] != SEPARATOR,
    ensures
        last_segment_start(path) == start,
    decreases path.len(),
{
    if path.len() == 0 || path.last() == SEPARATOR {
    } else {
        lemma_last_segment_found(path.drop_last(), start);
    }
}

/// `name` stands in `path` at `start` as a whole segment: between separators
/// or the path's ends.
pub open spec fn is_segment_at(path: Seq<u8>, start: int, name: Seq<u8>) -> bool {
    &&& 0 <= start
    &&& start + name.len() <= path.len()
    &&& path.subrange(start, start + name.len()) == name
    &&& (start == 0 || path[start - 1] == SEPARATOR)
    &&& (start + name.len() == path.len() || path[start + name.len()] == SEPARATOR)
}

/// A base name is a plain name, and it is a whole segment of the path it was
/// taken from: it stands there between separators or the path's ends.
pub proof fn lemma_base_name_is_segment(path: Seq<u8>)
    ensures
        spec_base_name(path) matches Some(name) ==> {
            &&& is_plain_name(name)
            &&& exists|start: int| is_segment_at(path, start, name)
        },
    decreases path.len(),
{
    lemma_last_segment_start(path);
    let start = last_segment_start(path);
    let last = path.subrange(start, path.len() as int);
    if last.len() == 0 || last == current_dir() {
        if 0 < start {
            let front = path.subrange(0, start - 1);
            lemma_base_name_is_segment(front);
            if let Some(name) = spec_base_name(front) {
                let at = choose|at: int| is_segment_at(front, at, name);
                assert(path.subrange(at, at + name.len()) =~= front.subrange(
                    at,
                    at + name.len(),
                ));
                assert(is_segment_at(path, at, name));
            }
        }
    } else if last == parent_dir() {
    } else {
        assert(path.subrange(start, start + last.len()) =~= last);
        assert(is_segment_at(path, start, last));
        assert(!last.contains(SEPARATOR)) by {
            if last.contains(SEPARATOR) {
                let i = choose|i: int| 0 <= i < last.len() && last[i] == SEPARATOR;
                assert(path[start + i] == SEPARATOR);
            }
        }
    }
}

/// The base name of a plain name is the name itself.
pub proof fn lemma_base_name_of_plain(name: Seq<u8>)
    requires
        is_plain_name(name),
    ensures
        spec_base_name(name) == Some(name),
{
    assert forall|i: int| 0 <= i < name.len() implies name[i] != SEPARATOR by {
        if name[i] == SEPARATOR {
            assert(name.contains(SEPARATOR));
        }
    }
    lemma_last_segment_found(name, 0);
    assert(name.subrange(0, name.len() as int) =~= name);
}

/// Directory components are stripped: whatever stands before the last
/// separator, the base name of a path that ends in a plain name is that
/// name.
pub proof fn lemma_base_name_strips_directories(dir: Seq<u8>, name: Seq<u8>)
    requires
        is_plain_name(name),
    ensures
        spec_base_name(dir + seq![SEPARATOR] + name) == Some(name),
{
    let path = dir + seq![SEPARATOR] + name;
    let start: int = dir.len() as int + 1;
    assert forall|i: int| start <= i < path.len() implies path[i] != SEPARATOR by {
        if path[i] == SEPARATOR {
            assert(name[i - start] == SEPARATOR);
            assert(name.contains(SEPARATOR));
        }
    }
    assert(path[start - 1] == SEPARATOR);
    lemma_last_segment_found(path, start);
    assert(path.subrange(start, path.len() as int) =~= name);
}

/// Path safety: whatever the payload holds, a destination lies directly in
/// the root. It is the root, at most one separator, and one plain name (the
/// payload's base name), so no segment of the payload can lead out of the
/// root or below it.
pub proof fn lemma_destination_inside_root(root: Seq<u8>, payload: Seq<u8>)
    ensures
        spec_destination(root, payload) matches Some(destination) ==> {
            &&& spec_base_name(payload) matches Some(name)
            &&& is_plain_name(name)
            &&& destination == spec_join(root, name)
            &&& destination.len() >= root.len() + name.len()
            &&& destination.subrange(0, root.len() as int) == root
            &&& destination.subrange(destination.len() - name.len(), destination.len() as int)
                == name
            &&& (destination.len() == root.len() + name.len() || (destination.len()
                == root.len() + name.len() + 1 && destination[root.len() as int] == SEPARATOR))
            &&& spec_base_name(destination) == Some(name)
        },
{
    lemma_base_name_is_segment(payload);
    if let Some(name) = spec_base_name(payload) {
        let destination = spec_join(root, name);
        assert(destination.subrange(0, root.len() as int) =~= root);
        assert(destination.subrange(destination.len() - name.len(), destination.len() as int)
            =~= name);
        if root.len() == 0 {
            assert(destination =~= name);
            lemma_base_name_of_plain(name);
        } else if root.last() == SEPARATOR {
            assert(destination =~= root.drop_last() + seq![SEPARATOR] + name);
            lemma_base_name_strips_directories(root.drop_last(), name);
        } else {
            lemma_base_name_strips_directories(root, name);
        }
    }
}

/// A separator alone is UTF-8.
proof fn lemma_separator_is_utf8()
    ensures
        valid_utf8(seq![SEPARATOR]),
{
    let bytes = seq![SEPARATOR];
    assert(SEPARATOR & 0x7F == 47) by (bit_vector);
    assert(valid_first_scalar(bytes));
    assert(pop_first_scalar(bytes) =~= Seq::<u8>::empty());
    reveal_with_fuel(valid_utf8, 2);
}

/// A whole segment of a path that is UTF-8 is UTF-8: a separator is a
/// character of its own, so a cut beside one never parts a character.
pub proof fn lemma_segment_is_utf8(path: Seq<u8>, start: int, name: Seq<u8>)
    requires
        valid_utf8(path),
        is_segment_at(path, start, name),
    ensures
        valid_utf8(name),
{
    let end = start + name.len();
    if end == path.len() {
        is_char_boundary_start_end_of_seq(path);
    } else {
        is_char_boundary_iff_not_is_continuation_byte(path, end);
    }
    valid_utf8_split(path, end);
    let head = path.subrange(0, end);
    if start == 0 {
        assert(head =~= name);
    } else {
        is_char_boundary_iff_not_is_continuation_byte(head, start - 1);
        valid_utf8_split(head, start - 1);
        let tail = head.subrange(start - 1, end);
        assert(tail[0] == SEPARATOR);
        assert(pop_first_scalar(tail) =~= name);
    }
}

/// The base name of a path that is UTF-8 is UTF-8.
pub proof fn lemma_base_name_is_utf8(path: Seq<u8>)
    requires
        valid_utf8(path),
    ensures
        spec_base_name(path) matches Some(name) ==> valid_utf8(name),
{
    lemma_base_name_is_segment(path);
    if let Some(name) = spec_base_name(path) {
        let start = choose|start: int| is_segment_at(path, start, name);
        lemma_segment_is_utf8(path, start, name);
    }
}

/// A destination is UTF-8 if the directory and the name received are: it
/// can be handed to the filesystem as text.
pub proof fn lemma_destination_is_utf8(root: Seq<u8>, payload: Seq<u8>)
    requires
        valid_utf8(root),
        valid_utf8(payload),
    ensures
        spec_destination(root, payload) matches Some(destination) ==> valid_utf8(destination),
{
    lemma_base_name_is_utf8(payload);
    if let Some(name) = spec_base_name(payload) {
        lemma_separator_is_utf8();
        valid_utf8_concat(root, seq![SEPARATOR]);
        valid_utf8_concat(root + seq![SEPARATOR], name);
        valid_utf8_concat(root, name);
    }
}

/// Tells whether `bytes` are UTF-8, by a call of `core::str::from_utf8`.
///
/// Trusted, not proved: the standard library documents that `from_utf8`
/// returns an error exactly when the slice is not valid UTF-8, and
/// `valid_utf8` is vstd's definition of valid UTF-8.
#[verifier::external_body]
pub(crate) fn is_utf8(bytes: &[u8]) -> (valid: bool)
    ensures
        valid == valid_utf8(bytes@),
{
    core::str::from_utf8(bytes).is_ok()
}

/// The base name of a path: its final component, with every directory
/// component stripped. `None` for a path that has no final component (an
/// empty path, `/`, `.`) or that ends in `..`.
pub fn base_name(path: &[u8]) -> (name: Option<Vec<u8>>)
    ensures
        match name {
            Some(bytes) => spec_base_name(path@) == Some(bytes@),
            None => spec_base_name(path@) is None,
        },
{
    let mut end: usize = path.len();
    assert(path@.subrange(0, end as int) =~= path@);
    loop
        invariant
            end <= path@.len(),
            spec_base_name(path@) == spec_base_name(path@.subrange(0, end as int)),
        decreases end,
    {
        let ghost front = path@.subrange(0, end as int);
        let mut start: usize = end;
        while start > 0 && path[start - 1] != SEPARATOR
            invariant
                start <= end <= path@.len(),
                forall|i: int| start <= i < end ==> path@[i] != SEPARATOR,
            decreases start,
        {
            start = start - 1;
        }
        proof {
            lemma_last_segment_found(front, start as int);
            assert(front.subrange(start as int, end as int) =~= path@.subrange(
                start as int,
                end as int,
            ));
        }
        let ghost last = path@.subrange(start as int, end as int);
        let length: usize = end - start;
        if length == 0 || (length == 1 && path[start] == DOT) {
            proof {
                if length == 1 {
                    assert(last =~= current_dir());
                }
            }
            if start == 0 {
                return None;
            }
            proof {
                assert(front.subrange(0, start - 1) =~= path@.subrange(0, start - 1));
            }
            end = start - 1;
        } else if length == 2 && path[start] == DOT && path[start + 1] == DOT {
            proof {
                assert(last =~= parent_dir());
                assert(last != current_dir());
            }
            return None;
        } else {
            proof {
                if last == current_dir() {
                    assert(last.len() == 1 && last[0] == DOT);
                }
                if last == parent_dir() {
                    assert(last.len() == 2 && last[0] == DOT && last[1] == DOT);
                }
            }
            let segment = slice_subrange(path, start, end);
            return Some(slice_to_vec(segment));
        }
    }
}

/// Places `name` in the directory `root`, with one separator between the two
/// unless `root` is empty or ends in one.
pub fn join(root: &[u8], name: &[u8]) -> (joined: Vec<u8>)
    ensures
        joined@ == spec_join(root@, name@),
{
    let mut joined: Vec<u8> = slice_to_vec(root);
    if root.len() > 0 && root[root.len() - 1] != SEPARATOR {
        joined.push(SEPARATOR);
    }
    let mut i: usize = 0;
    while i < name.len()
        invariant
            i <= name@.len(),
            joined@ == if root@.len() == 0 || root@.last() == SEPARATOR {
                root@ + name@.subrange(0, i as int)
            } else {
                root@ + seq![SEPARATOR] + name@.subrange(0, i as int)
            },
        decreases name@.len() - i,
    {
        joined.push(name[i]);
        i = i + 1;
        assert(name@.subrange(0, i as int) =~= name@.subrange(0, i - 1).push(name@[i - 1]));
    }
    assert(name@.subrange(0, i as int) =~= name@);
    joined
}

/// Where a file received under the name `payload` is written: directly in
/// `root`, under the payload's base name. `None` if the payload has no base
/// name.
pub fn destination(root: &[u8], payload: &[u8]) -> (place: Option<Vec<u8>>)
    ensures
        match place {
            Some(bytes) => spec_destination(root@, payload@) == Some(bytes@),
            None => spec_destination(root@, payload@) is None,
        },
{
    match base_name(payload) {
        Some(name) => Some(join(root, name.as_slice())),
        None => None,
    }
}

} // verus!
