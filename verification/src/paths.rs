//! Path remapping and source-path validation.
//!
//! Paths are handled as byte strings (`Vec<u8>`), the portable form an outer
//! I/O layer can produce from its native path type.  A source-rooted path is
//! remapped to the target root by replacing an exact path prefix — not an
//! arbitrary substring occurrence, so a root that happens to recur deeper in
//! the path never corrupts the result.  Encrypted files carry a fixed marker
//! extension which encryption appends and decryption strips.

use vstd::prelude::*;
use vstd::slice::{slice_subrange, slice_to_vec};
use crate::config::Operation;

verus! {

/// The path separator byte, `/`.
pub open spec fn slash() -> u8 {
    47
}

/// The marker extension for encrypted files, `.enom`, as bytes.
pub open spec fn marker_ext() -> Seq<u8> {
    seq![46u8, 101u8, 110u8, 111u8, 109u8]
}

/// True when `p` is a prefix of `s`.
pub open spec fn starts_with_spec(s: Seq<u8>, p: Seq<u8>) -> bool {
    p.len() <= s.len() && s.subrange(0, p.len() as int) == p
}

/// True when `x` is a suffix of `s`.
pub open spec fn ends_with_spec(s: Seq<u8>, x: Seq<u8>) -> bool {
    x.len() <= s.len() && s.subrange(s.len() - x.len(), s.len() as int) == x
}

/// `path` with a leading occurrence of `from` replaced by `to`; the path is
/// unchanged when it does not start with `from`.
pub open spec fn replace_prefix_spec(path: Seq<u8>, from: Seq<u8>, to: Seq<u8>) -> Seq<u8> {
    if starts_with_spec(path, from) {
        to + path.skip(from.len() as int)
    } else {
        path
    }
}

/// `path` with the marker extension appended.
pub open spec fn with_marker_spec(path: Seq<u8>) -> Seq<u8> {
    path + marker_ext()
}

/// `path` with a trailing marker extension stripped, if one is present.
pub open spec fn without_marker_spec(path: Seq<u8>) -> Seq<u8> {
    if ends_with_spec(path, marker_ext()) {
        path.take(path.len() - marker_ext().len())
    } else {
        path
    }
}

/// Where a source file's output is written: the source root replaced by the
/// target root, then the marker extension appended (encrypt) or stripped
/// (decrypt).
pub open spec fn mapped_path_spec(
    path: Seq<u8>,
    source_root: Seq<u8>,
    target_root: Seq<u8>,
    operation: Operation,
) -> Seq<u8> {
    let moved = replace_prefix_spec(path, source_root, target_root);
    match operation {
        Operation::Encrypt => with_marker_spec(moved),
        Operation::Decrypt => without_marker_spec(moved),
    }
}

/// Operating-system-critical directories that must never be used as a
/// source root, byte for byte: `/` (and with it every absolute Unix path),
/// the standard system directories, and Windows drive roots `C:` and `c:`.
pub open spec fn deny_list() -> Seq<Seq<u8>> {
    seq![
        seq![47u8],
        seq![47u8, 114u8, 111u8, 111u8, 116u8],
        seq![47u8, 104u8, 111u8, 109u8, 101u8],
        seq![47u8, 98u8, 111u8, 111u8, 116u8],
        seq![47u8, 117u8, 115u8, 114u8],
        seq![47u8, 108u8, 105u8, 98u8],
        seq![47u8, 108u8, 105u8, 98u8, 54u8, 52u8],
        seq![47u8, 108u8, 105u8, 98u8, 51u8, 50u8],
        seq![47u8, 108u8, 105u8, 98u8, 120u8, 51u8, 50u8],
        seq![47u8, 109u8, 110u8, 116u8],
        seq![47u8, 100u8, 101u8, 118u8],
        seq![47u8, 115u8, 121u8, 115u8],
        seq![47u8, 114u8, 117u8, 110u8],
        seq![47u8, 98u8, 105u8, 110u8],
        seq![47u8, 115u8, 98u8, 105u8, 110u8],
        seq![47u8, 112u8, 114u8, 111u8, 99u8],
        seq![47u8, 109u8, 101u8, 100u8, 105u8, 97u8],
        seq![47u8, 118u8, 97u8, 114u8],
        seq![47u8, 101u8, 116u8, 99u8],
        seq![47u8, 115u8, 114u8, 118u8],
        seq![47u8, 111u8, 112u8, 116u8],
        seq![67u8, 58u8],
        seq![99u8, 58u8],
    ]
}

/// True when the deny-list entry `e` equals `path` or is a whole-component
/// path prefix of it: `path` continues with a separator right after `e`, or
/// `e` itself ends in one.
pub open spec fn entry_matches(path: Seq<u8>, e: Seq<u8>) -> bool {
    path == e || (starts_with_spec(path, e) && ((e.len() > 0 && e[e.len() - 1] == slash())
        || (e.len() < path.len() && path[e.len() as int] == slash())))
}

/// True when some deny-list entry equals or is a path prefix of `path`.
pub open spec fn illegal_source_spec(path: Seq<u8>) -> bool {
    exists|i: int| 0 <= i < deny_list().len() && entry_matches(path, #[trigger] deny_list()[i])
}

/// True when `s` starts with `p`.
pub fn starts_with(s: &Vec<u8>, p: &Vec<u8>) -> (r: bool)
    ensures
        r == starts_with_spec(s@, p@),
{
    if p.len() > s.len() {
        return false;
    }
    let mut i: usize = 0;
    while i < p.len()
        invariant
            i <= p.len() <= s.len(),
            forall|j: int| 0 <= j < i ==> s@[j] == p@[j],
        decreases p.len() - i,
    {
        if s[i] != p[i] {
            proof {
                assert(s@.subrange(0, p@.len() as int)[i as int] == s@[i as int]);
            }
            return false;
        }
        i += 1;
    }
    proof {
        assert(s@.subrange(0, p@.len() as int) =~= p@);
    }
    true
}

/// True when `s` ends with `x`.
pub fn ends_with(s: &Vec<u8>, x: &Vec<u8>) -> (r: bool)
    ensures
        r == ends_with_spec(s@, x@),
{
    if x.len() > s.len() {
        return false;
    }
    let off: usize = s.len() - x.len();
    let mut i: usize = 0;
    while i < x.len()
        invariant
            i <= x.len() <= s.len(),
            off == s@.len() - x@.len(),
            forall|j: int| 0 <= j < i ==> s@[off + j] == x@[j],
        decreases x.len() - i,
    {
        if s[off + i] != x[i] {
            proof {
                assert(s@.subrange(s@.len() - x@.len(), s@.len() as int)[i as int]
                    == s@[off + i]);
            }
            return false;
        }
        i += 1;
    }
    proof {
        assert(s@.subrange(s@.len() - x@.len(), s@.len() as int) =~= x@);
    }
    true
}

/// A copy of `v[a..b]`.
pub fn bytes_range(v: &Vec<u8>, a: usize, b: usize) -> (r: Vec<u8>)
    requires
        a <= b <= v@.len(),
    ensures
        r@ == v@.subrange(a as int, b as int),
{
    slice_to_vec(slice_subrange(v.as_slice(), a, b))
}

/// `path` with a leading occurrence of `from` replaced by `to`.
pub fn replace_prefix(path: &Vec<u8>, from: &Vec<u8>, to: &Vec<u8>) -> (r: Vec<u8>)
    ensures
        r@ == replace_prefix_spec(path@, from@, to@),
{
    if starts_with(path, from) {
        let mut out = bytes_range(to, 0, to.len());
        let rest = bytes_range(path, from.len(), path.len());
        out.extend_from_slice(rest.as_slice());
        proof {
            assert(out@ =~= to@ + path@.skip(from@.len() as int));
        }
        out
    } else {
        bytes_range(path, 0, path.len())
    }
}

/// The marker extension as a byte vector.
pub fn marker_ext_vec() -> (r: Vec<u8>)
    ensures
        r@ == marker_ext(),
{
    let mut v: Vec<u8> = Vec::new();
    v.push(46);
    v.push(101);
    v.push(110);
    v.push(111);
    v.push(109);
    proof {
        assert(v@ =~= marker_ext());
    }
    v
}

/// `path` with the marker extension appended.
pub fn with_marker(path: &Vec<u8>) -> (r: Vec<u8>)
    ensures
        r@ == with_marker_spec(path@),
{
    let mut out = bytes_range(path, 0, path.len());
    let ext = marker_ext_vec();
    out.extend_from_slice(ext.as_slice());
    proof {
        assert(out@ =~= with_marker_spec(path@));
    }
    out
}

/// `path` with a trailing marker extension stripped, if one is present.
pub fn without_marker(path: &Vec<u8>) -> (r: Vec<u8>)
    ensures
        r@ == without_marker_spec(path@),
{
    let ext = marker_ext_vec();
    if ends_with(path, &ext) {
        bytes_range(path, 0, path.len() - ext.len())
    } else {
        bytes_range(path, 0, path.len())
    }
}

/// Maps a source-rooted path to its output location: the source root is
/// replaced by the target root, and the marker extension is appended when
/// encrypting or stripped when decrypting.
pub fn map_path(
    path: &Vec<u8>,
    source_root: &Vec<u8>,
    target_root: &Vec<u8>,
    operation: Operation,
) -> (r: Vec<u8>)
    ensures
        r@ == mapped_path_spec(path@, source_root@, target_root@, operation),
{
    let moved = replace_prefix(path, source_root, target_root);
    match operation {
        Operation::Encrypt => with_marker(&moved),
        Operation::Decrypt => without_marker(&moved),
    }
}

/// True when `path` may not serve as a source root.  Since the deny list
/// holds `/` itself, every absolute Unix path is illegal, as is anything
/// at or under a `C:` or `c:` drive root.
pub fn is_illegal_source(path: &Vec<u8>) -> (r: bool)
    ensures
        r == illegal_source_spec(path@),
{
    if path.len() > 0 && path[0] == 47 {
        proof {
            assert(path@.subrange(0, 1) =~= seq![47u8]);
            assert(entry_matches(path@, deny_list()[0]));
        }
        return true;
    }
    if path.len() >= 2 && (path[0] == 67 || path[0] == 99) && path[1] == 58
        && (path.len() == 2 || path[2] == 47) {
        proof {
            let i: int = if path@[0] == 67 { 21 } else { 22 };
            let e = deny_list()[i];
            if path@.len() == 2 {
                assert(path@ =~= e);
            } else {
                assert(path@.subrange(0, 2) =~= e);
            }
            assert(entry_matches(path@, e));
        }
        return true;
    }
    proof {
        assert forall|i: int| 0 <= i < deny_list().len() implies !entry_matches(
            path@,
            #[trigger] deny_list()[i],
        ) by {
            let e = deny_list()[i];
            if i < 21 {
                assert(e[0] == 47);
                if entry_matches(path@, e) {
                    assert(path@.len() >= e.len() >= 1);
                    if path@ == e {
                        assert(path@[0] == 47);
                    } else {
                        assert(path@.subrange(0, e.len() as int)[0] == path@[0]);
                    }
                }
            } else {
                assert(e[1] == 58);
                if entry_matches(path@, e) {
                    if path@ == e {
                        assert(false);
                    } else {
                        assert(path@.subrange(0, 2)[0] == path@[0]);
                        assert(path@.subrange(0, 2)[1] == path@[1]);
                        assert(e.len() < path@.len() && path@[2] == 47);
                        assert(false);
                    }
                }
            }
        }
    }
    false
}

/// Why a source root was rejected before any file was touched.
#[derive(Clone, Copy, Debug, PartialEq, Eq, Structural)]
pub enum ValidationError {
    /// The source root is, or lies under, an operating-system-critical
    /// directory.
    IllegalSource,
    /// An encrypt run found a file that already carries the marker
    /// extension; the index points into the offered name list.
    AlreadyEncrypted { index: usize },
}

/// The first name in `names` that carries the marker extension, if any.
pub fn find_marked_name(names: &Vec<Vec<u8>>) -> (r: Option<usize>)
    ensures
        match r {
            Some(i) => i < names@.len() && ends_with_spec(names@[i as int]@, marker_ext())
                && forall|j: int| 0 <= j < i ==> !ends_with_spec(names@[j]@, marker_ext()),
            None => forall|j: int|
                0 <= j < names@.len() ==> !ends_with_spec(names@[j]@, marker_ext()),
        },
{
    let ext = marker_ext_vec();
    let mut i: usize = 0;
    while i < names.len()
        invariant
            i <= names@.len(),
            ext@ == marker_ext(),
            forall|j: int| 0 <= j < i ==> !ends_with_spec(names@[j]@, marker_ext()),
        decreases names@.len() - i,
    {
        if ends_with(&names[i], &ext) {
            return Some(i);
        }
        i += 1;
    }
    None
}

/// Checks a run before any file is touched: the source root must not be an
/// operating-system-critical location, and an encrypt run must not see any
/// file already carrying the marker extension (encrypting twice would only
/// bury the data deeper).  `file_names` are the file paths found under the
/// source root.
pub fn pre_validate_source(
    source_dir: &Vec<u8>,
    operation: Operation,
    file_names: &Vec<Vec<u8>>,
) -> (r: Result<(), ValidationError>)
    ensures
        r == Err::<(), ValidationError>(ValidationError::IllegalSource) <==> illegal_source_spec(
            source_dir@,
        ),
        match r {
            Ok(()) => !illegal_source_spec(source_dir@) && (operation == Operation::Encrypt
                ==> forall|j: int|
                0 <= j < file_names@.len() ==> !ends_with_spec(file_names@[j]@, marker_ext())),
            Err(ValidationError::IllegalSource) => true,
            Err(ValidationError::AlreadyEncrypted { index }) => operation == Operation::Encrypt
                && index < file_names@.len() && ends_with_spec(
                file_names@[index as int]@,
                marker_ext(),
            ),
        },
{
    if is_illegal_source(source_dir) {
        return Err(ValidationError::IllegalSource);
    }
    match operation {
        Operation::Encrypt => {
            match find_marked_name(file_names) {
                Some(index) => Err(ValidationError::AlreadyEncrypted { index }),
                None => Ok(()),
            }
        },
        Operation::Decrypt => Ok(()),
    }
}

/// The decimal digits of `n`, most significant first, as ASCII bytes.
pub open spec fn dec_digits(n: nat) -> Seq<u8>
    decreases n,
{
    if n < 10 {
        seq![(48 + n) as u8]
    } else {
        dec_digits(n / 10) + seq![(48 + n % 10) as u8]
    }
}

/// Appends the decimal digits of `n` to `v`.
pub fn push_dec_digits(v: &mut Vec<u8>, n: u64)
    ensures
        final(v)@ == old(v)@ + dec_digits(n as nat),
    decreases n,
{
    if n < 10 {
        v.push(48 + n as u8);
        proof {
            assert(v@ =~= old(v)@ + dec_digits(n as nat));
        }
    } else {
        push_dec_digits(v, n / 10);
        v.push(48 + (n % 10) as u8);
        proof {
            assert(v@ =~= old(v)@ + dec_digits(n as nat));
        }
    }
}

/// The opaque base name given to file number `id` when names are
/// anonymized: `anon-` followed by the decimal form of `id`.
pub open spec fn anon_base(id: nat) -> Seq<u8> {
    seq![97u8, 110u8, 111u8, 110u8, 45u8] + dec_digits(id)
}

/// The index of the last separator in `p`, or `-1` when `p` has none.
pub open spec fn last_slash(p: Seq<u8>) -> int
    decreases p.len(),
{
    if p.len() == 0 {
        -1
    } else if p[p.len() - 1] == slash() {
        p.len() - 1
    } else {
        last_slash(p.drop_last())
    }
}

/// The leading directory part of `p`: everything up to and including the
/// last separator, empty when `p` has none.
pub open spec fn dir_part(p: Seq<u8>) -> Seq<u8> {
    p.take(last_slash(p) + 1)
}

/// `p` with its base name replaced by the opaque name for `id`.
pub open spec fn anonymized_spec(p: Seq<u8>, id: nat) -> Seq<u8> {
    dir_part(p) + anon_base(id)
}

/// The position right after the last separator of `path` (0 when there is
/// none): where the base name starts.
pub fn base_name_start(path: &Vec<u8>) -> (b: usize)
    ensures
        b == last_slash(path@) + 1,
        b <= path@.len(),
{
    let mut i: usize = path.len();
    proof {
        assert(path@.take(path@.len() as int) =~= path@);
    }
    while i > 0
        invariant
            i <= path@.len(),
            last_slash(path@) == last_slash(path@.take(i as int)),
        decreases i,
    {
        let t = Ghost(path@.take(i as int));
        if path[i - 1] == 47 {
            proof {
                assert(t@[t@.len() - 1] == path@[i - 1]);
            }
            return i;
        }
        proof {
            assert(t@[t@.len() - 1] == path@[i - 1]);
            assert(t@.drop_last() =~= path@.take(i - 1));
        }
        i -= 1;
    }
    proof {
        assert(path@.take(0) =~= Seq::<u8>::empty());
    }
    0
}

/// `path` with its base name replaced by the opaque name for `id`.
pub fn anonymize_name(path: &Vec<u8>, id: u64) -> (r: Vec<u8>)
    ensures
        r@ == anonymized_spec(path@, id as nat),
{
    let b = base_name_start(path);
    let mut out = bytes_range(path, 0, b);
    out.push(97);
    out.push(110);
    out.push(111);
    out.push(110);
    out.push(45);
    proof {
        assert(out@ =~= dir_part(path@) + seq![97u8, 110u8, 111u8, 110u8, 45u8]);
    }
    push_dec_digits(&mut out, id);
    proof {
        assert(out@ =~= anonymized_spec(path@, id as nat));
    }
    out
}

/// Where a file's output is written, anonymized names included: the path is
/// remapped as `mapped_path_spec` says, but when encrypting under
/// anonymization the base name is first replaced by the opaque name for
/// `anon_id`.  Decryption cannot restore an anonymized name, so it ignores
/// `anon_id`.
pub open spec fn dest_path_spec(
    path: Seq<u8>,
    source_root: Seq<u8>,
    target_root: Seq<u8>,
    operation: Operation,
    anon_id: Option<u64>,
) -> Seq<u8> {
    match (operation, anon_id) {
        (Operation::Encrypt, Option::Some(id)) => with_marker_spec(
            anonymized_spec(replace_prefix_spec(path, source_root, target_root), id as nat),
        ),
        _ => mapped_path_spec(path, source_root, target_root, operation),
    }
}

/// Maps a source file path to its output path, honouring anonymization.
pub fn dest_path(
    path: &Vec<u8>,
    source_root: &Vec<u8>,
    target_root: &Vec<u8>,
    operation: Operation,
    anon_id: Option<u64>,
) -> (r: Vec<u8>)
    ensures
        r@ == dest_path_spec(path@, source_root@, target_root@, operation, anon_id),
{
    match (operation, anon_id) {
        (Operation::Encrypt, Option::Some(id)) => {
            let moved = replace_prefix(path, source_root, target_root);
            let anon = anonymize_name(&moved, id);
            with_marker(&anon)
        },
        _ => map_path(path, source_root, target_root, operation),
    }
}

/// A path mapped for encryption maps back: remapping the encrypted output
/// from the target root to a restore root and stripping the marker yields
/// the same path as remapping the source path directly.  With the remaining
/// engine contracts this says an encrypt-then-decrypt round trip reproduces
/// the original tree layout under the restore root.
pub proof fn lemma_map_path_round_trip(
    path: Seq<u8>,
    source_root: Seq<u8>,
    target_root: Seq<u8>,
    restore_root: Seq<u8>,
)
    requires
        starts_with_spec(path, source_root),
    ensures
        mapped_path_spec(
            mapped_path_spec(path, source_root, target_root, Operation::Encrypt),
            target_root,
            restore_root,
            Operation::Decrypt,
        ) == replace_prefix_spec(path, source_root, restore_root),
{
    let rel = path.skip(source_root.len() as int);
    let enc = target_root + rel + marker_ext();
    assert(mapped_path_spec(path, source_root, target_root, Operation::Encrypt) =~= enc);
    assert(enc.subrange(0, target_root.len() as int) =~= target_root);
    let moved = replace_prefix_spec(enc, target_root, restore_root);
    assert(moved =~= restore_root + rel + marker_ext());
    assert(moved.subrange(moved.len() - marker_ext().len(), moved.len() as int)
        =~= marker_ext());
    assert(without_marker_spec(moved) =~= restore_root + rel);
}

/// Over a whole tree: every source path that lies under the source root,
/// encrypted to the target root and decrypted back to a restore root,
/// lands exactly where remapping the source path to the restore root puts
/// it.  The set of relative paths under the restore root after an
/// encrypt-then-decrypt round trip therefore equals the original set.
pub proof fn lemma_tree_round_trip(
    paths: Seq<Seq<u8>>,
    source_root: Seq<u8>,
    target_root: Seq<u8>,
    restore_root: Seq<u8>,
)
    requires
        forall|i: int| 0 <= i < paths.len() ==> starts_with_spec(#[trigger] paths[i], source_root),
    ensures
        paths.map_values(
            |p: Seq<u8>|
                mapped_path_spec(
                    mapped_path_spec(p, source_root, target_root, Operation::Encrypt),
                    target_root,
                    restore_root,
                    Operation::Decrypt,
                ),
        ) =~= paths.map_values(|p: Seq<u8>| replace_prefix_spec(p, source_root, restore_root)),
{
    assert forall|i: int| 0 <= i < paths.len() implies mapped_path_spec(
        mapped_path_spec(#[trigger] paths[i], source_root, target_root, Operation::Encrypt),
        target_root,
        restore_root,
        Operation::Decrypt,
    ) == replace_prefix_spec(paths[i], source_root, restore_root) by {
        lemma_map_path_round_trip(paths[i], source_root, target_root, restore_root);
    }
}

} // verus!
