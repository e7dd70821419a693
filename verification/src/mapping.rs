//! Mapping object identifiers to paths under the storage root.

use vstd::prelude::*;
use vstd::string::*;
use crate::digest::{digest_width, hash_hex, hex_digest, is_lower_hex, is_lower_hex_char};
use crate::error::{ErrorKind, PyRocflError};
use crate::layout::{
    is_valid_layout, lemma_resolution_valid, resolution, LayoutConfig, LayoutModel, LeafNaming,
    PyStorageLayout, StorageLayout,
};
use crate::sanitize::{
    empty_identifier, empty_identifier_message, is_safe_segment, is_segment_char,
    lemma_sanitized_is_safe, sanitize, sanitized,
};
use crate::text::{push_char, str_eq};

verus! {

/// The `k`-th tuple cut from a digest.
pub open spec fn tuple_at(digest: Seq<char>, size: nat, k: int) -> Seq<char> {
    digest.subrange(k * size, (k + 1) * size)
}

/// The first `count` tuples of a digest, each followed by a separator.
pub open spec fn tuples(digest: Seq<char>, size: nat, count: nat) -> Seq<char>
    decreases count,
{
    if count == 0 {
        Seq::empty()
    } else {
        tuples(digest, size, (count - 1) as nat) + tuple_at(digest, size, count - 1) + seq!['/']
    }
}

/// A hashed path: the tuples, then the leaf.
pub open spec fn hashed_root(digest: Seq<char>, size: nat, count: nat, leaf: Seq<char>) -> Seq<
    char,
> {
    tuples(digest, size, count) + leaf
}

/// The last segment of a hashed path.
pub open spec fn leaf_segment(m: LayoutModel, digest: Seq<char>, identifier: Seq<char>) -> Seq<
    char,
> {
    match m.leaf {
        LeafNaming::FullDigest => digest,
        LeafNaming::EncapsulatedId => sanitized(identifier),
    }
}

/// The path of an object under a layout, given the digest of its identifier.
pub open spec fn object_root_for(m: LayoutModel, digest: Seq<char>, identifier: Seq<char>) -> Seq<
    char,
> {
    match m.name {
        PyStorageLayout::FlatDirect => sanitized(identifier),
        PyStorageLayout::HashedNTuple => hashed_root(
            digest,
            m.tuple_size,
            m.tuple_count,
            leaf_segment(m, digest, identifier),
        ),
    }
}

/// The path of an object under a layout.
pub open spec fn object_root(m: LayoutModel, identifier: Seq<char>) -> Seq<char> {
    object_root_for(m, hex_digest(m.algorithm, identifier), identifier)
}

/// Whether `r` is what mapping `identifier` must return when its digest is
/// `digest`: the empty identifier is refused, every other one has a path.
pub open spec fn map_result_for(
    m: LayoutModel,
    digest: Seq<char>,
    identifier: Seq<char>,
    r: Result<String, PyRocflError>,
) -> bool {
    if identifier.len() == 0 {
        r matches Err(e) && e.kind == ErrorKind::InvalidIdentifier && e.message@
            == empty_identifier_message()
    } else {
        r matches Ok(path) && path@ == object_root_for(m, digest, identifier)
    }
}

/// Whether `r` is what mapping `identifier` must return.
pub open spec fn map_result(
    m: LayoutModel,
    identifier: Seq<char>,
    r: Result<String, PyRocflError>,
) -> bool {
    map_result_for(m, hex_digest(m.algorithm, identifier), identifier, r)
}

proof fn lemma_tuple_bounds(size: nat, count: nat, k: nat)
    requires
        k < count,
    ensures
        k * size + size == (k + 1) * size,
        (k + 1) * size <= count * size,
{
    assert(k * size + size == (k + 1) * size) by (nonlinear_arith);
    assert((k + 1) * size <= count * size) by (nonlinear_arith)
        requires
            k + 1 <= count,
    ;
}

/// The shape of the tuples: each tuple is `size` consecutive characters of
/// the digest, the tuples follow the digest in order, and a separator closes
/// each of them.
pub proof fn lemma_tuples_shape(digest: Seq<char>, size: nat, count: nat)
    requires
        size * count <= digest.len(),
    ensures
        tuples(digest, size, count).len() == count * (size + 1),
        forall|k: int, j: int|
            0 <= k < count && 0 <= j < size ==> #[trigger] tuples(digest, size, count)[k * (size
                + 1) + j] == digest[k * size + j],
        forall|k: int|
            0 <= k < count ==> #[trigger] tuples(digest, size, count)[k * (size + 1) + size]
                == '/',
    decreases count,
{
    if count > 0 {
        let prev = (count - 1) as nat;
        let head = tuples(digest, size, prev);
        let cut = tuple_at(digest, size, prev as int);
        let all = tuples(digest, size, count);
        lemma_tuple_bounds(size, count, prev);
        assert(size * prev <= digest.len()) by (nonlinear_arith)
            requires
                size * count <= digest.len(),
                prev + 1 == count,
        ;
        assert(prev * size + size <= digest.len()) by (nonlinear_arith)
            requires
                size * count <= digest.len(),
                prev + 1 == count,
        ;
        lemma_tuples_shape(digest, size, prev);
        assert(head.len() == prev * (size + 1));
        assert(cut.len() == size);
        assert(count * (size + 1) == prev * (size + 1) + size + 1) by (nonlinear_arith)
            requires
                prev + 1 == count,
        ;
        assert forall|k: int, j: int| 0 <= k < count && 0 <= j < size implies #[trigger] all[k
            * (size + 1) + j] == digest[k * size + j] by {
            if k < prev {
                assert(k * (size + 1) + j < prev * (size + 1)) by (nonlinear_arith)
                    requires
                        0 <= k < prev,
                        0 <= j < size,
                ;
                assert(k * (size + 1) + j >= 0) by (nonlinear_arith)
                    requires
                        0 <= k,
                        0 <= j,
                ;
                assert(all[k * (size + 1) + j] == head[k * (size + 1) + j]);
            } else {
                assert(k == prev);
                assert(all[k * (size + 1) + j] == cut[j]);
            }
        }
        assert forall|k: int| 0 <= k < count implies #[trigger] all[k * (size + 1) + size]
            == '/' by {
            if k < prev {
                assert(k * (size + 1) + size < prev * (size + 1)) by (nonlinear_arith)
                    requires
                        0 <= k < prev,
                ;
                assert(k * (size + 1) + size >= 0) by (nonlinear_arith)
                    requires
                        0 <= k,
                ;
                assert(all[k * (size + 1) + size] == head[k * (size + 1) + size]);
            } else {
                assert(k == prev);
            }
        }
    }
}

/// Whether position `i` is the first or the last character of a segment.
pub open spec fn is_segment_edge(path: Seq<char>, i: int) -> bool {
    i == 0 || i == path.len() - 1 || path[i - 1] == '/' || path[i + 1] == '/'
}

/// Characters with which a segment may start and end.
pub open spec fn is_edge_char(c: char) -> bool {
    c != '/' && c != '.' && c != ' '
}

/// A relative path that is safe below the storage root: it is not empty, it
/// holds segment characters and separators only, and no segment starts or ends
/// with a separator, a dot or a space. So it neither starts nor ends with a
/// separator, has no empty segment, and has no segment `.` or `..`.
pub open spec fn is_safe_path(path: Seq<char>) -> bool {
    &&& path.len() > 0
    &&& forall|i: int| 0 <= i < path.len() ==> is_segment_char(#[trigger] path[i]) || path[i] == '/'
    &&& forall|i: int|
        0 <= i < path.len() && is_segment_edge(path, i) ==> is_edge_char(#[trigger] path[i])
}

/// A safe segment is a safe path.
pub proof fn lemma_segment_is_path(segment: Seq<char>)
    requires
        is_safe_segment(segment),
    ensures
        is_safe_path(segment),
{
    assert forall|i: int| 0 <= i < segment.len() && is_segment_edge(segment, i) implies is_edge_char(
        #[trigger] segment[i],
    ) by {
        if 0 < i && segment[i - 1] == '/' {
            assert(is_segment_char(segment[i - 1]));
        }
        if i < segment.len() - 1 && segment[i + 1] == '/' {
            assert(is_segment_char(segment[i + 1]));
        }
        assert(is_segment_char(segment[i]));
    }
}

/// A non-empty run of lowercase hex digits is a safe segment.
pub proof fn lemma_hex_is_segment(digest: Seq<char>)
    requires
        is_lower_hex(digest),
        digest.len() > 0,
    ensures
        is_safe_segment(digest),
{
    assert forall|i: int| 0 <= i < digest.len() implies is_segment_char(#[trigger] digest[i]) by {
        assert(is_lower_hex_char(digest[i]));
    }
    assert(is_lower_hex_char(digest[0]));
    assert(is_lower_hex_char(digest[digest.len() - 1]));
}

proof fn lemma_tuples_safe(digest: Seq<char>, size: nat, count: nat)
    requires
        is_lower_hex(digest),
        size > 0,
        size * count <= digest.len(),
    ensures
        forall|i: int|
            0 <= i < tuples(digest, size, count).len() ==> is_lower_hex_char(
                #[trigger] tuples(digest, size, count)[i],
            ) || tuples(digest, size, count)[i] == '/',
        count > 0 ==> tuples(digest, size, count).len() > 0 && tuples(digest, size, count)[0]
            != '/' && tuples(digest, size, count).last() == '/',
        forall|i: int|
            0 < i < tuples(digest, size, count).len() && #[trigger] tuples(digest, size, count)[i]
                == '/' ==> tuples(digest, size, count)[i - 1] != '/',
    decreases count,
{
    if count > 0 {
        let prev = (count - 1) as nat;
        let head = tuples(digest, size, prev);
        let cut = tuple_at(digest, size, prev as int);
        let all = tuples(digest, size, count);
        lemma_tuple_bounds(size, count, prev);
        assert(size * prev <= digest.len()) by (nonlinear_arith)
            requires
                size * count <= digest.len(),
                prev + 1 == count,
        ;
        assert(0 <= prev * size && prev * size + size <= digest.len()) by (nonlinear_arith)
            requires
                size * count <= digest.len(),
                prev + 1 == count,
        ;
        lemma_tuples_safe(digest, size, prev);
        assert(cut.len() == size);
        assert forall|j: int| 0 <= j < cut.len() implies is_lower_hex_char(#[trigger] cut[j]) by {
            assert(cut[j] == digest[prev * size + j]);
        }
        assert(all.len() == head.len() + size + 1);
        assert forall|i: int| 0 <= i < all.len() implies is_lower_hex_char(#[trigger] all[i])
            || all[i] == '/' by {
            if i < head.len() {
                assert(all[i] == head[i]);
            } else if i < head.len() + size {
                assert(all[i] == cut[i - head.len()]);
            }
        }
        assert(all[0] != '/') by {
            if prev > 0 {
                assert(all[0] == head[0]);
            } else {
                assert(head.len() == 0);
                assert(all[0] == cut[0]);
                assert(is_lower_hex_char(cut[0]));
            }
        }
        assert forall|i: int| 0 < i < all.len() && #[trigger] all[i] == '/' implies all[i - 1]
            != '/' by {
            if i < head.len() {
                assert(all[i] == head[i]);
                assert(all[i - 1] == head[i - 1]);
            } else if i < head.len() + size {
                assert(all[i] == cut[i - head.len()]);
                assert(is_lower_hex_char(cut[i - head.len()]));
            } else {
                assert(all[i - 1] == cut[size - 1]);
                assert(is_lower_hex_char(cut[size - 1]));
            }
        }
    }
}

/// A hashed path is safe: tuples cut from a hex digest, each one a segment
/// of its own, followed by a leaf that is a safe segment.
pub proof fn lemma_hashed_root_is_safe(digest: Seq<char>, size: nat, count: nat, leaf: Seq<char>)
    requires
        is_lower_hex(digest),
        size > 0,
        size * count <= digest.len(),
        is_safe_segment(leaf),
    ensures
        is_safe_path(hashed_root(digest, size, count, leaf)),
{
    let head = tuples(digest, size, count);
    let path = hashed_root(digest, size, count, leaf);
    lemma_tuples_safe(digest, size, count);
    assert forall|i: int| 0 <= i < path.len() implies (is_segment_char(#[trigger] path[i])
        || path[i] == '/') && (is_segment_edge(path, i) ==> is_edge_char(path[i])) by {
        if i < head.len() {
            assert(path[i] == head[i]);
            assert(is_lower_hex_char(head[i]) || head[i] == '/');
            if path[i] == '/' {
                assert(count > 0);
                assert(head[0] != '/');
                assert(i != 0);
                assert(path[i - 1] == head[i - 1]);
                if i + 1 < head.len() {
                    assert(path[i + 1] == head[i + 1]);
                    assert(head[i + 1] == '/' ==> head[i] != '/');
                } else {
                    assert(path[i + 1] == leaf[0]);
                    assert(is_segment_char(leaf[0]));
                }
            }
        } else {
            let j = i - head.len();
            assert(path[i] == leaf[j]);
            assert(is_segment_char(leaf[j]));
            if j > 0 {
                assert(path[i - 1] == leaf[j - 1]);
                assert(is_segment_char(leaf[j - 1]));
            }
            if j < leaf.len() - 1 {
                assert(path[i + 1] == leaf[j + 1]);
                assert(is_segment_char(leaf[j + 1]));
            }
        }
    }
}

/// Under a valid layout a non-empty identifier has a safe path, whatever hex
/// digest of the algorithm's width it has.
pub proof fn lemma_object_root_is_safe(m: LayoutModel, digest: Seq<char>, identifier: Seq<char>)
    requires
        is_valid_layout(m),
        identifier.len() > 0,
        is_lower_hex(digest),
        digest.len() == digest_width(m.algorithm),
    ensures
        is_safe_path(object_root_for(m, digest, identifier)),
{
    lemma_sanitized_is_safe(identifier);
    match m.name {
        PyStorageLayout::FlatDirect => {
            lemma_segment_is_path(sanitized(identifier));
        },
        PyStorageLayout::HashedNTuple => {
            lemma_hex_is_segment(digest);
            assert(m.tuple_size * m.tuple_count == m.tuple_count * m.tuple_size)
                by (nonlinear_arith);
            lemma_hashed_root_is_safe(
                digest,
                m.tuple_size,
                m.tuple_count,
                leaf_segment(m, digest, identifier),
            );
        },
    }
}

/// Cuts `tuple_count` tuples of `tuple_size` characters from the front of a
/// digest, closes each with a separator, and appends the leaf.
pub fn hashed_path(digest: &str, tuple_size: usize, tuple_count: usize, leaf: &str) -> (path:
    String)
    requires
        tuple_size * tuple_count <= digest@.len(),
    ensures
        path@ == hashed_root(digest@, tuple_size as nat, tuple_count as nat, leaf@),
{
    // The length is counted for the proof alone: it is what bounds the sums below.
    let length = digest.unicode_len();
    let mut out = String::new();
    let mut k: usize = 0;
    let mut start: usize = 0;
    while k < tuple_count
        invariant
            k <= tuple_count,
            start == k * tuple_size,
            length == digest@.len(),
            tuple_size * tuple_count <= digest@.len(),
            out@ == tuples(digest@, tuple_size as nat, k as nat),
        decreases tuple_count - k,
    {
        proof {
            lemma_tuple_bounds(tuple_size as nat, tuple_count as nat, k as nat);
            assert(tuple_count * tuple_size == tuple_size * tuple_count) by (nonlinear_arith);
        }
        let end: usize = start + tuple_size;
        out.append(digest.substring_char(start, end));
        push_char(&mut out, '/');
        k += 1;
        start = end;
    }
    out.append(leaf);
    out
}

impl StorageLayout {
    /// Maps an identifier to its path, given the hex digest of the identifier
    /// under the layout's algorithm.
    pub fn map_with_digest(&self, identifier: &str, digest: &str) -> (r: Result<
        String,
        PyRocflError,
    >)
        requires
            self@.name == PyStorageLayout::HashedNTuple ==> self@.tuple_size * self@.tuple_count
                <= digest@.len(),
        ensures
            map_result_for(self@, digest@, identifier@, r),
    {
        match self.extension_name() {
            PyStorageLayout::FlatDirect => sanitize(identifier),
            PyStorageLayout::HashedNTuple => match self.leaf_naming() {
                LeafNaming::FullDigest => {
                    if identifier.is_empty() {
                        Err(empty_identifier())
                    } else {
                        Ok(hashed_path(digest, self.tuple_size(), self.tuple_count(), digest))
                    }
                },
                LeafNaming::EncapsulatedId => match sanitize(identifier) {
                    Ok(leaf) => Ok(
                        hashed_path(digest, self.tuple_size(), self.tuple_count(), leaf.as_str()),
                    ),
                    Err(e) => Err(e),
                },
            },
        }
    }

    /// Maps an identifier to the path of its object root, relative to the
    /// storage root. The empty identifier is refused; every other identifier
    /// has a path, and the path is never empty.
    ///
    /// Under a hashed layout the digest that the path is cut from has the
    /// width of the layout's algorithm and is written in lowercase hex digits.
    pub fn map(&self, identifier: &str) -> (r: Result<String, PyRocflError>)
        ensures
            map_result(self@, identifier@, r),
            r matches Ok(path) ==> path@.len() > 0 && is_safe_path(path@),
            self@.name == PyStorageLayout::HashedNTuple ==> hex_digest(
                self@.algorithm,
                identifier@,
            ).len() == digest_width(self@.algorithm) && is_lower_hex(
                hex_digest(self@.algorithm, identifier@),
            ),
    {
        match self.extension_name() {
            PyStorageLayout::FlatDirect => {
                proof {
                    if identifier@.len() > 0 {
                        lemma_sanitized_is_safe(identifier@);
                        lemma_segment_is_path(sanitized(identifier@));
                    }
                }
                sanitize(identifier)
            },
            PyStorageLayout::HashedNTuple => {
                let digest = hash_hex(self.digest_algorithm(), identifier);
                proof {
                    if identifier@.len() > 0 {
                        lemma_object_root_is_safe(self@, digest@, identifier@);
                    }
                }
                self.map_with_digest(identifier, digest.as_str())
            },
        }
    }
}

/// Whether a path is among the object roots that are already taken.
pub open spec fn is_taken(taken: Seq<String>, path: Seq<char>) -> bool {
    exists|i: int| 0 <= i < taken.len() && (#[trigger] taken[i])@ == path
}

/// Whether `r` is what placing a new object must return: the empty
/// identifier is refused, a path that is already taken is a collision, and
/// every other identifier gets its path.
pub open spec fn place_result(
    m: LayoutModel,
    identifier: Seq<char>,
    taken: Seq<String>,
    r: Result<String, PyRocflError>,
) -> bool {
    if identifier.len() == 0 {
        r matches Err(e) && e.kind == ErrorKind::InvalidIdentifier && e.message@
            == empty_identifier_message()
    } else if is_taken(taken, object_root(m, identifier)) {
        r matches Err(e) && e.kind == ErrorKind::PathCollision && e.message@
            == "object root is already taken: "@ + object_root(m, identifier)
    } else {
        r matches Ok(path) && path@ == object_root(m, identifier)
    }
}

impl StorageLayout {
    /// Maps the identifier of a new object to its path and makes sure the
    /// path is free. `taken` holds the object roots in use, relative to the
    /// storage root.
    pub fn place(&self, identifier: &str, taken: &Vec<String>) -> (r: Result<String, PyRocflError>)
        ensures
            place_result(self@, identifier@, taken@, r),
    {
        let path = match self.map(identifier) {
            Ok(path) => path,
            Err(e) => {
                return Err(e);
            },
        };
        let mut i: usize = 0;
        while i < taken.len()
            invariant
                i <= taken@.len(),
                identifier@.len() > 0,
                path@ == object_root(self@, identifier@),
                forall|k: int| 0 <= k < i ==> (#[trigger] taken@[k])@ != path@,
            decreases taken@.len() - i,
        {
            if str_eq(taken[i].as_str(), path.as_str()) {
                let message = String::from_str("object root is already taken: ").concat(
                    path.as_str(),
                );
                return Err(PyRocflError { kind: ErrorKind::PathCollision, message });
            }
            i += 1;
        }
        Ok(path)
    }
}

/// Mapping is a function of the layout and the identifier: whatever two calls
/// on the same layout and identifier return, they return the same, and a path
/// that is returned is never empty.
pub proof fn lemma_map_deterministic(
    m: LayoutModel,
    identifier: Seq<char>,
    first: Result<String, PyRocflError>,
    second: Result<String, PyRocflError>,
)
    requires
        map_result(m, identifier, first),
        map_result(m, identifier, second),
    ensures
        first is Ok <==> second is Ok,
        first is Ok <==> identifier.len() > 0,
        first is Ok ==> first->Ok_0@ == second->Ok_0@,
        first is Err ==> first->Err_0.kind == second->Err_0.kind && first->Err_0.message@
            == second->Err_0.message@,
{
}

/// A layout that resolves maps every non-empty identifier to a path that is
/// safe, and so never empty, whatever hex digest of the algorithm's width the
/// identifier has.
pub proof fn lemma_resolved_layout_maps(
    name: Seq<char>,
    config: Option<LayoutConfig>,
    identifier: Seq<char>,
    digest: Seq<char>,
)
    requires
        resolution(name, config) is Ok,
        identifier.len() > 0,
        is_lower_hex(digest),
        digest.len() == digest_width(resolution(name, config)->Ok_0.algorithm),
    ensures
        is_safe_path(object_root_for(resolution(name, config)->Ok_0, digest, identifier)),
        object_root_for(resolution(name, config)->Ok_0, digest, identifier).len() > 0,
{
    lemma_resolution_valid(name, config);
    lemma_object_root_is_safe(resolution(name, config)->Ok_0, digest, identifier);
}

} // verus!
