//! Storage layouts: their names, their parameters, and how a name and a
//! configuration resolve into a validated layout.

use vstd::prelude::*;
use vstd::string::*;
use crate::digest::{algorithm_of_name, digest_width, name_of_algorithm, DigestAlgorithm};
use crate::error::{ErrorKind, PyRocflError};
use crate::text::{decimal, push_decimal, str_eq};

verus! {

/// The layouts a repository can be created with.
#[derive(Clone, Copy, Debug, PartialEq, Eq, Structural)]
pub enum PyStorageLayout {
    /// One directory per object, named by the sanitised identifier.
    FlatDirect,
    /// Nested directories cut from the digest of the identifier.
    HashedNTuple,
}

/// How the last segment of a hashed path is named.
#[derive(Clone, Copy, Debug, PartialEq, Eq, Structural)]
pub enum LeafNaming {
    /// The whole hex digest.
    FullDigest,
    /// The sanitised identifier.
    EncapsulatedId,
}

/// The layout that a registered name selects, if any.
pub open spec fn layout_of_name(name: Seq<char>) -> Option<PyStorageLayout> {
    if name == "flat-direct-storage-layout"@ {
        Some(PyStorageLayout::FlatDirect)
    } else if name == "hashed-n-tuple-storage-layout"@ {
        Some(PyStorageLayout::HashedNTuple)
    } else {
        None
    }
}

/// The registered name of a layout.
pub open spec fn name_of_layout(layout: PyStorageLayout) -> Seq<char> {
    match layout {
        PyStorageLayout::FlatDirect => "flat-direct-storage-layout"@,
        PyStorageLayout::HashedNTuple => "hashed-n-tuple-storage-layout"@,
    }
}

/// The name under which a leaf naming is recorded.
pub open spec fn name_of_leaf(leaf: LeafNaming) -> Seq<char> {
    match leaf {
        LeafNaming::FullDigest => "full-digest"@,
        LeafNaming::EncapsulatedId => "encapsulated-id"@,
    }
}

impl LeafNaming {
    /// The name under which this leaf naming is recorded.
    pub fn name(&self) -> (n: &'static str)
        ensures
            n@ == name_of_leaf(*self),
    {
        match self {
            LeafNaming::FullDigest => "full-digest",
            LeafNaming::EncapsulatedId => "encapsulated-id",
        }
    }
}

impl PyStorageLayout {
    /// The registered name of this layout.
    pub fn name(&self) -> (n: &'static str)
        ensures
            n@ == name_of_layout(*self),
    {
        match self {
            PyStorageLayout::FlatDirect => "flat-direct-storage-layout",
            PyStorageLayout::HashedNTuple => "hashed-n-tuple-storage-layout",
        }
    }

    /// Looks a layout up by its registered name.
    pub fn from_name(name: &str) -> (r: Option<PyStorageLayout>)
        ensures
            r == layout_of_name(name@),
    {
        if str_eq(name, "flat-direct-storage-layout") {
            Some(PyStorageLayout::FlatDirect)
        } else if str_eq(name, "hashed-n-tuple-storage-layout") {
            Some(PyStorageLayout::HashedNTuple)
        } else {
            None
        }
    }
}

/// Parameters supplied by the caller. A field left out takes its default.
#[derive(Clone, Debug, PartialEq, Eq)]
pub struct LayoutConfig {
    /// Configuration name of the digest algorithm; `sha256` when left out.
    pub digest_algorithm: Option<String>,
    /// Characters per tuple; three when left out.
    pub tuple_size: Option<usize>,
    /// Number of tuples; three when left out.
    pub tuple_count: Option<usize>,
    /// Naming of the last segment; the full digest when left out.
    pub leaf_naming: Option<LeafNaming>,
}

impl LayoutConfig {
    /// A configuration that leaves every parameter to its default.
    pub fn new() -> (config: Self)
        ensures
            is_blank(config),
    {
        LayoutConfig {
            digest_algorithm: None,
            tuple_size: None,
            tuple_count: None,
            leaf_naming: None,
        }
    }
}

/// What a validated layout is: its name and its resolved parameters.
pub struct LayoutModel {
    pub name: PyStorageLayout,
    pub algorithm: DigestAlgorithm,
    pub tuple_size: nat,
    pub tuple_count: nat,
    pub leaf: LeafNaming,
}

/// The parameters of a hashed layout when the caller supplies none.
pub open spec fn default_hashed_model() -> LayoutModel {
    LayoutModel {
        name: PyStorageLayout::HashedNTuple,
        algorithm: DigestAlgorithm::Sha256,
        tuple_size: 3,
        tuple_count: 3,
        leaf: LeafNaming::FullDigest,
    }
}

/// The flat layout. It has no parameters of its own; the remaining fields
/// hold the defaults so that every flat layout is the same value.
pub open spec fn flat_direct_model() -> LayoutModel {
    LayoutModel { name: PyStorageLayout::FlatDirect, ..default_hashed_model() }
}

/// The structural constraints on a layout.
pub open spec fn is_valid_layout(m: LayoutModel) -> bool {
    match m.name {
        PyStorageLayout::FlatDirect => m == flat_direct_model(),
        PyStorageLayout::HashedNTuple => {
            &&& m.tuple_size > 0
            &&& m.tuple_count > 0
            &&& m.tuple_size * m.tuple_count <= digest_width(m.algorithm)
        },
    }
}

/// Whether the caller supplied no parameter at all.
pub open spec fn is_blank(config: LayoutConfig) -> bool {
    &&& config.digest_algorithm is None
    &&& config.tuple_size is None
    &&& config.tuple_count is None
    &&& config.leaf_naming is None
}

/// The algorithm name that a configuration asks for.
pub open spec fn requested_algorithm(config: LayoutConfig) -> Seq<char> {
    match config.digest_algorithm {
        Some(name) => name@,
        None => "sha256"@,
    }
}

/// The tuple size that a configuration asks for.
pub open spec fn requested_tuple_size(config: LayoutConfig) -> nat {
    match config.tuple_size {
        Some(n) => n as nat,
        None => 3,
    }
}

/// The tuple count that a configuration asks for.
pub open spec fn requested_tuple_count(config: LayoutConfig) -> nat {
    match config.tuple_count {
        Some(n) => n as nat,
        None => 3,
    }
}

/// The leaf naming that a configuration asks for.
pub open spec fn requested_leaf(config: LayoutConfig) -> LeafNaming {
    match config.leaf_naming {
        Some(leaf) => leaf,
        None => LeafNaming::FullDigest,
    }
}

/// Resolution of a hashed layout from a configuration: the layout, or the
/// kind and message of the first constraint that the configuration breaks.
pub open spec fn hashed_resolution(config: LayoutConfig) -> Result<
    LayoutModel,
    (ErrorKind, Seq<char>),
> {
    match algorithm_of_name(requested_algorithm(config)) {
        None => Err(
            (
                ErrorKind::InvalidLayoutConfig,
                "unknown digest algorithm: "@ + requested_algorithm(config),
            ),
        ),
        Some(algorithm) => if requested_tuple_size(config) == 0 {
            Err((ErrorKind::InvalidLayoutConfig, "tuple size must be greater than zero"@))
        } else if requested_tuple_count(config) == 0 {
            Err((ErrorKind::InvalidLayoutConfig, "tuple count must be greater than zero"@))
        } else if requested_tuple_size(config) * requested_tuple_count(config) > digest_width(
            algorithm,
        ) {
            Err(
                (
                    ErrorKind::InvalidLayoutConfig,
                    "tuples need more characters than the digest has"@,
                ),
            )
        } else {
            Ok(
                LayoutModel {
                    name: PyStorageLayout::HashedNTuple,
                    algorithm,
                    tuple_size: requested_tuple_size(config),
                    tuple_count: requested_tuple_count(config),
                    leaf: requested_leaf(config),
                },
            )
        },
    }
}

/// Resolution of a layout name and an optional configuration: the layout, or
/// the kind and message of the error.
pub open spec fn resolution(name: Seq<char>, config: Option<LayoutConfig>) -> Result<
    LayoutModel,
    (ErrorKind, Seq<char>),
> {
    match layout_of_name(name) {
        None => Err((ErrorKind::UnsupportedLayout, "unsupported storage layout: "@ + name)),
        Some(PyStorageLayout::FlatDirect) => match config {
            Some(c) if !is_blank(c) => Err(
                (ErrorKind::InvalidLayoutConfig, "the flat layout takes no parameters"@),
            ),
            _ => Ok(flat_direct_model()),
        },
        Some(PyStorageLayout::HashedNTuple) => match config {
            Some(c) => hashed_resolution(c),
            None => Ok(default_hashed_model()),
        },
    }
}

/// Whether `r` is what resolving `name` with `config` must return.
pub open spec fn resolve_result(
    name: Seq<char>,
    config: Option<LayoutConfig>,
    r: Result<StorageLayout, PyRocflError>,
) -> bool {
    match resolution(name, config) {
        Ok(m) => r matches Ok(layout) && layout@ == m,
        Err((kind, message)) => r matches Err(e) && e.kind == kind && e.message@ == message,
    }
}

/// A validated layout. Values are made by [`LayoutRegistry::resolve`] only,
/// and never change afterwards.
#[derive(Clone, Copy, Debug, PartialEq, Eq)]
pub struct StorageLayout {
    name: PyStorageLayout,
    algorithm: DigestAlgorithm,
    tuple_size: usize,
    tuple_count: usize,
    leaf: LeafNaming,
}

impl View for StorageLayout {
    type V = LayoutModel;

    closed spec fn view(&self) -> LayoutModel {
        LayoutModel {
            name: self.name,
            algorithm: self.algorithm,
            tuple_size: self.tuple_size as nat,
            tuple_count: self.tuple_count as nat,
            leaf: self.leaf,
        }
    }
}

impl StorageLayout {
    #[verifier::type_invariant]
    spec fn valid(self) -> bool {
        is_valid_layout(self@)
    }

    /// The layout's name. Every layout value meets the structural constraints.
    pub fn extension_name(&self) -> (n: PyStorageLayout)
        ensures
            n == self@.name,
            is_valid_layout(self@),
    {
        proof {
            use_type_invariant(self);
        }
        self.name
    }

    /// The digest algorithm.
    pub fn digest_algorithm(&self) -> (a: DigestAlgorithm)
        ensures
            a == self@.algorithm,
    {
        self.algorithm
    }

    /// Characters per tuple.
    pub fn tuple_size(&self) -> (n: usize)
        ensures
            n == self@.tuple_size,
    {
        self.tuple_size
    }

    /// Number of tuples.
    pub fn tuple_count(&self) -> (n: usize)
        ensures
            n == self@.tuple_count,
    {
        self.tuple_count
    }

    /// Naming of the last segment.
    pub fn leaf_naming(&self) -> (l: LeafNaming)
        ensures
            l == self@.leaf,
    {
        self.leaf
    }
}

/// The layout declaration: a key/value document that records the layout's
/// name and, for a hashed layout, its resolved parameters.
pub open spec fn layout_document(m: LayoutModel) -> Seq<char> {
    match m.name {
        PyStorageLayout::FlatDirect => "{\"extension\":\""@ + name_of_layout(m.name) + "\"}"@,
        PyStorageLayout::HashedNTuple => "{\"extension\":\""@ + name_of_layout(m.name)
            + "\",\"digestAlgorithm\":\""@ + name_of_algorithm(m.algorithm)
            + "\",\"tupleSize\":"@ + decimal(m.tuple_size) + ",\"tupleCount\":"@ + decimal(
            m.tuple_count,
        ) + ",\"leafNaming\":\""@ + name_of_leaf(m.leaf) + "\"}"@,
    }
}

impl StorageLayout {
    /// Writes out the layout declaration.
    pub fn declaration(&self) -> (document: String)
        ensures
            document@ == layout_document(self@),
    {
        let mut out = String::from_str("{\"extension\":\"");
        out.append(self.name.name());
        match self.name {
            PyStorageLayout::FlatDirect => {
                out.append("\"}");
            },
            PyStorageLayout::HashedNTuple => {
                out.append("\",\"digestAlgorithm\":\"");
                out.append(self.algorithm.name());
                out.append("\",\"tupleSize\":");
                push_decimal(&mut out, self.tuple_size);
                out.append(",\"tupleCount\":");
                push_decimal(&mut out, self.tuple_count);
                out.append(",\"leafNaming\":\"");
                out.append(self.leaf.name());
                out.append("\"}");
            },
        }
        out
    }
}

/// Resolves layout names and configurations into layouts.
pub struct LayoutRegistry;

impl LayoutRegistry {
    fn resolve_hashed(config: LayoutConfig) -> (r: Result<StorageLayout, PyRocflError>)
        ensures
            match hashed_resolution(config) {
                Ok(m) => r matches Ok(layout) && layout@ == m,
                Err((kind, message)) => r matches Err(e) && e.kind == kind && e.message@
                    == message,
            },
    {
        let algorithm = match &config.digest_algorithm {
            Some(name) => match DigestAlgorithm::from_name(name.as_str()) {
                Some(a) => a,
                None => {
                    let message = String::from_str("unknown digest algorithm: ").concat(
                        name.as_str(),
                    );
                    return Err(PyRocflError { kind: ErrorKind::InvalidLayoutConfig, message });
                },
            },
            None => {
                proof {
                    reveal_strlit("sha256");
                    reveal_strlit("md5");
                    reveal_strlit("sha1");
                }
                DigestAlgorithm::Sha256
            },
        };
        let tuple_size: usize = match config.tuple_size {
            Some(n) => n,
            None => 3,
        };
        let tuple_count: usize = match config.tuple_count {
            Some(n) => n,
            None => 3,
        };
        let leaf = match config.leaf_naming {
            Some(l) => l,
            None => LeafNaming::FullDigest,
        };
        if tuple_size == 0 {
            return Err(
                PyRocflError::new(
                    ErrorKind::InvalidLayoutConfig,
                    "tuple size must be greater than zero",
                ),
            );
        }
        if tuple_count == 0 {
            return Err(
                PyRocflError::new(
                    ErrorKind::InvalidLayoutConfig,
                    "tuple count must be greater than zero",
                ),
            );
        }
        let fits = match tuple_size.checked_mul(tuple_count) {
            Some(total) => total <= algorithm.width(),
            None => false,
        };
        if !fits {
            return Err(
                PyRocflError::new(
                    ErrorKind::InvalidLayoutConfig,
                    "tuples need more characters than the digest has",
                ),
            );
        }
        Ok(
            StorageLayout {
                name: PyStorageLayout::HashedNTuple,
                algorithm,
                tuple_size,
                tuple_count,
                leaf,
            },
        )
    }

    /// Resolves a layout name and an optional configuration.
    ///
    /// An unknown name is refused as unsupported. A configuration is checked
    /// against the constraints of the named layout, and the first one it breaks
    /// is reported. Without a configuration the defaults apply.
    pub fn resolve(name: &str, config: Option<LayoutConfig>) -> (r: Result<
        StorageLayout,
        PyRocflError,
    >)
        ensures
            resolve_result(name@, config, r),
    {
        let flat = StorageLayout {
            name: PyStorageLayout::FlatDirect,
            algorithm: DigestAlgorithm::Sha256,
            tuple_size: 3,
            tuple_count: 3,
            leaf: LeafNaming::FullDigest,
        };
        match PyStorageLayout::from_name(name) {
            None => {
                let message = String::from_str("unsupported storage layout: ").concat(name);
                Err(PyRocflError { kind: ErrorKind::UnsupportedLayout, message })
            },
            Some(PyStorageLayout::FlatDirect) => match config {
                Some(c) => {
                    if c.digest_algorithm.is_none() && c.tuple_size.is_none()
                        && c.tuple_count.is_none() && c.leaf_naming.is_none() {
                        Ok(flat)
                    } else {
                        Err(
                            PyRocflError::new(
                                ErrorKind::InvalidLayoutConfig,
                                "the flat layout takes no parameters",
                            ),
                        )
                    }
                },
                None => Ok(flat),
            },
            Some(PyStorageLayout::HashedNTuple) => match config {
                Some(c) => Self::resolve_hashed(c),
                None => Ok(
                    StorageLayout {
                        name: PyStorageLayout::HashedNTuple,
                        algorithm: DigestAlgorithm::Sha256,
                        tuple_size: 3,
                        tuple_count: 3,
                        leaf: LeafNaming::FullDigest,
                    },
                ),
            },
        }
    }
}

/// Whatever resolves is valid, and a name resolves without a configuration
/// exactly when the registry knows it.
pub proof fn lemma_resolution_valid(name: Seq<char>, config: Option<LayoutConfig>)
    ensures
        resolution(name, config) matches Ok(m) ==> is_valid_layout(m) && layout_of_name(name)
            == Some(m.name),
        resolution(name, None) is Ok <==> layout_of_name(name) is Some,
{
}

/// Every layout is found again under its registered name.
pub proof fn lemma_layout_name_round_trip(layout: PyStorageLayout)
    ensures
        layout_of_name(name_of_layout(layout)) == Some(layout),
{
    reveal_strlit("flat-direct-storage-layout");
    reveal_strlit("hashed-n-tuple-storage-layout");
    assert("flat-direct-storage-layout"@[0] == 'f');
    assert("hashed-n-tuple-storage-layout"@[0] == 'h');
}

} // verus!
