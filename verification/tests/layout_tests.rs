use pyrocfl::digest::DigestAlgorithm;
use pyrocfl::error::ErrorKind;
use pyrocfl::layout::{LayoutConfig, LayoutRegistry, LeafNaming, PyStorageLayout, StorageLayout};
use pyrocfl::mapping::hashed_path;

const SHA256_OBJ_123: &str = "c5a712cf104e382cd3af1a2a1d594505613ebe3c9b309cf68770b77c1a83549a";

fn blank() -> LayoutConfig {
    LayoutConfig::new()
}

#[test]
fn new_config_leaves_everything_out() {
    let expected = LayoutConfig {
        digest_algorithm: None,
        tuple_size: None,
        tuple_count: None,
        leaf_naming: None,
    };
    assert_eq!(LayoutConfig::new(), expected);
}

fn hashed(config: LayoutConfig) -> StorageLayout {
    LayoutRegistry::resolve("hashed-n-tuple-storage-layout", Some(config))
        .expect("the configuration is valid")
}

#[test]
fn layout_names_are_recognised() {
    assert_eq!(
        PyStorageLayout::from_name("flat-direct-storage-layout"),
        Some(PyStorageLayout::FlatDirect)
    );
    assert_eq!(
        PyStorageLayout::from_name("hashed-n-tuple-storage-layout"),
        Some(PyStorageLayout::HashedNTuple)
    );
    assert_eq!(PyStorageLayout::from_name("bogus-layout"), None);
    assert_eq!(PyStorageLayout::from_name(""), None);
    assert_eq!(PyStorageLayout::from_name("Flat-Direct-Storage-Layout"), None);
}

#[test]
fn layout_names_round_trip() {
    for layout in [PyStorageLayout::FlatDirect, PyStorageLayout::HashedNTuple] {
        assert_eq!(PyStorageLayout::from_name(layout.name()), Some(layout));
    }
}

#[test]
fn digest_algorithm_names_round_trip() {
    let all = [
        DigestAlgorithm::Md5,
        DigestAlgorithm::Sha1,
        DigestAlgorithm::Sha256,
        DigestAlgorithm::Sha512,
        DigestAlgorithm::Sha512_256,
        DigestAlgorithm::Blake2b512,
        DigestAlgorithm::Blake2b160,
        DigestAlgorithm::Blake2b256,
        DigestAlgorithm::Blake2b384,
    ];
    for algorithm in all {
        assert_eq!(DigestAlgorithm::from_name(algorithm.name()), Some(algorithm));
    }
    assert_eq!(DigestAlgorithm::from_name("sha-256"), None);
    assert_eq!(DigestAlgorithm::Sha256.width(), 64);
    assert_eq!(DigestAlgorithm::Md5.width(), 32);
    assert_eq!(DigestAlgorithm::Blake2b384.width(), 96);
}

#[test]
fn flat_layout_resolves_without_config() {
    let layout = LayoutRegistry::resolve("flat-direct-storage-layout", None).unwrap();
    assert_eq!(layout.extension_name(), PyStorageLayout::FlatDirect);
    let same = LayoutRegistry::resolve("flat-direct-storage-layout", Some(blank())).unwrap();
    assert_eq!(layout, same);
}

#[test]
fn hashed_layout_defaults() {
    let layout = LayoutRegistry::resolve("hashed-n-tuple-storage-layout", None).unwrap();
    assert_eq!(layout.extension_name(), PyStorageLayout::HashedNTuple);
    assert_eq!(layout.digest_algorithm(), DigestAlgorithm::Sha256);
    assert_eq!(layout.tuple_size(), 3);
    assert_eq!(layout.tuple_count(), 3);
    assert_eq!(layout.leaf_naming(), LeafNaming::FullDigest);
    assert_eq!(layout, hashed(blank()));
}

#[test]
fn hashed_layout_takes_its_parameters() {
    let layout = hashed(LayoutConfig {
        digest_algorithm: Some("md5".to_string()),
        tuple_size: Some(4),
        tuple_count: Some(8),
        leaf_naming: Some(LeafNaming::EncapsulatedId),
    });
    assert_eq!(layout.digest_algorithm(), DigestAlgorithm::Md5);
    assert_eq!(layout.tuple_size(), 4);
    assert_eq!(layout.tuple_count(), 8);
    assert_eq!(layout.leaf_naming(), LeafNaming::EncapsulatedId);
}

#[test]
fn unknown_layout_is_unsupported() {
    let error = LayoutRegistry::resolve("bogus-layout", None).unwrap_err();
    assert_eq!(error.kind, ErrorKind::UnsupportedLayout);
    assert_eq!(error.message, "unsupported storage layout: bogus-layout");
    let error = LayoutRegistry::resolve("0002-flat-direct-storage-layout", None).unwrap_err();
    assert_eq!(error.kind, ErrorKind::UnsupportedLayout);
}

#[test]
fn unknown_layout_is_reported_before_the_config() {
    let config = LayoutConfig { tuple_count: Some(0), ..blank() };
    let error = LayoutRegistry::resolve("bogus-layout", Some(config)).unwrap_err();
    assert_eq!(error.kind, ErrorKind::UnsupportedLayout);
}

#[test]
fn zero_tuple_count_is_invalid() {
    let config = LayoutConfig { tuple_count: Some(0), ..blank() };
    let error =
        LayoutRegistry::resolve("hashed-n-tuple-storage-layout", Some(config)).unwrap_err();
    assert_eq!(error.kind, ErrorKind::InvalidLayoutConfig);
    assert_eq!(error.message, "tuple count must be greater than zero");
}

#[test]
fn zero_tuple_size_is_invalid() {
    let config = LayoutConfig { tuple_size: Some(0), tuple_count: Some(0), ..blank() };
    let error =
        LayoutRegistry::resolve("hashed-n-tuple-storage-layout", Some(config)).unwrap_err();
    assert_eq!(error.kind, ErrorKind::InvalidLayoutConfig);
    assert_eq!(error.message, "tuple size must be greater than zero");
}

#[test]
fn unknown_digest_algorithm_is_invalid() {
    let config = LayoutConfig { digest_algorithm: Some("crc32".to_string()), ..blank() };
    let error =
        LayoutRegistry::resolve("hashed-n-tuple-storage-layout", Some(config)).unwrap_err();
    assert_eq!(error.kind, ErrorKind::InvalidLayoutConfig);
    assert_eq!(error.message, "unknown digest algorithm: crc32");
}

#[test]
fn tuples_must_fit_the_digest() {
    let fits = LayoutConfig { tuple_size: Some(8), tuple_count: Some(8), ..blank() };
    assert!(LayoutRegistry::resolve("hashed-n-tuple-storage-layout", Some(fits)).is_ok());
    let over = LayoutConfig { tuple_size: Some(13), tuple_count: Some(5), ..blank() };
    let error = LayoutRegistry::resolve("hashed-n-tuple-storage-layout", Some(over)).unwrap_err();
    assert_eq!(error.kind, ErrorKind::InvalidLayoutConfig);
    assert_eq!(error.message, "tuples need more characters than the digest has");
    let md5 = LayoutConfig {
        digest_algorithm: Some("md5".to_string()),
        tuple_size: Some(11),
        tuple_count: Some(3),
        ..blank()
    };
    let error = LayoutRegistry::resolve("hashed-n-tuple-storage-layout", Some(md5)).unwrap_err();
    assert_eq!(error.kind, ErrorKind::InvalidLayoutConfig);
}

#[test]
fn huge_tuples_do_not_overflow() {
    let config =
        LayoutConfig { tuple_size: Some(usize::MAX), tuple_count: Some(usize::MAX), ..blank() };
    let error =
        LayoutRegistry::resolve("hashed-n-tuple-storage-layout", Some(config)).unwrap_err();
    assert_eq!(error.kind, ErrorKind::InvalidLayoutConfig);
    assert_eq!(error.message, "tuples need more characters than the digest has");
}

#[test]
fn flat_layout_takes_no_parameters() {
    let config = LayoutConfig { tuple_size: Some(3), ..blank() };
    let error = LayoutRegistry::resolve("flat-direct-storage-layout", Some(config)).unwrap_err();
    assert_eq!(error.kind, ErrorKind::InvalidLayoutConfig);
    assert_eq!(error.message, "the flat layout takes no parameters");
}

#[test]
fn flat_layout_maps_to_the_sanitised_identifier() {
    let layout = LayoutRegistry::resolve("flat-direct-storage-layout", None).unwrap();
    assert_eq!(layout.map("obj-123").unwrap(), "obj-123");
    assert_eq!(layout.map("a/b").unwrap(), "a%2fb");
}

#[test]
fn hashed_layout_maps_to_tuples_and_digest() {
    let layout = LayoutRegistry::resolve("hashed-n-tuple-storage-layout", None).unwrap();
    let path = layout.map("obj-123").unwrap();
    assert_eq!(path, format!("c5a/712/cf1/{}", SHA256_OBJ_123));
    let parts: Vec<&str> = path.split('/').collect();
    assert_eq!(parts.len(), 4);
    assert_eq!(SHA256_OBJ_123.find(parts[0]), Some(0));
    assert_eq!(&SHA256_OBJ_123[3..6], parts[1]);
    assert_eq!(&SHA256_OBJ_123[6..9], parts[2]);
    assert_eq!(parts[3], SHA256_OBJ_123);
}

#[test]
fn hashed_layout_hashes_the_utf8_bytes() {
    let layout = LayoutRegistry::resolve("hashed-n-tuple-storage-layout", None).unwrap();
    let digest = "728427137a75c38bb692751230cf43add48b9c3308471202c1db406b2fe9b7bf";
    assert_eq!(layout.map("é/1").unwrap(), format!("728/427/137/{}", digest));
}

#[test]
fn hashed_layout_uses_the_configured_algorithm() {
    let cases = [
        ("md5", "6cf7170a365c450ae0855c4b45c085dc"),
        ("sha1", "2f58ba10930ea2f39e4a526a27b1612f4d57b481"),
        (
            "sha512",
            "4b03f16271faa88e7062c8e6e3fa060cc1e506312fa0465a2926cce7686b1e95\
             ebc3243a464c505ad4cd46c8c8342af242b700d49c793cd1841ae21e2db0d6fe",
        ),
        ("blake2b-160", "d7cba32d3d90d2b1583391e37ffab8fee5ee902a"),
        (
            "blake2b-384",
            "861dee8633169f8c98486a5051a6767ef6a464fca7d2528591cf084c8d1e346a\
             3daf5633efdfd5c72e9c85279026da45",
        ),
    ];
    for (name, digest) in cases {
        let layout = hashed(LayoutConfig {
            digest_algorithm: Some(name.to_string()),
            tuple_size: Some(2),
            tuple_count: Some(2),
            ..blank()
        });
        let expected = format!("{}/{}/{}", &digest[0..2], &digest[2..4], digest);
        assert_eq!(layout.map("obj-123").unwrap(), expected);
        assert_eq!(digest.len(), layout.digest_algorithm().width());
    }
}

#[test]
fn hashed_layout_with_encapsulated_identifier() {
    let layout = hashed(LayoutConfig { leaf_naming: Some(LeafNaming::EncapsulatedId), ..blank() });
    assert_eq!(layout.map("obj-123").unwrap(), "c5a/712/cf1/obj-123");
    let digest = "728427137a75c38bb692751230cf43add48b9c3308471202c1db406b2fe9b7bf";
    assert_eq!(layout.map("é/1").unwrap(), format!("728/427/137/%c3%a9%2f1"));
    assert_eq!(digest.len(), 64);
}

#[test]
fn mapping_refuses_the_empty_identifier() {
    for name in ["flat-direct-storage-layout", "hashed-n-tuple-storage-layout"] {
        let layout = LayoutRegistry::resolve(name, None).unwrap();
        let error = layout.map("").unwrap_err();
        assert_eq!(error.kind, ErrorKind::InvalidIdentifier);
        assert_eq!(error.message, "object identifier must not be empty");
    }
}

#[test]
fn mapping_is_deterministic_and_never_empty() {
    for name in ["flat-direct-storage-layout", "hashed-n-tuple-storage-layout"] {
        let layout = LayoutRegistry::resolve(name, None).unwrap();
        for identifier in ["a", "obj-123", "/", ".", "é"] {
            let first = layout.map(identifier).unwrap();
            let second = layout.map(identifier).unwrap();
            assert_eq!(first, second);
            assert!(!first.is_empty());
        }
    }
}

#[test]
fn hashed_path_cuts_tuples_in_order() {
    assert_eq!(hashed_path("0123456789abcdef", 3, 3, "leaf"), "012/345/678/leaf");
    assert_eq!(hashed_path("0123456789abcdef", 4, 4, "x"), "0123/4567/89ab/cdef/x");
    assert_eq!(hashed_path("0123456789abcdef", 1, 2, ""), "0/1/");
    assert_eq!(hashed_path("0123456789abcdef", 5, 0, "leaf"), "leaf");
    assert_eq!(hashed_path("0123456789abcdef", 0, 2, "leaf"), "//leaf");
}

#[test]
fn map_with_digest_uses_the_digest_it_is_given() {
    let layout = LayoutRegistry::resolve("hashed-n-tuple-storage-layout", None).unwrap();
    assert_eq!(
        layout.map_with_digest("obj-123", "0123456789abcdef").unwrap(),
        "012/345/678/0123456789abcdef"
    );
    let error = layout.map_with_digest("", "0123456789abcdef").unwrap_err();
    assert_eq!(error.kind, ErrorKind::InvalidIdentifier);
    let encapsulated =
        hashed(LayoutConfig { leaf_naming: Some(LeafNaming::EncapsulatedId), ..blank() });
    assert_eq!(
        encapsulated.map_with_digest("a b/c", "0123456789abcdef").unwrap(),
        "012/345/678/a b%2fc"
    );
    let flat = LayoutRegistry::resolve("flat-direct-storage-layout", None).unwrap();
    assert_eq!(flat.map_with_digest("a b/c", "").unwrap(), "a b%2fc");
}

#[test]
fn layout_declarations() {
    let flat = LayoutRegistry::resolve("flat-direct-storage-layout", None).unwrap();
    assert_eq!(flat.declaration(), "{\"extension\":\"flat-direct-storage-layout\"}");
    let default = LayoutRegistry::resolve("hashed-n-tuple-storage-layout", None).unwrap();
    assert_eq!(
        default.declaration(),
        "{\"extension\":\"hashed-n-tuple-storage-layout\",\"digestAlgorithm\":\"sha256\",\
         \"tupleSize\":3,\"tupleCount\":3,\"leafNaming\":\"full-digest\"}"
    );
    let custom = hashed(LayoutConfig {
        digest_algorithm: Some("sha512".to_string()),
        tuple_size: Some(10),
        tuple_count: Some(12),
        leaf_naming: Some(LeafNaming::EncapsulatedId),
    });
    assert_eq!(
        custom.declaration(),
        "{\"extension\":\"hashed-n-tuple-storage-layout\",\"digestAlgorithm\":\"sha512\",\
         \"tupleSize\":10,\"tupleCount\":12,\"leafNaming\":\"encapsulated-id\"}"
    );
}

#[test]
fn placing_an_object_detects_a_taken_path() {
    let flat = LayoutRegistry::resolve("flat-direct-storage-layout", None).unwrap();
    let taken = vec!["other".to_string(), "a%2fb".to_string()];
    assert_eq!(flat.place("obj-123", &taken).unwrap(), "obj-123");
    let error = flat.place("a/b", &taken).unwrap_err();
    assert_eq!(error.kind, ErrorKind::PathCollision);
    assert_eq!(error.message, "object root is already taken: a%2fb");
    let error = flat.place("", &taken).unwrap_err();
    assert_eq!(error.kind, ErrorKind::InvalidIdentifier);
    assert_eq!(flat.place("a/b", &Vec::new()).unwrap(), "a%2fb");
}
