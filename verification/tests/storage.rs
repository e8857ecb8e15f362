use htsget_resolver::storage::{
    default_authority, default_local_path, default_path_prefix, storage_from_raw, storage_to_raw,
    RawStorage, Scheme, Storage, TaggedStorageTypes,
};

fn empty_raw() -> RawStorage {
    RawStorage::default()
}

#[test]
fn config_storage_tagged_local_file() {
    let raw = RawStorage {
        tag: Some("Local".to_string()),
        ..empty_raw()
    };
    let storage = storage_from_raw(raw);
    println!("{:?}", storage);
    assert!(matches!(
        storage,
        Some(Storage::Tagged(TaggedStorageTypes::Local))
    ));
}

#[test]
fn config_storage_tagged_local_env() {
    let raw = RawStorage {
        tag: Some("Local".to_string()),
        ..empty_raw()
    };
    assert!(matches!(
        storage_from_raw(raw),
        Some(Storage::Tagged(TaggedStorageTypes::Local))
    ));
}

#[test]
fn config_storage_local_file() {
    let raw = RawStorage {
        local_path: Some("path".to_string()),
        scheme: Some("HTTPS".to_string()),
        path_prefix: Some("path".to_string()),
        ..empty_raw()
    };
    let storage = storage_from_raw(raw);
    println!("{:?}", storage);
    assert!(matches!(
        storage,
        Some(Storage::Local { scheme, local_path, path_prefix, .. })
            if local_path == "path" && scheme == Scheme::Https && path_prefix == "path"
    ));
}

#[test]
fn config_storage_s3_file() {
    let raw = RawStorage {
        bucket: Some("bucket".to_string()),
        ..empty_raw()
    };
    let storage = storage_from_raw(raw);
    println!("{:?}", storage);
    assert!(matches!(
        storage,
        Some(Storage::S3 { bucket }) if bucket == "bucket"
    ));
}

#[test]
fn config_storage_tagged_s3_file() {
    let raw = RawStorage {
        tag: Some("S3".to_string()),
        ..empty_raw()
    };
    let storage = storage_from_raw(raw);
    println!("{:?}", storage);
    assert!(matches!(
        storage,
        Some(Storage::Tagged(TaggedStorageTypes::S3))
    ));
}

#[test]
fn config_storage_tagged_s3_env() {
    let raw = RawStorage {
        tag: Some("S3".to_string()),
        ..empty_raw()
    };
    assert!(matches!(
        storage_from_raw(raw),
        Some(Storage::Tagged(TaggedStorageTypes::S3))
    ));
}

#[test]
fn tag_aliases_are_accepted() {
    for alias in ["Local", "local", "LOCAL"] {
        let raw = RawStorage {
            tag: Some(alias.to_string()),
            ..empty_raw()
        };
        assert_eq!(
            storage_from_raw(raw),
            Some(Storage::Tagged(TaggedStorageTypes::Local))
        );
    }
    for alias in ["S3", "s3"] {
        let raw = RawStorage {
            tag: Some(alias.to_string()),
            ..empty_raw()
        };
        assert_eq!(
            storage_from_raw(raw),
            Some(Storage::Tagged(TaggedStorageTypes::S3))
        );
    }
}

#[test]
fn unknown_tag_is_rejected() {
    let raw = RawStorage {
        tag: Some("Gcs".to_string()),
        ..empty_raw()
    };
    assert_eq!(storage_from_raw(raw), None);
}

#[test]
fn unknown_scheme_is_rejected() {
    let raw = RawStorage {
        scheme: Some("FTP".to_string()),
        ..empty_raw()
    };
    assert_eq!(storage_from_raw(raw), None);
}

#[test]
fn straddling_fields_are_rejected() {
    // A tag next to any other field is ambiguous.
    let raw = RawStorage {
        tag: Some("Local".to_string()),
        bucket: Some("bucket".to_string()),
        ..empty_raw()
    };
    assert_eq!(storage_from_raw(raw), None);
    let raw = RawStorage {
        tag: Some("S3".to_string()),
        local_path: Some("path".to_string()),
        ..empty_raw()
    };
    assert_eq!(storage_from_raw(raw), None);
    // A bucket next to a local field straddles two variants.
    let raw = RawStorage {
        bucket: Some("bucket".to_string()),
        authority: Some("example.com:80".to_string()),
        ..empty_raw()
    };
    assert_eq!(storage_from_raw(raw), None);
}

#[test]
fn empty_record_is_local_with_all_defaults() {
    let storage = storage_from_raw(empty_raw()).unwrap();
    assert_eq!(
        storage,
        Storage::Local {
            scheme: Scheme::Http,
            authority: default_authority(),
            local_path: default_local_path(),
            path_prefix: default_path_prefix(),
        }
    );
    assert_eq!(default_authority(), "127.0.0.1:8081");
    assert_eq!(default_local_path(), "data");
    assert_eq!(default_path_prefix(), "/data");
}

#[test]
fn partial_local_record_defaults_the_rest() {
    let raw = RawStorage {
        local_path: Some("path".to_string()),
        ..empty_raw()
    };
    assert_eq!(
        storage_from_raw(raw),
        Some(Storage::Local {
            scheme: Scheme::Http,
            authority: default_authority(),
            local_path: "path".to_string(),
            path_prefix: default_path_prefix(),
        })
    );
}

#[test]
fn bare_tag_round_trips() {
    for storage in [
        Storage::Tagged(TaggedStorageTypes::Local),
        Storage::Tagged(TaggedStorageTypes::S3),
    ] {
        let raw = storage_to_raw(&storage);
        assert!(raw.tag.is_some());
        assert_eq!(storage_from_raw(raw), Some(storage));
    }
}

#[test]
fn fully_specified_round_trips() {
    let local = Storage::Local {
        scheme: Scheme::Https,
        authority: "example.com:8080".to_string(),
        local_path: "files".to_string(),
        path_prefix: "/serve".to_string(),
    };
    assert_eq!(storage_from_raw(storage_to_raw(&local)), Some(local));
    let s3 = Storage::S3 {
        bucket: "bucket".to_string(),
    };
    assert_eq!(storage_from_raw(storage_to_raw(&s3)), Some(s3));
}

#[test]
fn defaults_are_local() {
    assert_eq!(Storage::default(), Storage::Tagged(TaggedStorageTypes::Local));
    assert_eq!(TaggedStorageTypes::default(), TaggedStorageTypes::Local);
    assert_eq!(Scheme::default(), Scheme::Http);
}
