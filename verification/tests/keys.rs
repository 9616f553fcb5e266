use chrono::DateTime;
use std::time::{SystemTime, UNIX_EPOCH};
use vault_kms_provider::vault::client::VaultError;
use vault_kms_provider::vault::keys::{KeyInfo, ReadKeyData, ReadPublicKeyEntry};

fn entry(creation_time: &str, n: u64) -> ReadPublicKeyEntry {
    ReadPublicKeyEntry {
        creation_time: creation_time.to_string(),
        name: format!("some_key_name_{}", n),
        public_key: format!("some_key_{}", n),
    }
}

#[test]
#[should_panic]
fn panics_when_an_asymmetric_key_is_encountered() {
    let data: Vec<(String, ReadPublicKeyEntry)> = Vec::new();
    let key_data: ReadKeyData = ReadKeyData::Asymmetric(data);
    let _ = KeyInfo::from_key_data(&key_data).unwrap();
}

#[test]
fn gets_most_recent_key_from_hash_map_of_asymmetric_keys() {
    let mut data: Vec<(String, ReadPublicKeyEntry)> = Vec::new();
    let start = SystemTime::now();
    let mut since_the_epoch = start.duration_since(UNIX_EPOCH).unwrap().as_secs();
    let mut latest_id = String::new();
    for n in 1..10 {
        since_the_epoch += 1;
        data.push((
            format!("{}", n),
            ReadPublicKeyEntry {
                creation_time: DateTime::from_timestamp(since_the_epoch as i64, 0)
                    .unwrap()
                    .to_rfc3339(),
                name: format!("some_key_name_{}", n),
                public_key: format!("some_key_{}", n),
            },
        ));
        latest_id = format!("{}", since_the_epoch);
    }
    assert_eq!(
        KeyInfo::from_key_data(&ReadKeyData::Asymmetric(data)).unwrap(),
        KeyInfo {
            id: latest_id,
            version: "9".to_string()
        }
    );
}

#[test]
fn gets_most_recent_key_from_hash_map_of_keys() {
    let mut map: Vec<(String, u64)> = Vec::new();
    let start = SystemTime::now();
    let mut since_the_epoch = start.duration_since(UNIX_EPOCH).unwrap().as_secs();
    let mut latest_id = String::new();
    for n in 1..10 {
        since_the_epoch += 1;
        map.push((format!("{}", n), since_the_epoch));
        latest_id = format!("{}", since_the_epoch);
    }
    assert_eq!(
        KeyInfo::from_key_data(&ReadKeyData::Symmetric(map)).unwrap(),
        KeyInfo {
            id: latest_id,
            version: "9".to_string()
        }
    );
}

#[test]
fn selects_version_ten_over_version_two() {
    let versions: Vec<(String, u64)> = (1..=10u64)
        .map(|n| (format!("{}", n), 99 + n))
        .collect();
    assert_eq!(
        KeyInfo::from_symmetric(&versions),
        Ok(KeyInfo {
            id: "109".to_string(),
            version: "10".to_string()
        })
    );
    let reversed: Vec<(String, u64)> = versions.into_iter().rev().collect();
    assert_eq!(
        KeyInfo::from_symmetric(&reversed),
        Ok(KeyInfo {
            id: "109".to_string(),
            version: "10".to_string()
        })
    );
}

#[test]
fn compares_markers_as_numbers_and_not_as_texts() {
    let versions = vec![
        ("1".to_string(), 9u64),
        ("2".to_string(), 10u64),
        ("3".to_string(), 100u64),
        ("4".to_string(), 99u64),
    ];
    assert_eq!(
        KeyInfo::from_symmetric(&versions),
        Ok(KeyInfo {
            id: "100".to_string(),
            version: "3".to_string()
        })
    );
}

#[test]
fn takes_the_first_of_several_versions_of_one_age() {
    let versions = vec![
        ("a".to_string(), 5u64),
        ("b".to_string(), 7u64),
        ("c".to_string(), 7u64),
        ("d".to_string(), 6u64),
    ];
    assert_eq!(
        KeyInfo::from_symmetric(&versions),
        Ok(KeyInfo {
            id: "7".to_string(),
            version: "b".to_string()
        })
    );
}

#[test]
fn writes_the_extreme_markers_in_full() {
    assert_eq!(
        KeyInfo::from_symmetric(&vec![("1".to_string(), 0u64)]),
        Ok(KeyInfo {
            id: "0".to_string(),
            version: "1".to_string()
        })
    );
    assert_eq!(
        KeyInfo::from_symmetric(&vec![("1".to_string(), 0u64), ("2".to_string(), u64::MAX)]),
        Ok(KeyInfo {
            id: "18446744073709551615".to_string(),
            version: "2".to_string()
        })
    );
}

#[test]
fn a_key_without_versions_cannot_be_resolved() {
    assert_eq!(
        KeyInfo::from_symmetric(&Vec::new()),
        Err(VaultError::KeyVersionResolutionFailure)
    );
    assert_eq!(
        KeyInfo::from_asymmetric(&Vec::new()),
        Err(VaultError::KeyVersionResolutionFailure)
    );
    assert_eq!(
        KeyInfo::from_key_data(&ReadKeyData::Symmetric(Vec::new())),
        Err(VaultError::KeyVersionResolutionFailure)
    );
}

#[test]
fn a_version_without_a_readable_date_cannot_be_resolved() {
    let versions = vec![
        ("1".to_string(), entry("2024-12-02T06:09:19Z", 1)),
        ("2".to_string(), entry("yesterday", 2)),
    ];
    assert_eq!(
        KeyInfo::from_asymmetric(&versions),
        Err(VaultError::KeyVersionResolutionFailure)
    );
}

#[test]
fn reads_the_dates_of_asymmetric_versions_with_their_offsets() {
    let versions = vec![
        ("1".to_string(), entry("2024-12-02T06:09:19+00:00", 1)),
        ("2".to_string(), entry("2024-12-02T08:09:18+02:00", 2)),
        ("3".to_string(), entry("2024-12-02T01:09:20-05:00", 3)),
    ];
    assert_eq!(
        KeyInfo::from_asymmetric(&versions),
        Ok(KeyInfo {
            id: "1733119760".to_string(),
            version: "3".to_string()
        })
    );
}

#[test]
fn writes_a_date_before_the_epoch_with_a_minus_sign() {
    let versions = vec![("1".to_string(), entry("1969-12-31T23:59:18Z", 1))];
    assert_eq!(
        KeyInfo::from_asymmetric(&versions),
        Ok(KeyInfo {
            id: "-42".to_string(),
            version: "1".to_string()
        })
    );
}
