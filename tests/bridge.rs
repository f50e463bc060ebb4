use occlum::error::Error;
use occlum::marshal::CStringsVec;
use occlum::text::{validate_all, CText};

#[test]
fn marshaled_values_end_with_sentinel() {
    let values = vec!["a".to_string(), "bc".to_string(), "".to_string()];
    let m = CStringsVec::from_strings(&values).unwrap();
    assert_eq!(m.slot_count(), 4);
    assert_eq!(m.slot(0), Some(0));
    assert_eq!(m.slot(1), Some(1));
    assert_eq!(m.slot(2), Some(2));
    assert_eq!(m.slot(3), None);
    assert_eq!(m.storage_at(0), b"a\0");
    assert_eq!(m.storage_at(1), b"bc\0");
    assert_eq!(m.storage_at(2), b"\0");
}

#[test]
fn marshaling_nothing_gives_sentinel_only() {
    let values: Vec<String> = vec![];
    let m = CStringsVec::from_strings(&values).unwrap();
    assert_eq!(m.slot_count(), 1);
    assert_eq!(m.slot(0), None);
}

#[test]
fn marshaling_rejects_null_byte() {
    let values = vec!["ok".to_string(), "b\0ad".to_string()];
    assert!(matches!(CStringsVec::from_strings(&values), Err(Error::CStringError)));
}

#[test]
fn marshaling_validated_texts() {
    let texts = vec![CText::new("x=1").unwrap(), CText::new("héllo").unwrap()];
    let m = CStringsVec::new(texts).unwrap();
    assert_eq!(m.slot_count(), 3);
    assert_eq!(m.storage_at(1), "héllo\0".as_bytes());
    assert_eq!(m.slot(2), None);
}

#[test]
fn text_validation() {
    assert_eq!(CText::new("abc").unwrap().as_bytes(), b"abc");
    assert_eq!(CText::new("a\0c"), Err(Error::CStringError));
    assert_eq!(CText::from_bytes(&[1, 2, 0]), Err(Error::CStringError));
    assert_eq!(CText::new("abc").unwrap().to_bytes_with_nul(), b"abc\0".to_vec());
    assert_eq!(CText::empty().as_bytes(), b"");
    let t = CText::new("q").unwrap();
    assert_eq!(t.clone(), t);
}

#[test]
fn validate_all_keeps_order() {
    let v = vec!["x".to_string(), "yz".to_string()];
    let t = validate_all(&v).unwrap();
    assert_eq!(t.len(), 2);
    assert_eq!(t[0].as_bytes(), b"x");
    assert_eq!(t[1].as_bytes(), b"yz");
    let bad = vec!["x".to_string(), "\0".to_string()];
    assert_eq!(validate_all(&bad), Err(Error::CStringError));
}
