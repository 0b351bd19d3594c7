use tap_plugin_exif::{AttributeValue, Attributes, Context, Exif, ExifAttributes, RawField, RawValue, Tag};

fn entries(a: &Attributes) -> Vec<(String, AttributeValue)> {
    let mut r = Vec::new();
    for i in 0..a.count() {
        let (k, v) = a.get(i);
        r.push((k.clone(), v.clone()));
    }
    r
}

fn push16(b: &mut Vec<u8>, v: u16) {
    b.extend_from_slice(&v.to_le_bytes());
}

fn push32(b: &mut Vec<u8>, v: u32) {
    b.extend_from_slice(&v.to_le_bytes());
}

fn entry(b: &mut Vec<u8>, tag: u16, typ: u16, count: u32, value: u32) {
    push16(b, tag);
    push16(b, typ);
    push32(b, count);
    push32(b, value);
}

/// A little-endian TIFF: the primary IFD holds ImageWidth 640, Make "Canon"
/// and DateTime "2023:07:04 15:30:00"; the thumbnail IFD holds ImageWidth 160.
fn sample_tiff(with_thumbnail: bool) -> Vec<u8> {
    let mut b = vec![b'I', b'I'];
    push16(&mut b, 42);
    push32(&mut b, 8);
    push16(&mut b, 3);
    entry(&mut b, 0x100, 3, 1, 640);
    entry(&mut b, 0x10f, 2, 6, 68);
    entry(&mut b, 0x132, 2, 20, 74);
    push32(&mut b, if with_thumbnail { 50 } else { 0 });
    assert_eq!(b.len(), 50);
    push16(&mut b, 1);
    entry(&mut b, 0x100, 3, 1, 160);
    push32(&mut b, 0);
    assert_eq!(b.len(), 68);
    b.extend_from_slice(b"Canon\0");
    b.extend_from_slice(b"2023:07:04 15:30:00\0");
    b
}

#[test]
fn empty_input_gives_nothing() {
    assert!(Exif {}.to_attributes(&[]).is_none());
}

#[test]
fn non_image_bytes_give_nothing() {
    assert!(Exif {}.to_attributes(b"this is plainly not an image file").is_none());
}

#[test]
fn tiff_primary_and_thumbnail() {
    let data = sample_tiff(true);
    let r = Exif {}.to_attributes(&data).expect("a parsed container");
    assert_eq!(
        entries(&r.primary),
        vec![
            ("image_width".to_string(), AttributeValue::UInt(640)),
            ("make".to_string(), AttributeValue::Str("\"Canon\"".to_string())),
            ("date_time".to_string(), AttributeValue::Timestamp(1_688_484_600)),
        ]
    );
    let t = r.thumbnail.expect("a thumbnail container");
    assert_eq!(entries(&t), vec![("image_width".to_string(), AttributeValue::UInt(160))]);
}

#[test]
fn tiff_without_thumbnail_has_no_thumbnail_key() {
    let data = sample_tiff(false);
    let r = Exif {}.to_attributes(&data).expect("a parsed container");
    assert_eq!(r.primary.count(), 3);
    assert!(r.thumbnail.is_none());
}

#[test]
fn extraction_twice_gives_the_same_tree() {
    let data = sample_tiff(true);
    let a = Exif {}.to_attributes(&data).unwrap();
    let b = Exif {}.to_attributes(&data).unwrap();
    assert_eq!(entries(&a.primary), entries(&b.primary));
    assert_eq!(entries(a.thumbnail.as_ref().unwrap()), entries(b.thumbnail.as_ref().unwrap()));
}

fn none13() -> Vec<Option<RawField>> {
    (0..13).map(|_| None).collect()
}

#[test]
fn nothing_found_gives_empty_primary_only() {
    let r: ExifAttributes = Exif {}.collect_attributes(&none13(), &none13());
    assert_eq!(r.primary.count(), 0);
    assert!(r.thumbnail.is_none());
}

#[test]
fn thumbnail_only_field_gives_both_keys() {
    let mut thumb = none13();
    thumb[4] = Some(RawField { value: RawValue::Ascii(vec![b"Nikon".to_vec()]), display: "\"Nikon\"".to_string() });
    let r = Exif {}.collect_attributes(&none13(), &thumb);
    assert_eq!(r.primary.count(), 0);
    let t = r.thumbnail.expect("a thumbnail container");
    assert_eq!(entries(&t), vec![("make".to_string(), AttributeValue::Str("\"Nikon\"".to_string()))]);
}

#[test]
fn skipped_thumbnail_field_leaves_no_thumbnail() {
    let mut thumb = none13();
    thumb[10] = Some(RawField { value: RawValue::Ascii(vec![b"not a date".to_vec()]), display: String::new() });
    let r = Exif {}.collect_attributes(&none13(), &thumb);
    assert!(r.thumbnail.is_none());
}

#[test]
fn adding_a_taken_name_replaces_its_value() {
    let mut a = Attributes::new();
    let tag = Tag { context: Context::Tiff, number: 0x100 };
    Exif {}.add_field_as_attributes(&mut a, tag, &RawField { value: RawValue::Short(vec![1]), display: "1".to_string() });
    Exif {}.add_field_as_attributes(&mut a, tag, &RawField { value: RawValue::Long(vec![2]), display: "2".to_string() });
    assert_eq!(entries(&a), vec![("image_width".to_string(), AttributeValue::UInt(2))]);
}
