use resvg::image::{
    conv_image_data, data_href_parts, get_href_data, is_valid_image_header, DataHrefParts,
    HrefData, ImageData, ImageDataKind, ImageFormat,
};

#[test]
fn writes_data_urls() {
    let raw = ImageData::Raw(b"hello".to_vec());
    assert_eq!(conv_image_data(&raw, ImageFormat::PNG), "data:image/png;base64, aGVsbG8=");
    assert_eq!(conv_image_data(&raw, ImageFormat::JPEG), "data:image/jpg;base64, aGVsbG8=");
    assert_eq!(conv_image_data(&raw, ImageFormat::SVG), "data:image/svg+xml;base64, aGVsbG8=");
    let empty = ImageData::Raw(vec![]);
    assert_eq!(conv_image_data(&empty, ImageFormat::PNG), "data:image/png;base64, ");
    let two = ImageData::Raw(vec![0xff, 0xfe]);
    assert_eq!(conv_image_data(&two, ImageFormat::PNG), "data:image/png;base64, //4=");
    let three = ImageData::Raw(vec![0xfb, 0xff, 0x00]);
    assert_eq!(conv_image_data(&three, ImageFormat::PNG), "data:image/png;base64, +/8A");
    let path = ImageData::Path("images/a.png".to_string());
    assert_eq!(conv_image_data(&path, ImageFormat::PNG), "images/a.png");
}

#[test]
fn reads_data_urls() {
    match get_href_data("data:image/png;base64,aGVsbG8=") {
        HrefData::Raw(d, ImageDataKind::PNG) => assert_eq!(d, b"hello"),
        _ => panic!(),
    }
    match get_href_data("data:image/jpg;base64, aGVs\nbG8=") {
        HrefData::Raw(d, ImageDataKind::JPEG) => assert_eq!(d, b"hello"),
        _ => panic!(),
    }
    assert!(matches!(get_href_data("data:image/gif;base64,aGVsbG8="), HrefData::Invalid));
    assert!(matches!(get_href_data("data:image/png;base64"), HrefData::Invalid));
    assert!(matches!(get_href_data("data:image/png;base64,a*b"), HrefData::Invalid));
    assert!(matches!(get_href_data("image.png"), HrefData::External));
    assert!(matches!(get_href_data("data:text/plain,abc"), HrefData::External));
}

#[test]
fn splits_hrefs() {
    assert!(matches!(
        data_href_parts("data:image/png;base64,xyz"),
        DataHrefParts::Embedded(ImageDataKind::PNG, 22)
    ));
    assert!(matches!(
        data_href_parts("data:image/jpg,xyz"),
        DataHrefParts::Embedded(ImageDataKind::JPEG, 15)
    ));
    assert!(matches!(data_href_parts("data:image/bmp,xyz"), DataHrefParts::Invalid));
    assert!(matches!(data_href_parts("data:imag"), DataHrefParts::External));
}

#[test]
fn written_hrefs_read_back() {
    let data: Vec<u8> = (0..=255u8).chain(0..7u8).collect();
    for (fmt, kind) in [(ImageFormat::PNG, ImageDataKind::PNG), (ImageFormat::JPEG, ImageDataKind::JPEG)].iter() {
        let href = conv_image_data(&ImageData::Raw(data.clone()), *fmt);
        match get_href_data(&href) {
            HrefData::Raw(d, k) => {
                assert_eq!(d, data);
                assert!(k == *kind);
            }
            _ => panic!(),
        }
    }
    let href = conv_image_data(&ImageData::Raw(data.clone()), ImageFormat::SVG);
    assert!(matches!(get_href_data(&href), HrefData::Invalid));
}

#[test]
fn image_headers() {
    assert!(is_valid_image_header(b"\x89PNG\r\n\x1a\n"));
    assert!(is_valid_image_header(&[0xff, 0xd8, 0xff, 0xe0, 0, 0, 0, 0]));
    assert!(!is_valid_image_header(b"GIF89a\0\0"));
    assert!(!is_valid_image_header(b"\x89PNG\r\n\x1a"));
    assert!(!is_valid_image_header(&[]));
}

#[test]
fn payload_without_space_after_comma() {
    match get_href_data("data:image/png;base64,AAAA") {
        HrefData::Raw(d, ImageDataKind::PNG) => assert_eq!(d, vec![0, 0, 0]),
        _ => panic!(),
    }
    match get_href_data("data:image/jpg;base64,aGk=") {
        HrefData::Raw(d, ImageDataKind::JPEG) => assert_eq!(d, b"hi".to_vec()),
        _ => panic!(),
    }
}
