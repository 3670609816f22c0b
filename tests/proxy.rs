use img_proxy::cache::{to_upper_hex, Cache, CachePayload, ToHashStr};
use img_proxy::error::Error;
use img_proxy::format::{FileExtension, Format, Mime};
use img_proxy::pipeline::{get_output_image, transform, App, Picture, Request, Stage, Step};
use img_proxy::s3::{host_swapped, list_keys, put_result, DownloadClient, Operation, RawImage};

fn png_bytes(w: u32, h: u32) -> Vec<u8> {
    let img = image::DynamicImage::new_rgb8(w, h);
    let mut c = std::io::Cursor::new(Vec::new());
    img.write_to(&mut c, image::ImageFormat::Png).unwrap();
    c.into_inner()
}

fn cache() -> Cache {
    Cache { prefix: Some("cache".to_string()) }
}

#[test]
fn extensions_and_mimes() {
    assert_eq!(FileExtension::from(Format::Jpeg).to_string(), ".jpg");
    assert_eq!(FileExtension::from(Format::Png).to_string(), ".png");
    assert_eq!(FileExtension::from(Format::Webp).to_string(), ".webp");
    assert_eq!(FileExtension::from(Format::Avif).to_string(), ".avif");
    assert_eq!(Mime::from(Format::Jpeg).to_string(), "image/jpeg");
    assert_eq!(Mime::from(Format::Png).to_string(), "image/png");
    assert_eq!(Mime::from(Format::Webp).to_string(), "image/webp");
    assert_eq!(Mime::from(Format::Avif).to_string(), "image/avif");
}

#[test]
fn mime_parsing() {
    assert_eq!(Mime::from_str("image/jpeg").unwrap().format(), Format::Jpeg);
    assert_eq!(Mime::from_str("image/png").unwrap().format(), Format::Png);
    assert!(matches!(Mime::from_str("image/webp"), Err(Error::ParseError)));
    assert!(matches!(Mime::from_str(""), Err(Error::ParseError)));
    assert!(matches!(Mime::from_str("image/pngx"), Err(Error::ParseError)));
}

#[test]
fn upper_hex_rendering() {
    assert_eq!(to_upper_hex(0), "0");
    assert_eq!(to_upper_hex(0x1A2B3C), "1A2B3C");
    assert_eq!(to_upper_hex(u64::MAX), "FFFFFFFFFFFFFFFF");
    for n in [1u64, 15, 16, 255, 4096, 123456789] {
        assert_eq!(to_upper_hex(n), format!("{:X}", n));
    }
}

#[test]
fn stem_truncates_at_first_dot() {
    let p = CachePayload::new("photo.full.jpg", None, Some(10), Format::Jpeg);
    assert_eq!(p.object, "photo");
    let q = CachePayload::new("plain", Some(1), None, Format::Png);
    assert_eq!(q.object, "plain");
    let e = CachePayload::new(".hidden", None, None, Format::Png);
    assert_eq!(e.object, "");
}

#[test]
fn fingerprint_is_deterministic() {
    let a = CachePayload::new("photo.jpg", Some(100), Some(200), Format::Jpeg);
    let b = CachePayload::new("photo.png", Some(100), Some(200), Format::Jpeg);
    assert_eq!(a.to_hash_str(), b.to_hash_str());
    assert_eq!(a.to_hash_str(), a.to_hash_str());
}

#[test]
fn fingerprint_sensitivity() {
    let a = CachePayload::new("A", Some(100), Some(200), Format::Jpeg);
    let b = CachePayload::new("A", Some(100), Some(201), Format::Jpeg);
    let c = CachePayload::new("A", Some(100), Some(200), Format::Png);
    assert_ne!(a.to_hash_str(), b.to_hash_str());
    assert_eq!(a.to_hash_str(), c.to_hash_str());
}

#[test]
fn cache_name_composition() {
    let key = CachePayload::new("photo.jpg", None, Some(50), Format::Png);
    let hash = key.to_hash_str();
    assert_eq!(cache().full_title(&key), format!("cache/{}.png", hash));
    let bare = Cache { prefix: None };
    assert_eq!(bare.full_title(&key), format!("{}.png", hash));
}

#[test]
fn fetch_response_interpretation() {
    assert!(matches!(RawImage::from_request(404, Some("image/png"), vec![1]), Err(Error::StatusCode(404))));
    assert!(matches!(RawImage::from_request(200, None, vec![1]), Err(Error::ParseError)));
    assert!(matches!(RawImage::from_request(200, Some("image/webp"), vec![1]), Err(Error::ParseError)));
    let r = RawImage::from_request(200, Some("image/png"), vec![1, 2, 3]).unwrap();
    assert_eq!(r.format, Format::Png);
    assert_eq!(r.bytes, vec![1, 2, 3]);
}

#[test]
fn put_response_interpretation() {
    assert!(put_result(200).is_ok());
    assert!(put_result(204).is_ok());
    assert!(matches!(put_result(403), Err(Error::StatusCode(403))));
}

#[test]
fn listing_keeps_filtered_keys() {
    let body = "<ListBucketResult><Contents><Key> a.png </Key></Contents>\
                <Contents><Key>b.jpg</Key></Contents><Contents><Key>c.png</Key></Contents></ListBucketResult>";
    let keys = list_keys(200, body, ".png").unwrap();
    assert_eq!(keys, vec!["a.png".to_string(), "c.png".to_string()]);
    assert!(matches!(list_keys(200, "<a><b></a>", ".png"), Err(Error::ParseError)));
    assert!(matches!(list_keys(500, body, ".png"), Err(Error::StatusCode(500))));
}

#[test]
fn client_configuration() {
    assert!(matches!(
        DownloadClient::new("not a url", "cdn.example.com".into(), "b".into(), "r".into(), "k", "s"),
        Err(Error::Configuration)
    ));
    assert!(matches!(
        DownloadClient::new("ftp://s3.example.com", "cdn.example.com".into(), "b".into(), "r".into(), "k", "s"),
        Err(Error::Configuration)
    ));
    assert!(App::new("https://s3.example.com", "cdn.example.com".into(), "b".into(), "r".into(), "k", "s").is_ok());
}

#[test]
fn presigned_url_goes_to_cdn_host() {
    let c = DownloadClient::new("https://s3.example.com", "cdn.example.com".into(), "bucket".into(), "us-east-1".into(), "key", "secret").unwrap();
    let u = c.presigned_url(Operation::Get, "photo.jpg").unwrap();
    assert!(u.starts_with("https://cdn.example.com/photo.jpg?"));
    assert!(u.contains("X-Amz-Signature="));
    assert!(u.contains("X-Amz-Expires=10&"));
    assert!(u.contains("&X-Amz-Signature="));
    let p = c.presigned_url(Operation::Put, "cache/1A.jpg").unwrap();
    assert!(p.starts_with("https://cdn.example.com/cache/1A.jpg?"));
    assert!(matches!(c.presigned_url(Operation::Get, "//"), Err(Error::ParseError)));
    assert!(matches!(c.presigned_url(Operation::Put, "//x/y"), Err(Error::ParseError)));
    let l = c.presigned_url(Operation::List, "").unwrap();
    assert!(l.starts_with("https://cdn.example.com/?"));
}

fn picture(w: u32, h: u32) -> Picture {
    Picture { width: w, height: h, pixels: vec![7; (w * h * 3) as usize] }
}

#[test]
fn zero_dimension_passes_through() {
    let out = get_output_image(picture(40, 30), 0, 10);
    assert_eq!((out.width, out.height), (40, 30));
    assert_eq!(out.pixels, picture(40, 30).pixels);
    let out = get_output_image(picture(40, 30), 10, 0);
    assert_eq!((out.width, out.height), (40, 30));
    let out = get_output_image(picture(40, 30), 20, 20);
    assert_eq!((out.width, out.height), (20, 15));
    let out = get_output_image(picture(30, 40), 20, 20);
    assert_eq!((out.width, out.height), (15, 20));
    assert_eq!(out.pixels.len(), 20 * 15 * 3);
}

#[test]
fn transform_resizes_and_encodes_jpeg() {
    let raw = RawImage { format: Format::Png, bytes: png_bytes(40, 30) };
    let out = transform(&raw, "pic", 20, 20).unwrap();
    assert_eq!((out.width, out.height), (20, 15));
    assert_eq!(out.filename_ext, "pic.jpg");
    assert_eq!(out.format, Format::Jpeg);
    assert_eq!(&out.vec[0..2], &[0xFF, 0xD8]);
    let same = transform(&raw, "pic", 0, 20).unwrap();
    assert_eq!((same.width, same.height), (40, 30));
    let bad = RawImage { format: Format::Png, bytes: vec![1, 2, 3] };
    assert!(matches!(transform(&bad, "pic", 20, 20), Err(Error::ImageDecode)));
    let wrong_format = RawImage { format: Format::Jpeg, bytes: png_bytes(4, 4) };
    assert!(matches!(transform(&wrong_format, "pic", 2, 2), Err(Error::ImageDecode)));
}

#[test]
fn write_names_file_by_format() {
    let out = img_proxy::pipeline::write(&picture(8, 6), Format::Png, "thumb").unwrap();
    assert_eq!(out.filename_ext, "thumb.png");
    assert_eq!((out.width, out.height), (8, 6));
    assert_eq!(&out.vec[1..4], b"PNG");
    let bad = Picture { width: 8, height: 6, pixels: vec![0; 3] };
    assert!(matches!(img_proxy::pipeline::write(&bad, Format::Png, "x"), Err(Error::ImageEncode)));
    let long = Picture { width: 1, height: 1, pixels: vec![0; 6] };
    assert!(matches!(img_proxy::pipeline::write(&long, Format::Jpeg, "x"), Err(Error::ImageEncode)));
    assert!(matches!(img_proxy::pipeline::write(&long, Format::Png, "x"), Err(Error::ImageEncode)));
}

#[test]
fn cache_hit_returns_cached_bytes_untouched() {
    let c = cache();
    let (req, step) = Request::start(&c, "photo.jpg".to_string(), 10, 20);
    let key = CachePayload::new("photo.jpg", Some(10), Some(20), Format::Jpeg);
    match step {
        Step::Fetch(name) => assert_eq!(name, c.full_title(&key)),
        _ => panic!("expected a cache lookup"),
    }
    // not an image: a decode would fail
    let cached = RawImage { format: Format::Jpeg, bytes: vec![9, 9, 9] };
    let (req, step) = req.on_fetched(&c, Ok(cached));
    assert!(matches!(req.stage, Stage::Done));
    match step {
        Step::Respond(Ok(b)) => assert_eq!(b, vec![9, 9, 9]),
        _ => panic!("expected the cached bytes"),
    }
}

#[test]
fn miss_path_survives_cache_write_failure() {
    let c = cache();
    let (req, lookup) = Request::start(&c, "photo.png".to_string(), 20, 20);
    let lookup_name = match lookup {
        Step::Fetch(name) => name,
        _ => panic!("expected a cache lookup"),
    };
    let (req, step) = req.on_fetched(&c, Err(Error::StatusCode(404)));
    match step {
        Step::Fetch(name) => assert_eq!(name, "photo.png"),
        _ => panic!("expected the original fetch"),
    }
    let raw = RawImage { format: Format::Png, bytes: png_bytes(40, 30) };
    let (req, step) = req.on_fetched(&c, Ok(raw));
    let output = match step {
        Step::Store(name, bytes, format) => {
            let key = CachePayload::new("photo.png", Some(20), Some(20), Format::Jpeg);
            assert_eq!(name, c.full_title(&key));
            assert_eq!(name, lookup_name);
            assert_eq!(format, Format::Jpeg);
            bytes
        }
        _ => panic!("expected a cache write"),
    };
    let (req, step) = req.on_stored(Err(Error::StatusCode(500)));
    assert!(matches!(req.stage, Stage::Done));
    match step {
        Step::Respond(Ok(b)) => assert_eq!(b, output),
        _ => panic!("expected the transformed bytes"),
    }
}

#[test]
fn unsupported_mime_fails_request() {
    let c = cache();
    let (req, _) = Request::start(&c, "photo.webp".to_string(), 20, 20);
    let (req, _) = req.on_fetched(&c, Err(Error::Transport));
    let fetched = RawImage::from_request(200, Some("image/webp"), vec![1]);
    let (req, step) = req.on_fetched(&c, fetched);
    assert!(matches!(req.stage, Stage::Done));
    assert!(matches!(step, Step::Respond(Err(Error::ParseError))));
}

#[test]
fn host_rewrite_keeps_path_and_signature() {
    let c = DownloadClient::new("https://s3.example.com", "cdn.example.com".into(), "bucket".into(), "r".into(), "k", "s").unwrap();
    let signed = "https://bucket.s3.example.com/photo.jpg?X-Amz-Expires=10&X-Amz-Signature=abc";
    let out = c.use_cdn_url(signed).unwrap();
    assert_eq!(out, "https://cdn.example.com/photo.jpg?X-Amz-Expires=10&X-Amz-Signature=abc");
    assert!(host_swapped(signed, &out, "cdn.example.com"));
    let with_port = "http://bucket.local:9000/a/b.png?sig=1";
    assert_eq!(c.use_cdn_url(with_port).unwrap(), "http://cdn.example.com:9000/a/b.png?sig=1");
    assert!(matches!(c.use_cdn_url("not a url"), Err(Error::ParseError)));
    let empty = DownloadClient::new("https://s3.example.com", "".into(), "bucket".into(), "r".into(), "k", "s").unwrap();
    assert!(matches!(empty.use_cdn_url(signed), Err(Error::ParseError)));
}

#[test]
fn host_swap_detection() {
    assert!(host_swapped("https://a.b/p?q", "https://x/p?q", "x"));
    assert!(!host_swapped("https://a.b/p?q", "https://x/p?r", "x"));
    assert!(!host_swapped("https://a.b/p?q", "http://x/p?q", "x"));
    assert!(!host_swapped("no scheme", "no scheme", "x"));
}

#[test]
fn trimming_matches_str_trim() {
    for s in ["", "   ", " a b ", "\t\n key.png \r", "\u{3000}x\u{85}", "\u{a0}\u{2000}y\u{200a}\u{2029}", "z"] {
        assert_eq!(img_proxy::text::trim_text(s), s.trim());
    }
}
