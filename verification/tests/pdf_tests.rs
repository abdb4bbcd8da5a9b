use clickcapture::capture::encode_capture;
use clickcapture::export_pdf::PageError;
use clickcapture::pdf_document::{PdfBuilder, PdfError, PdfExporter};

fn media_box(width: u32, height: u32) -> lopdf::Object {
    lopdf::Object::Array(vec![
        lopdf::Object::Integer(0),
        lopdf::Object::Integer(0),
        lopdf::Object::Real((width as f64 * 72.0 / 300.0) as f32),
        lopdf::Object::Real((height as f64 * 72.0 / 300.0) as f32),
    ])
}

fn small_jpeg() -> Vec<u8> {
    let bgr = vec![0u8, 0, 255, 0, 255, 0, 0, 0, 255, 0, 0, 255, 255, 255, 0, 0];
    encode_capture(&bgr, 2, 2, 95).expect("encodes")
}

fn jpeg_of(width: u32, height: u32, shade: u8) -> Vec<u8> {
    let row = ((width as usize * 3 + 3) / 4) * 4;
    let bgr = vec![shade; row * height as usize];
    encode_capture(&bgr, width, height, 95).expect("encodes")
}

/// The image of each page, in page order: its stream content, width and height; each
/// image must be a JPEG stream (`DCTDecode`).
fn page_images(bytes: &[u8]) -> Vec<(Vec<u8>, i64, i64)> {
    let doc = lopdf::Document::load_mem(bytes).expect("parses");
    let mut out = Vec::new();
    for (_, id) in doc.get_pages() {
        let page = doc.get_dictionary(id).expect("page");
        let resources = page.get(b"Resources").and_then(|o| o.as_dict()).expect("resources");
        let xobjects = resources.get(b"XObject").and_then(|o| o.as_dict()).expect("xobjects");
        let (_, reference) = xobjects.iter().next().expect("an image");
        let image = doc
            .get_object(reference.as_reference().expect("reference"))
            .and_then(|o| o.as_stream())
            .expect("stream");
        assert_eq!(image.dict.get(b"Filter").and_then(|o| o.as_name()).expect("filter"), b"DCTDecode");
        let width = image.dict.get(b"Width").and_then(|o| o.as_i64()).expect("width");
        let height = image.dict.get(b"Height").and_then(|o| o.as_i64()).expect("height");
        out.push((image.content.clone(), width, height));
    }
    out
}

fn page_count(bytes: &[u8]) -> usize {
    lopdf::Document::load_mem(bytes).expect("parses").get_pages().len()
}

#[test]
fn builder_refuses_empty_or_sizeless_images() {
    let mut b = PdfBuilder::new();
    assert_eq!(
        b.add_jpeg_page(Vec::new(), 10, 10, media_box(10, 10)),
        Err(PdfError::Page(PageError::EmptyJpeg))
    );
    assert_eq!(
        b.add_jpeg_page(small_jpeg(), 0, 10, media_box(0, 10)),
        Err(PdfError::Page(PageError::InvalidSize { width: 0, height: 10 }))
    );
    assert!(b.pages.is_empty());
    assert_eq!(b.current_image_counter, 1);
}

#[test]
fn builder_writes_one_page_per_image() {
    let mut b = PdfBuilder::new();
    assert_eq!(b.add_jpeg_page(small_jpeg(), 2, 2, media_box(2, 2)), Ok(()));
    assert_eq!(b.add_jpeg_page(small_jpeg(), 2, 2, media_box(2, 2)), Ok(()));
    assert_eq!(b.pages.len(), 2);
    assert_eq!(b.current_image_counter, 3);
    let bytes = b.to_bytes().expect("writes");
    assert!(bytes.starts_with(b"%PDF-1.5"));
    assert!(bytes.ends_with(b"%%EOF"));
    assert_eq!(page_count(&bytes), 2);
    assert_eq!(b.estimate_size().expect("estimates") > 0, true);
}

#[test]
fn pages_embed_their_jpeg_unchanged() {
    let mut b = PdfBuilder::new();
    let first = jpeg_of(2, 2, 10);
    let second = jpeg_of(1, 1, 200);
    b.add_jpeg_page(first.clone(), 2, 2, media_box(2, 2)).expect("adds");
    b.add_jpeg_page(second.clone(), 1, 1, media_box(1, 1)).expect("adds");
    assert_eq!(b.current_image_counter, 3);
    let images = page_images(&b.to_bytes().expect("writes"));
    assert_eq!(images, vec![(first, 2, 2), (second, 1, 1)]);
}

#[test]
fn empty_document_has_no_pages() {
    let mut b = PdfBuilder::new();
    assert_eq!(b.finalize(), Ok(()));
    assert!(b.pages.is_empty());
    let bytes = b.to_bytes().expect("writes");
    assert!(bytes.starts_with(b"%PDF-") && bytes.ends_with(b"%%EOF"));
    assert!(b.estimate_size().expect("estimates") >= 10);
}

#[test]
fn export_under_the_limit_makes_one_file() {
    let mut e = PdfExporter::new(20);
    assert_eq!(e.max_bytes, 20 * 1024 * 1024);
    for _ in 0..3 {
        assert!(e.add_page(small_jpeg(), 2, 2, media_box(2, 2)).expect("adds").is_none());
    }
    let last = e.finish().expect("a file");
    assert_eq!(last.index, 1);
    assert_eq!(page_count(&last.bytes), 3);
}

#[test]
fn export_over_the_limit_splits_page_by_page() {
    // A limit of zero bytes: every file is over it as soon as it has two pages.
    let mut e = PdfExporter::new(0);
    assert!(e.add_page(small_jpeg(), 2, 2, media_box(2, 2)).expect("adds").is_none());
    let first = e.add_page(small_jpeg(), 2, 2, media_box(2, 2)).expect("adds").expect("split");
    assert_eq!(first.index, 1);
    assert_eq!(page_count(&first.bytes), 1);
    let second = e.add_page(small_jpeg(), 2, 2, media_box(2, 2)).expect("adds").expect("split");
    assert_eq!(second.index, 2);
    assert_eq!(page_count(&second.bytes), 1);
    let last = e.finish().expect("a file");
    assert_eq!(last.index, 3);
    assert_eq!(page_count(&last.bytes), 1);
}

#[test]
fn split_files_hold_each_image_once_in_order() {
    let images: Vec<Vec<u8>> = (0..3u8).map(|k| jpeg_of(2, 2, 40 * k + 10)).collect();
    let mut e = PdfExporter::new(0);
    let mut files = Vec::new();
    for image in &images {
        if let Some(pdf) = e.add_page(image.clone(), 2, 2, media_box(2, 2)).expect("adds") {
            files.push(pdf);
        }
    }
    files.push(e.finish().expect("a file"));
    let mut seen = Vec::new();
    for (k, pdf) in files.iter().enumerate() {
        assert_eq!(pdf.index as usize, k + 1);
        for (content, _, _) in page_images(&pdf.bytes) {
            seen.push(content);
        }
    }
    assert_eq!(seen, images);
}

#[test]
fn export_of_nothing_writes_nothing() {
    let mut e = PdfExporter::new(20);
    assert!(e.finish().is_none());
    assert_eq!(
        e.add_page(Vec::new(), 2, 2, media_box(2, 2)).map(|r| r.is_none()),
        Err(PdfError::Page(PageError::EmptyJpeg))
    );
}

#[test]
fn split_files_stay_within_the_limit() {
    let limit = 1024 * 1024;
    let mut e = PdfExporter::new(1);
    let mut files = Vec::new();
    for k in 0..5u8 {
        let blob = vec![k + 1; 400 * 1024];
        if let Some(pdf) = e.add_page(blob, 2, 2, media_box(2, 2)).expect("adds") {
            files.push(pdf);
        }
    }
    files.push(e.finish().expect("a file"));
    let counts: Vec<usize> = files.iter().map(|f| page_count(&f.bytes)).collect();
    assert_eq!(counts, vec![2, 2, 1]);
    for f in &files {
        assert!(f.bytes.len() <= limit);
    }
}
