use clickcapture::export_pdf::{
    bytes_le, check_jpeg_page, filter_jpeg_names, image_resource, is_jpeg_file_name,
    max_pdf_bytes, page_content, pdf_file_name, sort_names, PageError, PdfSplitter,
};

fn names(list: &[&str]) -> Vec<Vec<u8>> {
    list.iter().map(|s| s.as_bytes().to_vec()).collect()
}

#[test]
fn jpeg_extensions() {
    for yes in ["0001.jpg", "a.JPG", "photo.jpeg", "x.JpEg", "a.b.jpg", "..jpg", "写真.jpg"] {
        assert!(is_jpeg_file_name(yes.as_bytes()), "{}", yes);
    }
    for no in [".jpg", "jpg", "a.jpg.pdf", "a.png", "a.", "..", "a.jpgx", "a.jp", ""] {
        assert!(!is_jpeg_file_name(no.as_bytes()), "{}", no);
    }
}

#[test]
fn jpeg_extension_matches_path_extension() {
    for n in ["0001.jpg", ".jpg", "a.JPEG", "a.b", "..", "...jpg", "x.jpg.", "y"] {
        let ext = std::path::Path::new(n)
            .extension()
            .map(|e| e.to_string_lossy().to_lowercase());
        let expected = matches!(ext.as_deref(), Some("jpg") | Some("jpeg"));
        assert_eq!(is_jpeg_file_name(n.as_bytes()), expected, "{}", n);
    }
}

#[test]
fn only_jpegs_are_kept_in_order() {
    let all = names(&["b.jpg", "notes.txt", "a.JPEG", "0001.pdf", "c.jpg"]);
    assert_eq!(filter_jpeg_names(&all), names(&["b.jpg", "a.JPEG", "c.jpg"]));
}

#[test]
fn names_sort_bytewise() {
    let all = names(&["0010.jpg", "0002.jpg", "0001.jpg", "B.jpg", "a.jpg", "0002.jpeg"]);
    assert_eq!(
        sort_names(&all),
        names(&["0001.jpg", "0002.jpeg", "0002.jpg", "0010.jpg", "B.jpg", "a.jpg"])
    );
    assert!(bytes_le(b"ab", b"abc"));
    assert!(!bytes_le(b"abc", b"ab"));
    assert!(bytes_le(b"", b""));
}

#[test]
fn page_checks() {
    assert_eq!(check_jpeg_page(0, 10, 10), Err(PageError::EmptyJpeg));
    assert_eq!(check_jpeg_page(5, 0, 10), Err(PageError::InvalidSize { width: 0, height: 10 }));
    assert_eq!(check_jpeg_page(5, 10, 0), Err(PageError::InvalidSize { width: 10, height: 0 }));
    assert_eq!(check_jpeg_page(5, 10, 10), Ok(()));
}

#[test]
fn page_content_uses_300_dpi() {
    assert_eq!(page_content(1000, 500, 1), "q\n240 0 0 120 0 0 cm\n/Image1 Do\nQ\n");
    assert_eq!(page_content(1001, 5, 2), "q\n240.24 0 0 1.2 0 0 cm\n/Image2 Do\nQ\n");
    assert_eq!(image_resource(12), "Image12");
}

#[test]
fn page_size_text_matches_float_printing() {
    for px in [0u32, 1, 3, 5, 10, 25, 99, 1001, 1920, 1080, 1366, 123457, 4_000_000_000] {
        let points = (px as f64) * 72.0 / 300.0;
        let expected = format!("q\n{0} 0 0 {0} 0 0 cm\n/Image1 Do\nQ\n", points);
        assert_eq!(page_content(px, px, 1), expected, "{}", px);
    }
}

#[test]
fn file_names_and_limits() {
    assert_eq!(pdf_file_name(1), "0001.pdf");
    assert_eq!(pdf_file_name(23), "0023.pdf");
    assert_eq!(max_pdf_bytes(20), 20 * 1024 * 1024);
    assert_eq!(max_pdf_bytes(1024), 1024 * 1024 * 1024);
}

#[test]
fn splitting_by_size() {
    let limit = 100u64;
    let mut sp = PdfSplitter::new();
    assert_eq!(sp.finish(), None);
    sp.page_added();
    // A single page over the limit stays.
    assert_eq!(sp.size_checked(500, limit), None);
    sp.page_added();
    assert_eq!(sp.size_checked(80, limit), None);
    sp.page_added();
    // Three pages exceed the limit: the first two go to file 1, the third starts file 2.
    assert_eq!(sp.size_checked(120, limit), Some(1));
    assert_eq!(sp.pdf_index, 2);
    assert_eq!(sp.pages_in_current, 1);
    // A single page over the limit is never split off.
    assert_eq!(sp.size_checked(500, limit), None);
    sp.page_added();
    assert_eq!(sp.size_checked(100, limit), None);
    assert_eq!(sp.finish(), Some(2));
}
