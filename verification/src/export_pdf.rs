//! Export of the saved JPEG captures to PDF files: which files become pages and in which
//! order, the checks and the drawing commands of a page, and where the output is split
//! into several numbered files to respect the size limit.

use vstd::prelude::*;

use crate::text::{append_decimal, append_zero_padded, decimal, zero_padded};

verus! {

// ----- which files, in which order -----

/// The ASCII lower-case form of a byte.
pub open spec fn ascii_lower(b: u8) -> u8 {
    if 65 <= b <= 90 {
        (b + 32) as u8
    } else {
        b
    }
}

/// Whether `name` contains a `.` at some position at or after `from`.
pub open spec fn has_dot_from(name: Seq<u8>, from: int) -> bool {
    exists|i: int| from <= i < name.len() && name[i] == 46
}

/// The extension of a file name as `Path::extension` sees it: what follows the last `.`,
/// provided that dot is not the first byte of the name (nor the name the parent-directory
/// entry `..`).
pub open spec fn extension_of(name: Seq<u8>) -> Option<Seq<u8>> {
    if name == seq![46u8, 46u8] {
        None
    } else if exists|k: int| 0 < k < name.len() && name[k] == 46 && !has_dot_from(name, k + 1) {
        let k = choose|k: int| 0 < k < name.len() && name[k] == 46 && !has_dot_from(name, k + 1);
        Some(name.subrange(k + 1, name.len() as int))
    } else {
        None
    }
}

/// Whether `ext`, compared without regard to ASCII case, is `jpg` or `jpeg`.
pub open spec fn is_jpeg_extension(ext: Seq<u8>) -> bool {
    let l = ext.map_values(|b: u8| ascii_lower(b));
    l == seq![106u8, 112u8, 103u8] || l == seq![106u8, 112u8, 101u8, 103u8]
}

/// Whether a file (given by the bytes of its name) is taken as a page: its extension is
/// `jpg` or `jpeg` in any case.
pub open spec fn is_jpeg_name(name: Seq<u8>) -> bool {
    extension_of(name) matches Some(ext) && is_jpeg_extension(ext)
}

fn lower(b: u8) -> (r: u8)
    ensures
        r == ascii_lower(b),
{
    if 65 <= b && b <= 90 {
        b + 32
    } else {
        b
    }
}

/// Tells whether a file name (its UTF-8 bytes) has the extension `jpg` or `jpeg`, in
/// any case.
pub fn is_jpeg_file_name(name: &[u8]) -> (r: bool)
    ensures
        r == is_jpeg_name(name@),
{
    let n = name.len();
    if n == 2 && name[0] == 46 && name[1] == 46 {
        assert(name@ =~= seq![46u8, 46u8]);
        return false;
    }
    let mut k: usize = n;
    while k > 0 && name[k - 1] != 46
        invariant
            n == name@.len(),
            k <= n,
            !has_dot_from(name@, k as int),
        decreases k,
    {
        k = k - 1;
    }
    if k <= 1 {
        // No dot, or the only dot is the first byte.
        proof {
            if exists|j: int| 0 < j < name@.len() && name@[j] == 46 && !has_dot_from(name@, j + 1) {
                let j = choose|j: int|
                    0 < j < name@.len() && name@[j] == 46 && !has_dot_from(name@, j + 1);
                assert(name@[j] == 46);
            }
        }
        return false;
    }
    let dot = k - 1;
    proof {
        let name_s = name@;
        assert(0 < dot < name_s.len() && name_s[dot as int] == 46 && !has_dot_from(
            name_s,
            dot + 1,
        ));
        let j = choose|j: int| 0 < j < name_s.len() && name_s[j] == 46 && !has_dot_from(name_s, j + 1);
        if j < dot {
            assert(has_dot_from(name_s, j + 1));
        }
        if j > dot {
            assert(has_dot_from(name_s, dot + 1));
        }
        assert(name_s != seq![46u8, 46u8]) by {
            if name_s == seq![46u8, 46u8] {
                assert(name_s.len() == 2);
            }
        }
    }
    let len = n - k;
    let ghost ext = name@.subrange(k as int, n as int);
    let ghost l = ext.map_values(|b: u8| ascii_lower(b));
    if len == 3 {
        let r = lower(name[k]) == 106 && lower(name[k + 1]) == 112 && lower(name[k + 2]) == 103;
        proof {
            assert(l[0] == ascii_lower(name@[k as int]));
            assert(l[1] == ascii_lower(name@[k + 1]));
            assert(l[2] == ascii_lower(name@[k + 2]));
            if r {
                assert(l =~= seq![106u8, 112u8, 103u8]);
            }
            assert(l.len() != 4);
        }
        r
    } else if len == 4 {
        let r = lower(name[k]) == 106 && lower(name[k + 1]) == 112 && lower(name[k + 2]) == 101
            && lower(name[k + 3]) == 103;
        proof {
            assert(l[0] == ascii_lower(name@[k as int]));
            assert(l[1] == ascii_lower(name@[k + 1]));
            assert(l[2] == ascii_lower(name@[k + 2]));
            assert(l[3] == ascii_lower(name@[k + 3]));
            if r {
                assert(l =~= seq![106u8, 112u8, 101u8, 103u8]);
            }
            assert(l.len() != 3);
        }
        r
    } else {
        assert(l.len() != 3 && l.len() != 4);
        false
    }
}


/// The contents of a list of byte strings.
pub open spec fn views(s: Seq<Vec<u8>>) -> Seq<Seq<u8>> {
    s.map_values(|v: Vec<u8>| v@)
}

/// The names of the files that become pages, in the order listed.
pub open spec fn jpeg_names(names: Seq<Seq<u8>>) -> Seq<Seq<u8>> {
    names.filter(|n: Seq<u8>| is_jpeg_name(n))
}

/// Keeps the names of the JPEG files, in their order.
pub fn filter_jpeg_names(names: &Vec<Vec<u8>>) -> (r: Vec<Vec<u8>>)
    ensures
        views(r@) == jpeg_names(views(names@)),
{
    let ghost pred = |n: Seq<u8>| is_jpeg_name(n);
    let ghost all = views(names@);
    let mut r: Vec<Vec<u8>> = Vec::new();
    let mut i: usize = 0;
    let n = names.len();
    assert(all.take(0) =~= Seq::<Seq<u8>>::empty());
    proof {
        reveal_with_fuel(Seq::<_>::filter, 1);
    }
    while i < n
        invariant
            n == names@.len(),
            all == views(names@),
            pred == (|n: Seq<u8>| is_jpeg_name(n)),
            i <= n,
            views(r@) == all.take(i as int).filter(pred),
        decreases n - i,
    {
        let keep = is_jpeg_file_name(names[i].as_slice());
        let ghost before = r@;
        proof {
            reveal_with_fuel(Seq::<_>::filter, 1);
            assert(all.take(i + 1).drop_last() =~= all.take(i as int));
            assert(all.take(i + 1).last() == names@[i as int]@);
        }
        if keep {
            let x = names[i].clone();
            r.push(x);
            assert(views(r@) =~= views(before).push(names@[i as int]@));
        }
        proof {
            reveal_with_fuel(Seq::<_>::filter, 1);
            let t = all.take(i + 1);
            assert(pred(t.last()) == keep);
            assert(t.filter(pred) == (if pred(t.last()) {
                t.drop_last().filter(pred).push(t.last())
            } else {
                t.drop_last().filter(pred)
            }));
        }
        i = i + 1;
    }
    assert(all.take(n as int) =~= all);
    r
}

/// Lexicographic order of byte strings (a prefix comes first).
pub open spec fn lex_le(a: Seq<u8>, b: Seq<u8>) -> bool
    decreases a.len(),
{
    if a.len() == 0 {
        true
    } else if b.len() == 0 {
        false
    } else if a[0] < b[0] {
        true
    } else if a[0] > b[0] {
        false
    } else {
        lex_le(a.drop_first(), b.drop_first())
    }
}

/// Any two byte strings are ordered one way or the other.
pub proof fn lemma_lex_total(a: Seq<u8>, b: Seq<u8>)
    ensures
        lex_le(a, b) || lex_le(b, a),
    decreases a.len(),
{
    if a.len() > 0 && b.len() > 0 && a[0] == b[0] {
        lemma_lex_total(a.drop_first(), b.drop_first());
    }
}

/// The order is transitive.
pub proof fn lemma_lex_transitive(a: Seq<u8>, b: Seq<u8>, c: Seq<u8>)
    requires
        lex_le(a, b),
        lex_le(b, c),
    ensures
        lex_le(a, c),
    decreases a.len(),
{
    if a.len() > 0 && b.len() > 0 && c.len() > 0 && a[0] == b[0] && b[0] == c[0] {
        lemma_lex_transitive(a.drop_first(), b.drop_first(), c.drop_first());
    }
}

/// Two byte strings ordered both ways are equal.
pub proof fn lemma_lex_antisymmetric(a: Seq<u8>, b: Seq<u8>)
    requires
        lex_le(a, b),
        lex_le(b, a),
    ensures
        a == b,
    decreases a.len(),
{
    if a.len() > 0 && b.len() > 0 {
        lemma_lex_antisymmetric(a.drop_first(), b.drop_first());
        assert(a =~= seq![a[0]] + a.drop_first());
        assert(b =~= seq![b[0]] + b.drop_first());
    } else {
        assert(a.len() == 0 && b.len() == 0);
        assert(a =~= b);
    }
}

proof fn lemma_lex_skip(a: Seq<u8>, b: Seq<u8>, i: int)
    requires
        0 <= i <= a.len(),
        i <= b.len(),
        a.take(i) == b.take(i),
    ensures
        lex_le(a, b) == lex_le(a.skip(i), b.skip(i)),
    decreases i,
{
    if i > 0 {
        assert(a[0] == a.take(i)[0]);
        assert(b[0] == b.take(i)[0]);
        assert(a.drop_first().take(i - 1) =~= a.take(i).drop_first());
        assert(b.drop_first().take(i - 1) =~= b.take(i).drop_first());
        lemma_lex_skip(a.drop_first(), b.drop_first(), i - 1);
        assert(a.drop_first().skip(i - 1) =~= a.skip(i));
        assert(b.drop_first().skip(i - 1) =~= b.skip(i));
    } else {
        assert(a.skip(0) =~= a);
        assert(b.skip(0) =~= b);
    }
}

/// Compares two byte strings in lexicographic order.
pub fn bytes_le(a: &[u8], b: &[u8]) -> (r: bool)
    ensures
        r == lex_le(a@, b@),
{
    let mut i: usize = 0;
    while i < a.len() && i < b.len() && a[i] == b[i]
        invariant
            i <= a@.len(),
            i <= b@.len(),
            a@.take(i as int) == b@.take(i as int),
        decreases a@.len() - i,
    {
        assert(a@.take(i + 1) =~= a@.take(i as int).push(a@[i as int]));
        assert(b@.take(i + 1) =~= b@.take(i as int).push(b@[i as int]));
        i = i + 1;
    }
    proof {
        lemma_lex_skip(a@, b@, i as int);
    }
    if i == a.len() {
        true
    } else if i == b.len() {
        false
    } else {
        a[i] < b[i]
    }
}

/// Whether the byte strings are in lexicographic order.
pub open spec fn sorted_names(s: Seq<Seq<u8>>) -> bool {
    forall|i: int, j: int| 0 <= i < j < s.len() ==> lex_le(#[trigger] s[i], #[trigger] s[j])
}

/// Sorts file names in lexicographic byte order, the order of paths in one folder.
pub fn sort_names(names: &Vec<Vec<u8>>) -> (r: Vec<Vec<u8>>)
    ensures
        sorted_names(views(r@)),
        views(r@).to_multiset() == views(names@).to_multiset(),
{
    let ghost all = views(names@);
    let mut r: Vec<Vec<u8>> = Vec::new();
    let mut i: usize = 0;
    let n = names.len();
    assert(all.take(0) =~= Seq::<Seq<u8>>::empty());
    assert(views(r@) =~= Seq::<Seq<u8>>::empty());
    while i < n
        invariant
            n == names@.len(),
            all == views(names@),
            i <= n,
            sorted_names(views(r@)),
            views(r@).to_multiset() == all.take(i as int).to_multiset(),
        decreases n - i,
    {
        let x = names[i].clone();
        let mut pos: usize = 0;
        while pos < r.len() && bytes_le(r[pos].as_slice(), x.as_slice())
            invariant
                pos <= r@.len(),
                forall|k: int| 0 <= k < pos ==> lex_le(#[trigger] r@[k]@, x@),
            decreases r@.len() - pos,
        {
            pos = pos + 1;
        }
        let ghost before = views(r@);
        proof {
            if pos < r@.len() {
                assert(before[pos as int] == r@[pos as int]@);
                lemma_lex_total(r@[pos as int]@, x@);
                assert forall|k: int| pos <= k < before.len() implies lex_le(x@, #[trigger] before[k]) by {
                    assert(before[k] == r@[k]@);
                    if k > pos {
                        assert(lex_le(before[pos as int], before[k]));
                        lemma_lex_transitive(x@, before[pos as int], before[k]);
                    }
                }
            }
            assert forall|k: int| 0 <= k < pos implies lex_le(#[trigger] before[k], x@) by {
                assert(before[k] == r@[k]@);
            }
        }
        r.insert(pos, x);
        proof {
            let after = views(r@);
            assert(after =~= before.insert(pos as int, x@));
            assert forall|a: int, b: int| 0 <= a < b < after.len() implies lex_le(
                #[trigger] after[a],
                #[trigger] after[b],
            ) by {
                if b < pos {
                    assert(after[a] == before[a]);
                    assert(after[b] == before[b]);
                } else if a < pos && b == pos {
                    assert(after[a] == before[a]);
                } else if a < pos && b > pos {
                    assert(after[a] == before[a]);
                    assert(after[b] == before[b - 1]);
                    lemma_lex_transitive(before[a], x@, before[b - 1]);
                } else if a == pos {
                    assert(after[b] == before[b - 1]);
                } else {
                    assert(after[a] == before[a - 1]);
                    assert(after[b] == before[b - 1]);
                }
            }
            assert(all.take(i + 1) =~= all.take(i as int).push(all[i as int]));
            assert(all[i as int] == x@);
            vstd::seq_lib::to_multiset_insert(before, pos as int, x@);
            vstd::seq_lib::to_multiset_build(all.take(i as int), x@);
            assert(after.to_multiset() == before.to_multiset().insert(x@));
            assert(all.take(i + 1).to_multiset() == all.take(i as int).to_multiset().insert(x@));
        }
        i = i + 1;
    }
    assert(all.take(n as int) =~= all);
    r
}


// ----- one page -----

/// Why a JPEG file cannot become a page.
#[derive(Clone, Copy, Debug, PartialEq, Eq, Structural)]
pub enum PageError {
    /// The file is empty.
    EmptyJpeg,
    /// The image has no pixels in one direction.
    InvalidSize { width: u32, height: u32 },
}

/// Checks a JPEG file before it becomes a page: it must not be empty, and its image must
/// have pixels in both directions.
pub fn check_jpeg_page(len: usize, width: u32, height: u32) -> (r: Result<(), PageError>)
    ensures
        len == 0 ==> r == Err::<(), PageError>(PageError::EmptyJpeg),
        len != 0 && (width == 0 || height == 0) ==> r == Err::<(), PageError>(
            PageError::InvalidSize { width, height },
        ),
        len != 0 && width != 0 && height != 0 ==> r is Ok,
{
    if len == 0 {
        return Err(PageError::EmptyJpeg);
    }
    if width == 0 || height == 0 {
        return Err(PageError::InvalidSize { width, height });
    }
    Ok(())
}

/// A length of `px` pixels at 300 dots per inch in PDF points (1/72 inch), that is
/// `px * 72 / 300`, written as a decimal number with at most two decimals and no trailing
/// zero after the point (as Rust prints the `f64` value of that quotient).
pub open spec fn points_text(px: nat) -> Seq<char> {
    let n = px * 24;
    let whole = n / 100;
    let frac = n % 100;
    if frac == 0 {
        decimal(whole)
    } else if frac % 10 == 0 {
        decimal(whole) + "."@ + decimal(frac / 10)
    } else {
        decimal(whole) + "."@ + decimal(frac / 10) + decimal(frac % 10)
    }
}

/// The name under which the page's image is referenced: `Image` and its number.
pub open spec fn image_resource_name(index: nat) -> Seq<char> {
    "Image"@ + decimal(index)
}

/// The drawing commands of a page: scale the unit square to the page size and draw the
/// image there.
pub open spec fn page_content_text(width: nat, height: nat, index: nat) -> Seq<char> {
    "q\n"@ + points_text(width) + " 0 0 "@ + points_text(height) + " 0 0 cm\n/"@
        + image_resource_name(index) + " Do\nQ\n"@
}

fn append_points(s: &mut String, px: u32)
    ensures
        final(s)@ == old(s)@ + points_text(px as nat),
{
    let n = px as u64 * 24;
    let whole = n / 100;
    let frac = n % 100;
    let ghost start = s@;
    append_decimal(s, whole);
    if frac != 0 {
        s.append(".");
        append_decimal(s, frac / 10);
        if frac % 10 != 0 {
            append_decimal(s, frac % 10);
        }
    }
    assert(s@ =~= start + points_text(px as nat));
}

/// Builds the name of the image of page number `index` within a file.
pub fn image_resource(index: u32) -> (r: String)
    ensures
        r@ == image_resource_name(index as nat),
{
    let mut s = String::from_str("Image");
    append_decimal(&mut s, index as u64);
    s
}

/// Builds the drawing commands of a page of `width` by `height` pixels showing image
/// number `index`.
pub fn page_content(width: u32, height: u32, index: u32) -> (r: String)
    ensures
        r@ == page_content_text(width as nat, height as nat, index as nat),
{
    let mut s = String::from_str("q\n");
    append_points(&mut s, width);
    s.append(" 0 0 ");
    append_points(&mut s, height);
    s.append(" 0 0 cm\n/");
    let name = image_resource(index);
    s.append(name.as_str());
    s.append(" Do\nQ\n");
    assert(s@ =~= page_content_text(width as nat, height as nat, index as nat));
    s
}

// ----- splitting into files -----

/// The size limit of one PDF file in bytes, for a limit of `mb` megabytes.
pub fn max_pdf_bytes(mb: u16) -> (r: u64)
    ensures
        r == mb as int * 1024 * 1024,
{
    mb as u64 * 1024 * 1024
}

/// The name of PDF file number `index`: at least four digits, then `.pdf`.
pub open spec fn pdf_file_name_text(index: nat) -> Seq<char> {
    zero_padded(index, 4) + ".pdf"@
}

/// Builds the name of PDF file number `index`, such as `0002.pdf`.
pub fn pdf_file_name(index: u32) -> (r: String)
    ensures
        r@ == pdf_file_name_text(index as nat),
{
    let mut s = String::new();
    append_zero_padded(&mut s, index, 4);
    s.append(".pdf");
    s
}

/// The sum of a list of counts.
pub open spec fn sum(s: Seq<nat>) -> nat
    decreases s.len(),
{
    if s.len() == 0 {
        0
    } else {
        sum(s.drop_last()) + s.last()
    }
}

/// Where the pages go while the export runs: the number of the file being built and the
/// pages it holds. `saved_pages` lists the page counts of the files written so far and
/// `total_pages` counts the pages added; both exist for the proof only.
pub struct PdfSplitter {
    pub pdf_index: u32,
    pub pages_in_current: u32,
    pub saved_pages: Ghost<Seq<nat>>,
    pub total_pages: Ghost<nat>,
}

impl PdfSplitter {
    /// The bookkeeping is consistent: files are numbered from one in the order written,
    /// none is empty, and every page added is in exactly one of them or in the file being
    /// built.
    pub open spec fn wf(self) -> bool {
        &&& self.pdf_index == self.saved_pages@.len() + 1
        &&& forall|i: int| 0 <= i < self.saved_pages@.len() ==> #[trigger] self.saved_pages@[i] >= 1
        &&& sum(self.saved_pages@) + self.pages_in_current == self.total_pages@
    }

    /// Before the first page: file number one, empty.
    pub fn new() -> (r: PdfSplitter)
        ensures
            r.wf(),
            r.pdf_index == 1,
            r.pages_in_current == 0,
            r.saved_pages@ == Seq::<nat>::empty(),
            r.total_pages@ == 0,
    {
        PdfSplitter {
            pdf_index: 1,
            pages_in_current: 0,
            saved_pages: Ghost(Seq::empty()),
            total_pages: Ghost(0),
        }
    }

    /// Records that a page was added to the file being built.
    pub fn page_added(&mut self)
        requires
            old(self).wf(),
            old(self).pages_in_current < u32::MAX,
        ensures
            final(self).wf(),
            final(self).pdf_index == old(self).pdf_index,
            final(self).pages_in_current == old(self).pages_in_current + 1,
            final(self).saved_pages@ == old(self).saved_pages@,
            final(self).total_pages@ == old(self).total_pages@ + 1,
    {
        self.pages_in_current = self.pages_in_current + 1;
        self.total_pages = Ghost(self.total_pages@ + 1);
    }

    /// Takes the estimated size of the file being built. When it exceeds the limit and
    /// the file holds more than one page, the file is written without its last page, as
    /// the number returned, and the next file starts with that page.
    pub fn size_checked(&mut self, estimated: usize, max_bytes: u64) -> (r: Option<u32>)
        requires
            old(self).wf(),
            old(self).pdf_index < u32::MAX,
        ensures
            final(self).wf(),
            final(self).total_pages@ == old(self).total_pages@,
            (estimated > max_bytes && old(self).pages_in_current > 1) ==> {
                &&& r == Some(old(self).pdf_index)
                &&& final(self).pdf_index == old(self).pdf_index + 1
                &&& final(self).pages_in_current == 1
                &&& final(self).saved_pages@ == old(self).saved_pages@.push(
                    (old(self).pages_in_current - 1) as nat,
                )
            },
            !(estimated > max_bytes && old(self).pages_in_current > 1) ==> r is None
                && final(self).pdf_index == old(self).pdf_index && final(self).pages_in_current
                == old(self).pages_in_current && final(self).saved_pages@ == old(
                self,
            ).saved_pages@,
    {
        if estimated as u64 > max_bytes && self.pages_in_current > 1 {
            let saved = self.pdf_index;
            let ghost kept = (self.pages_in_current - 1) as nat;
            let ghost old_saved = self.saved_pages@;
            self.saved_pages = Ghost(self.saved_pages@.push(kept));
            assert(self.saved_pages@.drop_last() =~= old_saved);
            self.pdf_index = self.pdf_index + 1;
            self.pages_in_current = 1;
            Some(saved)
        } else {
            None
        }
    }

    /// The number of the last file to write once all pages are added, if it holds any.
    /// Together with the files written before, the files then hold every page added, each
    /// exactly once, and are numbered from one without gap.
    pub fn finish(&self) -> (r: Option<u32>)
        requires
            self.wf(),
        ensures
            self.pages_in_current > 0 ==> r == Some(self.pdf_index),
            self.pages_in_current == 0 ==> r is None,
            sum(self.saved_pages@) + self.pages_in_current == self.total_pages@,
            self.pdf_index == self.saved_pages@.len() + 1,
    {
        if self.pages_in_current > 0 {
            Some(self.pdf_index)
        } else {
            None
        }
    }
}

/// Two files with different numbers have different names.
pub proof fn lemma_pdf_file_names_distinct(n: nat, m: nat)
    requires
        n != m,
    ensures
        pdf_file_name_text(n) != pdf_file_name_text(m),
{
    crate::text::lemma_zero_padded_injective(n, m, 4);
    let a = zero_padded(n, 4);
    let b = zero_padded(m, 4);
    let ext = ".pdf"@;
    if a + ext == b + ext {
        assert((a + ext).len() == a.len() + ext.len());
        assert((b + ext).len() == b.len() + ext.len());
        assert(a =~= (a + ext).subrange(0, a.len() as int));
        assert(b =~= (b + ext).subrange(0, b.len() as int));
    }
}

} // verus!
