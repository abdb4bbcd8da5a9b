//! Assembly of a PDF document whose pages each show one JPEG image, with the `lopdf`
//! crate. The JPEG data is embedded as it is (`DCTDecode`), without re-encoding.

use vstd::prelude::*;

use crate::export_pdf::{
    check_jpeg_page, image_resource, image_resource_name, max_pdf_bytes, page_content,
    page_content_text, PageError, PdfSplitter,
};
use crate::pdf_model::{dict_get, dict_put, entries_of, lemma_get_put, lemma_put_put, DocumentModel, PdfValue};
use vstd::string::StringSliceAdditionalSpecFns;
use vstd::utf8::encode_utf8;

verus! {

#[verifier::external_type_specification]
#[verifier::external_body]
pub struct ExDocument(lopdf::Document);

#[verifier::external_type_specification]
#[verifier::external_body]
pub struct ExDictionary(lopdf::Dictionary);

#[verifier::external_type_specification]
#[verifier::external_body]
pub struct ExObject(lopdf::Object);

#[verifier::external_type_specification]
#[verifier::external_body]
pub struct ExLopdfError(lopdf::Error);

#[verifier::external_type_specification]
#[verifier::external_body]
pub struct ExIoError(std::io::Error);

/// An identifier of an object in a PDF document: object number and generation.
pub type ObjectId = (u32, u16);

/// Why a PDF document could not be built or written.
#[derive(Clone, Copy, Debug, PartialEq, Eq, Structural)]
pub enum PdfError {
    /// A JPEG file was refused as a page.
    Page(PageError),
    /// The document has no object number left.
    ObjectLimit,
    /// Writing the document failed.
    Write,
}

/// The model of a `lopdf` document, read from its `version`, `binary_mark`, `max_id`,
/// `objects` and `trailer` fields and its cross-reference type.
pub uninterp spec fn document_model(doc: lopdf::Document) -> DocumentModel;

/// The entries of a `lopdf` dictionary, in order.
pub uninterp spec fn dictionary_entries(d: lopdf::Dictionary) -> Seq<(Seq<u8>, PdfValue)>;

/// The value of a `lopdf` object (a real number by the bits of its `f32`).
pub uninterp spec fn object_value(o: lopdf::Object) -> PdfValue;

/// The bytes `lopdf::Document::save_to` writes for a document with this model.
pub uninterp spec fn saved_pdf(m: DocumentModel) -> Seq<u8>;

/// The highest object number the document has given out: the next object added gets the
/// number after it, and none can be added once it is `u32::MAX`.
pub open spec fn document_max_id(doc: lopdf::Document) -> u32 {
    document_model(doc).max_id
}

/// Whether `b` is framed as a PDF file: the header `%PDF-` at its start and the end marker
/// `%%EOF` at its end.
pub open spec fn pdf_framed(b: Seq<u8>) -> bool {
    &&& b.len() >= 5
    &&& b.subrange(0, 5) == seq![37u8, 80u8, 68u8, 70u8, 45u8]
    &&& b.subrange(b.len() - 5, b.len() as int) == seq![37u8, 37u8, 69u8, 79u8, 70u8]
}

/// A PDF frame holds its header and its end marker apart: at least ten bytes.
pub proof fn lemma_pdf_framed_len(b: Seq<u8>)
    requires
        pdf_framed(b),
    ensures
        b.len() >= 10,
{
    if b.len() < 10 {
        let j = b.len() - 5;
        assert(b.subrange(j, b.len() as int)[0] == 37u8);
        assert(b[j] == 37u8);
        assert(b.subrange(j, b.len() as int)[1] == 37u8);
        assert(b[j + 1] == 37u8);
        assert(b.subrange(0, 5)[j] == b[j]);
        assert(b.subrange(0, 5)[j + 1] == b[j + 1]);
    }
}

/// The binary marker lopdf writes after the header of a new document.
pub open spec fn default_binary_mark() -> Seq<u8> {
    seq![0xBBu8, 0xADu8, 0xC0u8, 0xDEu8]
}

/// A new, empty document of the given PDF version.
pub open spec fn fresh_document(version: Seq<char>) -> DocumentModel {
    DocumentModel {
        version,
        binary_mark: default_binary_mark(),
        max_id: 0,
        objects: Map::empty(),
        trailer: Seq::empty(),
        xref_stream: true,
    }
}

/// A stream with the given dictionary and content; the dictionary gets the content length.
pub open spec fn stream_value(dict: Seq<(Seq<u8>, PdfValue)>, content: Seq<u8>) -> PdfValue {
    PdfValue::Stream(
        dict_put(dict, "Length".spec_bytes(), PdfValue::Integer(content.len() as i64)),
        content,
    )
}

/// The dictionary of a page image of `width` by `height` pixels: an RGB image of 8 bits a
/// component whose data is a JPEG stream (`DCTDecode`).
pub open spec fn image_dictionary(width: u32, height: u32) -> Seq<(Seq<u8>, PdfValue)> {
    let e = dict_put(Seq::empty(), "Type".spec_bytes(), PdfValue::Name("XObject".spec_bytes()));
    let e = dict_put(e, "Subtype".spec_bytes(), PdfValue::Name("Image".spec_bytes()));
    let e = dict_put(e, "Width".spec_bytes(), PdfValue::Integer(width as i64));
    let e = dict_put(e, "Height".spec_bytes(), PdfValue::Integer(height as i64));
    let e = dict_put(e, "ColorSpace".spec_bytes(), PdfValue::Name("DeviceRGB".spec_bytes()));
    let e = dict_put(e, "BitsPerComponent".spec_bytes(), PdfValue::Integer(8));
    dict_put(e, "Filter".spec_bytes(), PdfValue::Name("DCTDecode".spec_bytes()))
}

/// The dictionary of a page with the page box `media_box`, whose resources name the image
/// `image` as `resource`, and whose drawing commands are the stream `contents`.
pub open spec fn page_dictionary(
    media_box: PdfValue,
    resource: Seq<u8>,
    image: ObjectId,
    contents: ObjectId,
) -> Seq<(Seq<u8>, PdfValue)> {
    let xobjects = dict_put(Seq::empty(), resource, PdfValue::Reference(image));
    let resources = dict_put(Seq::empty(), "XObject".spec_bytes(), PdfValue::Dictionary(xobjects));
    let e = dict_put(Seq::empty(), "Type".spec_bytes(), PdfValue::Name("Page".spec_bytes()));
    let e = dict_put(e, "MediaBox".spec_bytes(), media_box);
    let e = dict_put(e, "Resources".spec_bytes(), PdfValue::Dictionary(resources));
    dict_put(e, "Contents".spec_bytes(), PdfValue::Reference(contents))
}

/// References to the given objects, in order.
pub open spec fn references(ids: Seq<ObjectId>) -> Seq<PdfValue> {
    ids.map_values(|id: ObjectId| PdfValue::Reference(id))
}

/// The page tree node listing `pages` in order, with their count.
pub open spec fn pages_dictionary(pages: Seq<ObjectId>) -> Seq<(Seq<u8>, PdfValue)> {
    let e = dict_put(Seq::empty(), "Type".spec_bytes(), PdfValue::Name("Pages".spec_bytes()));
    let e = dict_put(e, "Kids".spec_bytes(), PdfValue::Array(references(pages)));
    dict_put(e, "Count".spec_bytes(), PdfValue::Integer(pages.len() as i64))
}

/// The document catalog whose page tree is `pages_id`.
pub open spec fn catalog_dictionary(pages_id: ObjectId) -> Seq<(Seq<u8>, PdfValue)> {
    let e = dict_put(Seq::empty(), "Type".spec_bytes(), PdfValue::Name("Catalog".spec_bytes()));
    dict_put(e, "Pages".spec_bytes(), PdfValue::Reference(pages_id))
}

/// `objects` with the `Parent` entry of each page dictionary of `pages`, in order, set to
/// the page tree `parent`.
pub open spec fn with_parents(
    objects: Map<ObjectId, PdfValue>,
    pages: Seq<ObjectId>,
    parent: ObjectId,
) -> Map<ObjectId, PdfValue>
    decreases pages.len(),
{
    if pages.len() == 0 {
        objects
    } else {
        let before = with_parents(objects, pages.drop_last(), parent);
        let id = pages.last();
        before.insert(
            id,
            PdfValue::Dictionary(
                dict_put(entries_of(before[id]), "Parent".spec_bytes(), PdfValue::Reference(parent)),
            ),
        )
    }
}

/// The document after its structure is completed for the pages `pages`: with pages, a
/// page tree listing them (numbered after the last object), each page pointing to it, a
/// catalog (numbered next) pointing to the tree, and the trailer's `Root` pointing to the
/// catalog. Without pages, the document is left as it is.
pub open spec fn finalized_model(m: DocumentModel, pages: Seq<ObjectId>) -> DocumentModel {
    if pages.len() == 0 {
        m
    } else {
        let tree: ObjectId = ((m.max_id + 1) as u32, 0u16);
        let catalog: ObjectId = ((m.max_id + 2) as u32, 0u16);
        DocumentModel {
            max_id: (m.max_id + 2) as u32,
            objects: with_parents(
                m.objects.insert(tree, PdfValue::Dictionary(pages_dictionary(pages))),
                pages,
                tree,
            ).insert(catalog, PdfValue::Dictionary(catalog_dictionary(tree))),
            trailer: dict_put(m.trailer, "Root".spec_bytes(), PdfValue::Reference(catalog)),
            ..m
        }
    }
}

/// Whether completing a document of `pages` pages whose highest object number is `max_id`
/// finds numbers for the page tree and the catalog (a document without pages needs none).
pub open spec fn finalize_fits(pages: nat, max_id: u32) -> bool {
    pages == 0 || max_id + 2 <= u32::MAX
}

/// The highest object number after completing such a document: two more when it has
/// pages, `u32::MAX` when the numbers ran out.
pub open spec fn finalized_max_id(pages: nat, max_id: u32) -> int {
    if pages == 0 {
        max_id as int
    } else if max_id + 2 <= u32::MAX {
        max_id + 2
    } else {
        u32::MAX as int
    }
}

/// Whether such a document can be completed and written: writing takes one more number.
pub open spec fn save_fits(pages: nat, max_id: u32) -> bool {
    finalize_fits(pages, max_id) && finalized_max_id(pages, max_id) < u32::MAX
}

/// Calls `lopdf::Document::with_version`: an empty document of that PDF version.
/// Trusted: its model is `fresh_document(version)`: no object, an empty trailer, no object
/// number given out, the default binary marker, cross-reference data written as a stream
/// (`Document::new`).
#[verifier::external_body]
fn new_document(version: &str) -> (r: lopdf::Document)
    ensures
        document_model(r) == fresh_document(version@),
{
    lopdf::Document::with_version(version)
}

/// Calls `lopdf::Dictionary::new`. Trusted: it has no entry.
#[verifier::external_body]
fn new_dictionary() -> (r: lopdf::Dictionary)
    ensures
        dictionary_entries(r) == Seq::<(Seq<u8>, PdfValue)>::empty(),
{
    lopdf::Dictionary::new()
}

/// Calls `lopdf::Dictionary::set` with the UTF-8 bytes of `key`. Trusted: the entry is
/// replaced where the key is, appended otherwise (an `IndexMap` insertion).
#[verifier::external_body]
fn dict_set(d: &mut lopdf::Dictionary, key: &str, value: lopdf::Object)
    ensures
        dictionary_entries(*final(d)) == dict_put(
            dictionary_entries(*old(d)),
            key.spec_bytes(),
            object_value(value),
        ),
{
    d.set(key, value)
}

/// The name object `/name` (`lopdf::Object::from(&str)`). Trusted: a name of the UTF-8
/// bytes of `name`.
#[verifier::external_body]
fn name_object(name: &str) -> (r: lopdf::Object)
    ensures
        object_value(r) == PdfValue::Name(name.spec_bytes()),
{
    lopdf::Object::from(name)
}

/// The integer object `value` (`lopdf::Object::Integer`).
#[verifier::external_body]
fn integer_object(value: i64) -> (r: lopdf::Object)
    ensures
        object_value(r) == PdfValue::Integer(value),
{
    lopdf::Object::Integer(value)
}

/// The reference object to `id` (`lopdf::Object::Reference`).
#[verifier::external_body]
fn reference_object(id: ObjectId) -> (r: lopdf::Object)
    ensures
        object_value(r) == PdfValue::Reference(id),
{
    lopdf::Object::Reference(id)
}

/// The dictionary `d` as an object (`lopdf::Object::Dictionary`).
#[verifier::external_body]
fn dictionary_object(d: lopdf::Dictionary) -> (r: lopdf::Object)
    ensures
        object_value(r) == PdfValue::Dictionary(dictionary_entries(d)),
{
    lopdf::Object::Dictionary(d)
}

/// The array object holding `items` in order (`lopdf::Object::Array`).
#[verifier::external_body]
fn array_object(items: Vec<lopdf::Object>) -> (r: lopdf::Object)
    ensures
        object_value(r) == PdfValue::Array(items@.map_values(|o: lopdf::Object| object_value(o))),
{
    lopdf::Object::Array(items)
}

/// The stream object of dictionary `d` and content `content` (`lopdf::Stream::new`, which
/// sets the dictionary's `Length` to the content length, as `lopdf::Object::Stream`).
#[verifier::external_body]
fn stream_object(d: lopdf::Dictionary, content: Vec<u8>) -> (r: lopdf::Object)
    ensures
        object_value(r) == stream_value(dictionary_entries(d), content@),
{
    lopdf::Object::Stream(lopdf::Stream::new(d, content))
}

/// Calls `Clone::clone` on a `lopdf::Object` (derived). Trusted: the copy has the same value.
#[verifier::external_body]
fn clone_object(object: &lopdf::Object) -> (r: lopdf::Object)
    ensures
        object_value(r) == object_value(*object),
{
    object.clone()
}

/// Calls `lopdf::Document::try_add_object`, which stores the object under the next object
/// number and returns that identifier, or fails when no number is left.
/// Trusted: below `u32::MAX` the identifier is the number after `max_id` with generation
/// zero, the object is stored under it and `max_id` becomes that number; at `u32::MAX` the
/// call fails and the document stays as it was (`try_new_object_id` fails before assigning).
#[verifier::external_body]
fn add_object(doc: &mut lopdf::Document, object: lopdf::Object) -> (r: Result<
    ObjectId,
    lopdf::Error,
>)
    ensures
        document_max_id(*old(doc)) < u32::MAX ==> ({
            let m = document_model(*old(doc));
            let id: ObjectId = ((m.max_id + 1) as u32, 0u16);
            &&& r matches Ok(got) && got == id
            &&& document_model(*final(doc)) == (DocumentModel {
                max_id: id.0,
                objects: m.objects.insert(id, object_value(object)),
                ..m
            })
        }),
        document_max_id(*old(doc)) == u32::MAX ==> r is Err && document_model(*final(doc))
            == document_model(*old(doc)),
{
    doc.try_add_object(object)
}

/// Calls `lopdf::Document::get_dictionary_mut` on an object that is a dictionary (where it
/// cannot fail: the object is found, is no reference to follow, and is a dictionary).
/// Trusted: the dictionary returned is that object's, and what is done to it is what the
/// document's object becomes; nothing else of the document changes.
#[verifier::external_body]
fn dictionary_of(doc: &mut lopdf::Document, id: ObjectId) -> (r: &mut lopdf::Dictionary)
    requires
        document_model(*old(doc)).objects.contains_key(id),
        document_model(*old(doc)).objects[id] is Dictionary,
    ensures
        PdfValue::Dictionary(dictionary_entries(*r)) == document_model(*old(doc)).objects[id],
        document_model(*final(doc)) == (DocumentModel {
            objects: document_model(*old(doc)).objects.insert(
                id,
                PdfValue::Dictionary(dictionary_entries(*final(r))),
            ),
            ..document_model(*old(doc))
        }),
{
    doc.get_dictionary_mut(id).expect("a dictionary object")
}

/// The trailer dictionary of the document (its `trailer` field). Trusted: what is done to
/// it is what the document's trailer becomes.
#[verifier::external_body]
fn trailer_of(doc: &mut lopdf::Document) -> (r: &mut lopdf::Dictionary)
    ensures
        dictionary_entries(*r) == document_model(*old(doc)).trailer,
        document_model(*final(doc)) == (DocumentModel {
            trailer: dictionary_entries(*final(r)),
            ..document_model(*old(doc))
        }),
{
    &mut doc.trailer
}

/// Calls `lopdf::Document::save_to` with a byte vector as the target and returns the bytes
/// written, on a document whose cross-reference data is a stream and whose binary marker
/// is valid.
/// Trusted: writing into a vector fails only when the cross-reference stream finds no
/// object number left (`max_id` is `u32::MAX`), and then the document stays. Otherwise the
/// bytes are `saved_pdf` of the document's model, framed by `%PDF-` and `%%EOF`, and the
/// document keeps its objects, version and marker while `max_id` grows by one; the trailer
/// gets the cross-reference entries (nothing is claimed of it).
#[verifier::external_body]
fn save_to_vec(doc: &mut lopdf::Document) -> (r: Result<Vec<u8>, std::io::Error>)
    requires
        document_model(*old(doc)).xref_stream,
        forall|i: int|
            0 <= i < document_model(*old(doc)).binary_mark.len() ==> #[trigger] document_model(
                *old(doc),
            ).binary_mark[i] >= 128,
    ensures
        document_max_id(*old(doc)) == u32::MAX ==> r is Err && document_model(*final(doc))
            == document_model(*old(doc)),
        document_max_id(*old(doc)) < u32::MAX ==> ({
            let m = document_model(*old(doc));
            let f = document_model(*final(doc));
            &&& r matches Ok(bytes) && bytes@ == saved_pdf(m) && pdf_framed(bytes@)
            &&& f.max_id == m.max_id + 1
            &&& f.objects == m.objects
            &&& f.version == m.version
            &&& f.binary_mark == m.binary_mark
            &&& f.xref_stream == m.xref_stream
        }),
{
    let mut buffer: Vec<u8> = Vec::new();
    match doc.save_to(&mut buffer) {
        Ok(()) => Ok(buffer),
        Err(e) => Err(e),
    }
}

fn insert_object(doc: &mut lopdf::Document, object: lopdf::Object) -> (r: Result<ObjectId, PdfError>)
    ensures
        document_max_id(*old(doc)) < u32::MAX ==> ({
            let m = document_model(*old(doc));
            let id: ObjectId = ((m.max_id + 1) as u32, 0u16);
            &&& r == Ok::<ObjectId, PdfError>(id)
            &&& document_model(*final(doc)) == (DocumentModel {
                max_id: id.0,
                objects: m.objects.insert(id, object_value(object)),
                ..m
            })
        }),
        document_max_id(*old(doc)) == u32::MAX ==> r == Err::<ObjectId, PdfError>(
            PdfError::ObjectLimit,
        ) && document_model(*final(doc)) == document_model(*old(doc)),
{
    match add_object(doc, object) {
        Ok(id) => Ok(id),
        Err(_) => Err(PdfError::ObjectLimit),
    }
}

/// Whether `id` is a dictionary object of `m` numbered at most its highest number.
pub open spec fn page_stored(m: DocumentModel, id: ObjectId) -> bool {
    &&& m.objects.contains_key(id)
    &&& m.objects[id] is Dictionary
    &&& id.0 <= m.max_id
}

/// The objects of one page and what they show: the page, its image stream and its
/// drawing commands, its page box, its image counter, and the JPEG image it embeds.
pub struct PageObjects {
    pub page: ObjectId,
    pub image: ObjectId,
    pub contents: ObjectId,
    pub media_box: PdfValue,
    pub counter: u32,
    pub width: u32,
    pub height: u32,
    pub jpeg: Seq<u8>,
}

/// The dictionary a page is created with.
pub open spec fn page_entries(p: PageObjects) -> Seq<(Seq<u8>, PdfValue)> {
    page_dictionary(
        p.media_box,
        encode_utf8(image_resource_name(p.counter as nat)),
        p.image,
        p.contents,
    )
}

/// Whether the image and the drawing commands of page `p` are stored in `m` as created.
pub open spec fn page_streams_stored(m: DocumentModel, p: PageObjects) -> bool {
    &&& m.objects.contains_key(p.image)
    &&& m.objects[p.image] == stream_value(image_dictionary(p.width, p.height), p.jpeg)
    &&& m.objects.contains_key(p.contents)
    &&& m.objects[p.contents] == stream_value(
        Seq::empty(),
        encode_utf8(page_content_text(p.width as nat, p.height as nat, p.counter as nat)),
    )
}

/// Whether page `p` is stored in `m` as created, possibly with a `Parent` entry since.
pub open spec fn page_stored_as(m: DocumentModel, p: PageObjects) -> bool {
    &&& page_streams_stored(m, p)
    &&& m.objects.contains_key(p.page)
    &&& (m.objects[p.page] == PdfValue::Dictionary(page_entries(p)) || exists|t: ObjectId|
        m.objects[p.page] == PdfValue::Dictionary(
            dict_put(page_entries(p), "Parent".spec_bytes(), PdfValue::Reference(t)),
        ))
    &&& p.page.0 <= m.max_id
    &&& p.image.0 <= m.max_id
    &&& p.contents.0 <= m.max_id
}

/// The pages' objects are all distinct: no page shares a number with another page, or with
/// any image or drawing-command stream, and no two pages share an image.
pub open spec fn pages_distinct(pages: Seq<PageObjects>) -> bool {
    &&& forall|i: int, j: int|
        0 <= i < pages.len() && 0 <= j < pages.len() && i != j ==> #[trigger] pages[i].page
            != #[trigger] pages[j].page
    &&& forall|i: int, j: int|
        0 <= i < pages.len() && 0 <= j < pages.len() ==> #[trigger] pages[i].image
            != #[trigger] pages[j].page
    &&& forall|i: int, j: int|
        0 <= i < pages.len() && 0 <= j < pages.len() ==> #[trigger] pages[i].contents
            != #[trigger] pages[j].page
    &&& forall|i: int, j: int|
        0 <= i < pages.len() && 0 <= j < pages.len() && i != j ==> #[trigger] pages[i].image
            != #[trigger] pages[j].image
}

/// The page objects of a list of pages.
pub open spec fn page_ids(pages: Seq<PageObjects>) -> Seq<ObjectId> {
    pages.map_values(|p: PageObjects| p.page)
}

/// What each of a list of pages was made from, in order: its JPEG bytes, its width and
/// height in pixels, and its page box.
pub open spec fn page_sources(pages: Seq<PageObjects>) -> Seq<(Seq<u8>, u32, u32, PdfValue)> {
    pages.map_values(|p: PageObjects| (p.jpeg, p.width, p.height, p.media_box))
}

/// Whether a written document `d` shows `pages` and nothing else: its trailer's `Root` is
/// the catalog `catalog`, whose page tree `tree` lists exactly the pages in order; each page
/// points to the tree and shows its image, which holds its JPEG bytes unchanged.
pub open spec fn document_shows(
    d: DocumentModel,
    catalog: ObjectId,
    tree: ObjectId,
    pages: Seq<PageObjects>,
) -> bool {
    &&& dict_get(d.trailer, "Root".spec_bytes()) == Some(PdfValue::Reference(catalog))
    &&& d.objects.contains_key(catalog)
    &&& d.objects[catalog] == PdfValue::Dictionary(catalog_dictionary(tree))
    &&& d.objects.contains_key(tree)
    &&& d.objects[tree] == PdfValue::Dictionary(pages_dictionary(page_ids(pages)))
    &&& forall|i: int|
        0 <= i < pages.len() ==> {
            &&& page_streams_stored(d, #[trigger] pages[i])
            &&& d.objects.contains_key(pages[i].page)
            &&& d.objects[pages[i].page] == PdfValue::Dictionary(
                dict_put(page_entries(pages[i]), "Parent".spec_bytes(), PdfValue::Reference(tree)),
            )
        }
}

/// A PDF document under construction: the pages added so far, in order, and the number
/// that the next image resource gets; `page_objects` records each page's objects and
/// image, for the proof only.
pub struct PdfBuilder {
    pub doc: lopdf::Document,
    pub pages: Vec<ObjectId>,
    pub current_image_counter: u32,
    pub page_objects: Ghost<Seq<PageObjects>>,
}

/// The objects a page adds after the document's highest object number `n`: the image
/// stream holding `jpeg` unchanged, the stream of drawing commands, and the page.
pub open spec fn with_page(
    m: DocumentModel,
    jpeg: Seq<u8>,
    width: u32,
    height: u32,
    media_box: PdfValue,
    counter: u32,
) -> DocumentModel {
    let image: ObjectId = ((m.max_id + 1) as u32, 0u16);
    let contents: ObjectId = ((m.max_id + 2) as u32, 0u16);
    let page: ObjectId = ((m.max_id + 3) as u32, 0u16);
    DocumentModel {
        max_id: page.0,
        objects: m.objects.insert(image, stream_value(image_dictionary(width, height), jpeg)).insert(
            contents,
            stream_value(
                Seq::empty(),
                encode_utf8(page_content_text(width as nat, height as nat, counter as nat)),
            ),
        ).insert(
            page,
            PdfValue::Dictionary(
                page_dictionary(
                    media_box,
                    encode_utf8(image_resource_name(counter as nat)),
                    image,
                    contents,
                ),
            ),
        ),
        ..m
    }
}

proof fn lemma_with_parents(objects: Map<ObjectId, PdfValue>, pages: Seq<ObjectId>, parent: ObjectId)
    ensures
        with_parents(objects, pages, parent).dom() == objects.dom().union(pages.to_set()),
        forall|k: ObjectId|
            !pages.contains(k) ==> #[trigger] with_parents(objects, pages, parent)[k] == objects[k],
        forall|k: ObjectId| #[trigger]
            pages.contains(k) ==> with_parents(objects, pages, parent)[k] is Dictionary,
    decreases pages.len(),
{
    if pages.len() > 0 {
        let rest = pages.drop_last();
        lemma_with_parents(objects, rest, parent);
        assert(pages.to_set() =~= rest.to_set().insert(pages.last())) by {
            assert forall|k: ObjectId| pages.to_set().contains(k) implies rest.to_set().insert(
                pages.last(),
            ).contains(k) by {
                let i = choose|i: int| 0 <= i < pages.len() && pages[i] == k;
                if i < pages.len() - 1 {
                    assert(rest[i] == k);
                }
            }
            assert forall|k: ObjectId| rest.to_set().insert(pages.last()).contains(k) implies pages.to_set().contains(
                k,
            ) by {
                if k != pages.last() {
                    let i = choose|i: int| 0 <= i < rest.len() && rest[i] == k;
                    assert(pages[i] == k);
                } else {
                    assert(pages[pages.len() - 1] == k);
                }
            }
        }
        assert forall|k: ObjectId| !pages.contains(k) implies #[trigger] with_parents(
            objects,
            pages,
            parent,
        )[k] == objects[k] by {
            if rest.contains(k) {
                let i = choose|i: int| 0 <= i < rest.len() && rest[i] == k;
                assert(pages[i] == k);
            }
            assert(k != pages[pages.len() - 1]);
        }
        assert forall|k: ObjectId| #[trigger]
            pages.contains(k) implies with_parents(objects, pages, parent)[k] is Dictionary by {
            if k != pages.last() {
                let i = choose|i: int| 0 <= i < pages.len() && pages[i] == k;
                assert(i != pages.len() - 1);
                assert(rest[i] == k);
                assert(rest.contains(k));
                assert(with_parents(objects, rest, parent)[k] is Dictionary);
            }
        }
    }
}

proof fn lemma_stored_as_is_page(m: DocumentModel, p: PageObjects)
    requires
        page_stored_as(m, p),
    ensures
        page_stored(m, p.page),
{
    if m.objects[p.page] != PdfValue::Dictionary(page_entries(p)) {
        let t = choose|t: ObjectId|
            m.objects[p.page] == PdfValue::Dictionary(
                dict_put(page_entries(p), "Parent".spec_bytes(), PdfValue::Reference(t)),
            );
    }
}

proof fn lemma_with_parents_at(
    objects: Map<ObjectId, PdfValue>,
    pages: Seq<ObjectId>,
    parent: ObjectId,
    i: int,
)
    requires
        0 <= i < pages.len(),
        forall|a: int, b: int| 0 <= a < pages.len() && 0 <= b < pages.len() && a != b ==> pages[a]
            != pages[b],
    ensures
        with_parents(objects, pages, parent)[pages[i]] == PdfValue::Dictionary(
            dict_put(entries_of(objects[pages[i]]), "Parent".spec_bytes(), PdfValue::Reference(parent)),
        ),
    decreases pages.len(),
{
    let rest = pages.drop_last();
    if i < pages.len() - 1 {
        lemma_with_parents_at(objects, rest, parent, i);
        assert(pages.last() != pages[i]);
    } else {
        lemma_with_parents(objects, rest, parent);
        if rest.contains(pages[i]) {
            let j = choose|j: int| 0 <= j < rest.len() && rest[j] == pages[i];
            assert(pages[j] == pages[i]);
        }
    }
}

/// The document after the page tree is added (numbered after the last object) and each page
/// points to it, as `finalize` leaves it before adding the catalog.
pub open spec fn with_page_tree(m0: DocumentModel, ids: Seq<ObjectId>) -> DocumentModel {
    let tree: ObjectId = ((m0.max_id + 1) as u32, 0u16);
    DocumentModel {
        max_id: tree.0,
        objects: with_parents(
            m0.objects.insert(tree, PdfValue::Dictionary(pages_dictionary(ids))),
            ids,
            tree,
        ),
        ..m0
    }
}

/// Adding the page tree keeps the pages stored as created, each now pointing to the tree.
proof fn lemma_parents_set(m0: DocumentModel, pages: Seq<PageObjects>)
    requires
        m0.max_id < u32::MAX,
        pages_distinct(pages),
        forall|i: int| 0 <= i < pages.len() ==> #[trigger] page_stored_as(m0, pages[i]),
    ensures
        ({
            let ids = page_ids(pages);
            let tree: ObjectId = ((m0.max_id + 1) as u32, 0u16);
            let mid = with_page_tree(m0, ids);
            &&& mid.objects.contains_key(tree)
            &&& mid.objects[tree] == PdfValue::Dictionary(pages_dictionary(ids))
            &&& forall|i: int|
                0 <= i < pages.len() ==> {
                    &&& page_streams_stored(mid, #[trigger] pages[i])
                    &&& mid.objects.contains_key(pages[i].page)
                    &&& mid.objects[pages[i].page] == PdfValue::Dictionary(
                        dict_put(
                            page_entries(pages[i]),
                            "Parent".spec_bytes(),
                            PdfValue::Reference(tree),
                        ),
                    )
                    &&& page_stored_as(mid, pages[i])
                }
        }),
{
    let ids = page_ids(pages);
    let tree: ObjectId = ((m0.max_id + 1) as u32, 0u16);
    let objs = m0.objects.insert(tree, PdfValue::Dictionary(pages_dictionary(ids)));
    let mid = with_page_tree(m0, ids);
    lemma_with_parents(objs, ids, tree);
    assert forall|a: int, b: int| 0 <= a < ids.len() && 0 <= b < ids.len() && a != b implies ids[a]
        != ids[b] by {
        assert(pages[a].page != pages[b].page);
    }
    assert(!ids.contains(tree)) by {
        if ids.contains(tree) {
            let j = choose|j: int| 0 <= j < ids.len() && ids[j] == tree;
            assert(page_stored_as(m0, pages[j]));
        }
    }
    assert forall|i: int| 0 <= i < pages.len() implies {
        &&& page_streams_stored(mid, #[trigger] pages[i])
        &&& mid.objects.contains_key(pages[i].page)
        &&& mid.objects[pages[i].page] == PdfValue::Dictionary(
            dict_put(page_entries(pages[i]), "Parent".spec_bytes(), PdfValue::Reference(tree)),
        )
        &&& page_stored_as(mid, pages[i])
    } by {
        let p = pages[i];
        assert(page_stored_as(m0, p));
        assert(ids[i] == p.page);
        assert(ids.contains(p.page));
        lemma_with_parents_at(objs, ids, tree, i);
        let pe = page_entries(p);
        if m0.objects[p.page] != PdfValue::Dictionary(pe) {
            let t0 = choose|t: ObjectId|
                m0.objects[p.page] == PdfValue::Dictionary(
                    dict_put(pe, "Parent".spec_bytes(), PdfValue::Reference(t)),
                );
            lemma_put_put(pe, "Parent".spec_bytes(), PdfValue::Reference(t0), PdfValue::Reference(tree));
        }
        assert(!ids.contains(p.image)) by {
            if ids.contains(p.image) {
                let j = choose|j: int| 0 <= j < ids.len() && ids[j] == p.image;
                assert(pages[i].image != pages[j].page);
            }
        }
        assert(!ids.contains(p.contents)) by {
            if ids.contains(p.contents) {
                let j = choose|j: int| 0 <= j < ids.len() && ids[j] == p.contents;
                assert(pages[i].contents != pages[j].page);
            }
        }
        assert(mid.objects[p.page] == PdfValue::Dictionary(
            dict_put(pe, "Parent".spec_bytes(), PdfValue::Reference(tree)),
        ));
    }
}

/// Completing the document of distinct pages stored as created gives a document that shows
/// them, each still stored as created.
proof fn lemma_finalize_pages(m0: DocumentModel, pages: Seq<PageObjects>)
    requires
        m0.max_id + 2 <= u32::MAX,
        pages.len() > 0,
        pages_distinct(pages),
        forall|i: int| 0 <= i < pages.len() ==> #[trigger] page_stored_as(m0, pages[i]),
    ensures
        ({
            let f = finalized_model(m0, page_ids(pages));
            &&& document_shows(
                f,
                ((m0.max_id + 2) as u32, 0u16),
                ((m0.max_id + 1) as u32, 0u16),
                pages,
            )
            &&& forall|i: int| 0 <= i < pages.len() ==> #[trigger] page_stored_as(f, pages[i])
        }),
{
    let ids = page_ids(pages);
    let tree: ObjectId = ((m0.max_id + 1) as u32, 0u16);
    let catalog: ObjectId = ((m0.max_id + 2) as u32, 0u16);
    let f = finalized_model(m0, ids);
    lemma_parents_set(m0, pages);
    lemma_get_put(m0.trailer, "Root".spec_bytes(), PdfValue::Reference(catalog));
    assert forall|i: int| 0 <= i < pages.len() implies {
        &&& page_streams_stored(f, #[trigger] pages[i])
        &&& f.objects.contains_key(pages[i].page)
        &&& f.objects[pages[i].page] == PdfValue::Dictionary(
            dict_put(page_entries(pages[i]), "Parent".spec_bytes(), PdfValue::Reference(tree)),
        )
        &&& page_stored_as(f, pages[i])
    } by {
        assert(page_stored_as(m0, pages[i]));
    }
}

/// Objects added above the highest number leave the pages' objects as they were.
proof fn lemma_pages_kept(m0: DocumentModel, m1: DocumentModel, pages: Seq<PageObjects>)
    requires
        m0.max_id <= m1.max_id,
        forall|id: ObjectId|
            #![trigger m1.objects[id]]
            id.0 <= m0.max_id && m0.objects.contains_key(id) ==> m1.objects.contains_key(id)
                && m1.objects[id] == m0.objects[id],
        forall|i: int| 0 <= i < pages.len() ==> #[trigger] page_stored_as(m0, pages[i]),
    ensures
        forall|i: int| 0 <= i < pages.len() ==> #[trigger] page_stored_as(m1, pages[i]),
{
    assert forall|i: int| 0 <= i < pages.len() implies #[trigger] page_stored_as(m1, pages[i]) by {
        let p = pages[i];
        assert(page_stored_as(m0, p));
        assert(m1.objects[p.page] == m0.objects[p.page]);
        assert(m1.objects[p.image] == m0.objects[p.image]);
        assert(m1.objects[p.contents] == m0.objects[p.contents]);
        if m0.objects[p.page] != PdfValue::Dictionary(page_entries(p)) {
            let t = choose|t: ObjectId|
                m0.objects[p.page] == PdfValue::Dictionary(
                    dict_put(page_entries(p), "Parent".spec_bytes(), PdfValue::Reference(t)),
                );
            assert(m1.objects[p.page] == PdfValue::Dictionary(
                dict_put(page_entries(p), "Parent".spec_bytes(), PdfValue::Reference(t)),
            ));
        }
    }
}

impl PdfBuilder {
    /// The document can be written (its cross-reference data is a stream and its binary
    /// marker the default one), each page listed is stored in it as created, and the pages
    /// name their images `Image1`, `Image2`, ... in order.
    pub open spec fn wf(self) -> bool {
        let m = document_model(self.doc);
        &&& m.xref_stream
        &&& m.binary_mark == default_binary_mark()
        &&& self.pages@ == page_ids(self.page_objects@)
        &&& self.current_image_counter == self.page_objects@.len() + 1
        &&& forall|i: int|
            0 <= i < self.page_objects@.len() ==> #[trigger] self.page_objects@[i].counter == i + 1
        &&& pages_distinct(self.page_objects@)
        &&& forall|i: int|
            0 <= i < self.page_objects@.len() ==> #[trigger] page_stored_as(
                m,
                self.page_objects@[i],
            )
    }

    /// An empty PDF 1.5 document.
    pub fn new() -> (r: PdfBuilder)
        ensures
            r.wf(),
            r.pages@ == Seq::<ObjectId>::empty(),
            r.page_objects@ == Seq::<PageObjects>::empty(),
            r.current_image_counter == 1,
            document_model(r.doc) == fresh_document("1.5"@),
    {
        let r = PdfBuilder {
            doc: new_document("1.5"),
            pages: Vec::new(),
            current_image_counter: 1,
            page_objects: Ghost(Seq::empty()),
        };
        assert(r.pages@ =~= page_ids(r.page_objects@));
        r
    }

    /// Adds a page showing a JPEG image of `width` by `height` pixels, with the page box
    /// `media_box` (the page size in points, an array the caller builds).
    ///
    /// The file must not be empty and the image must have pixels in both directions;
    /// otherwise nothing changes. The page takes three object numbers: the image stream,
    /// which holds the JPEG bytes as given (`DCTDecode`, no re-encoding), named in the page's
    /// resources `Image<n>` after the image counter; the stream of drawing commands that
    /// paints it over the whole page (`page_content`); and the page itself. Without three
    /// numbers left it fails with `ObjectLimit`, adding no page.
    pub fn add_jpeg_page(
        &mut self,
        jpeg_bytes: Vec<u8>,
        width: u32,
        height: u32,
        media_box: lopdf::Object,
    ) -> (r: Result<(), PdfError>)
        requires
            old(self).wf(),
            old(self).current_image_counter < u32::MAX,
        ensures
            final(self).wf(),
            jpeg_bytes@.len() == 0 ==> r == Err::<(), PdfError>(PdfError::Page(PageError::EmptyJpeg)),
            jpeg_bytes@.len() != 0 && (width == 0 || height == 0) ==> r == Err::<(), PdfError>(
                PdfError::Page(PageError::InvalidSize { width, height }),
            ),
            r matches Err(PdfError::Page(_)) ==> *final(self) == *old(self),
            jpeg_bytes@.len() != 0 && width != 0 && height != 0 ==> ({
                let n = document_max_id(old(self).doc);
                &&& n + 3 <= u32::MAX ==> r is Ok
                &&& n + 3 > u32::MAX ==> r == Err::<(), PdfError>(PdfError::ObjectLimit)
            }),
            r matches Err(PdfError::ObjectLimit) ==> final(self).pages@ == old(self).pages@
                && final(self).page_objects@ == old(self).page_objects@
                && final(self).current_image_counter == old(self).current_image_counter
                && document_max_id(final(self).doc) == u32::MAX,
            r is Ok ==> ({
                let m = document_model(old(self).doc);
                &&& final(self).pages@ == old(self).pages@.push(((m.max_id + 3) as u32, 0u16))
                &&& final(self).page_objects@ == old(self).page_objects@.push(
                    PageObjects {
                        page: ((m.max_id + 3) as u32, 0u16),
                        image: ((m.max_id + 1) as u32, 0u16),
                        contents: ((m.max_id + 2) as u32, 0u16),
                        media_box: object_value(media_box),
                        counter: old(self).current_image_counter,
                        width,
                        height,
                        jpeg: jpeg_bytes@,
                    },
                )
                &&& final(self).current_image_counter == old(self).current_image_counter + 1
                &&& document_model(final(self).doc) == with_page(
                    m,
                    jpeg_bytes@,
                    width,
                    height,
                    object_value(media_box),
                    old(self).current_image_counter,
                )
            }),
    {
        match check_jpeg_page(jpeg_bytes.len(), width, height) {
            Ok(()) => {},
            Err(e) => {
                return Err(PdfError::Page(e));
            },
        }
        let ghost m0 = document_model(self.doc);
        let ghost jpeg = jpeg_bytes@;
        let ghost mb = object_value(media_box);
        let counter = self.current_image_counter;
        let mut xobject = new_dictionary();
        dict_set(&mut xobject, "Type", name_object("XObject"));
        dict_set(&mut xobject, "Subtype", name_object("Image"));
        dict_set(&mut xobject, "Width", integer_object(width as i64));
        dict_set(&mut xobject, "Height", integer_object(height as i64));
        dict_set(&mut xobject, "ColorSpace", name_object("DeviceRGB"));
        dict_set(&mut xobject, "BitsPerComponent", integer_object(8));
        dict_set(&mut xobject, "Filter", name_object("DCTDecode"));
        assert(dictionary_entries(xobject) == image_dictionary(width, height));
        let image_id = match insert_object(&mut self.doc, stream_object(xobject, jpeg_bytes)) {
            Ok(id) => id,
            Err(e) => {
                return Err(e);
            },
        };
        proof {
            lemma_pages_kept(m0, document_model(self.doc), self.page_objects@);
        }
        let ghost m1 = document_model(self.doc);

        let resource_name = image_resource(counter);
        let contents = page_content(width, height, counter);
        let contents_id = match insert_object(
            &mut self.doc,
            stream_object(new_dictionary(), contents.as_str().as_bytes_vec()),
        ) {
            Ok(id) => id,
            Err(e) => {
                proof {
                    lemma_pages_kept(m0, document_model(self.doc), self.page_objects@);
                }
                return Err(e);
            },
        };
        let ghost m2 = document_model(self.doc);

        let mut xobjects = new_dictionary();
        dict_set(&mut xobjects, resource_name.as_str(), reference_object(image_id));
        let mut resources = new_dictionary();
        dict_set(&mut resources, "XObject", dictionary_object(xobjects));

        let mut page = new_dictionary();
        dict_set(&mut page, "Type", name_object("Page"));
        dict_set(&mut page, "MediaBox", media_box);
        dict_set(&mut page, "Resources", dictionary_object(resources));
        dict_set(&mut page, "Contents", reference_object(contents_id));
        assert(dictionary_entries(page) == page_dictionary(
            mb,
            encode_utf8(image_resource_name(counter as nat)),
            image_id,
            contents_id,
        ));
        let page_id = match insert_object(&mut self.doc, dictionary_object(page)) {
            Ok(id) => id,
            Err(e) => {
                proof {
                    lemma_pages_kept(m0, document_model(self.doc), self.page_objects@);
                }
                return Err(e);
            },
        };
        let ghost po = PageObjects {
            page: page_id,
            image: image_id,
            contents: contents_id,
            media_box: mb,
            counter,
            width,
            height,
            jpeg,
        };
        let ghost before = self.page_objects@;
        self.pages.push(page_id);
        self.page_objects = Ghost(self.page_objects@.push(po));
        self.current_image_counter = counter + 1;
        proof {
            let m3 = document_model(self.doc);
            assert(m3 == with_page(m0, jpeg, width, height, mb, counter));
            lemma_pages_kept(m0, m3, before);
            assert(self.pages@ =~= page_ids(self.page_objects@));
            assert(page_stored_as(m3, po));
            assert forall|i: int| 0 <= i < self.page_objects@.len() implies #[trigger] page_stored_as(
                m3,
                self.page_objects@[i],
            ) by {
                if i < before.len() {
                    assert(self.page_objects@[i] == before[i]);
                }
            }
            assert(pages_distinct(self.page_objects@)) by {
                assert forall|i: int| 0 <= i < before.len() implies before[i].page.0 <= m0.max_id
                    && before[i].image.0 <= m0.max_id && before[i].contents.0 <= m0.max_id by {
                    assert(page_stored_as(m0, before[i]));
                }
            }
        }
        Ok(())
    }

    /// Completes the document structure: the page tree listing the pages in order with
    /// their count, each page pointing back to it, and the catalog as the document root
    /// (`finalized_model`). A document without pages is left as it is. This takes two object
    /// numbers; it fails, with `ObjectLimit`, exactly when they are not left.
    pub fn finalize(&mut self) -> (r: Result<(), PdfError>)
        requires
            old(self).wf(),
        ensures
            final(self).wf(),
            final(self).pages@ == old(self).pages@,
            final(self).current_image_counter == old(self).current_image_counter,
            r == (if finalize_fits(old(self).pages@.len(), document_max_id(old(self).doc)) {
                Ok::<(), PdfError>(())
            } else {
                Err::<(), PdfError>(PdfError::ObjectLimit)
            }),
            final(self).page_objects@ == old(self).page_objects@,
            r is Ok ==> document_model(final(self).doc) == finalized_model(
                document_model(old(self).doc),
                old(self).pages@,
            ),
            r is Ok && old(self).pages@.len() > 0 ==> document_shows(
                document_model(final(self).doc),
                ((document_max_id(old(self).doc) + 2) as u32, 0u16),
                ((document_max_id(old(self).doc) + 1) as u32, 0u16),
                old(self).page_objects@,
            ),
            document_max_id(final(self).doc) == finalized_max_id(
                old(self).pages@.len(),
                document_max_id(old(self).doc),
            ),
    {
        if self.pages.len() == 0 {
            return Ok(());
        }
        let ghost m0 = document_model(self.doc);
        let ghost pages = self.pages@;
        let ghost po = self.page_objects@;
        let mut pages_dict = new_dictionary();
        dict_set(&mut pages_dict, "Type", name_object("Pages"));
        let mut kids: Vec<lopdf::Object> = Vec::new();
        let mut k: usize = 0;
        while k < self.pages.len()
            invariant
                k <= self.pages@.len(),
                kids@.len() == k,
                kids@.map_values(|o: lopdf::Object| object_value(o)) == references(
                    self.pages@.take(k as int),
                ),
            decreases self.pages@.len() - k,
        {
            let ghost before = kids@;
            let kid = reference_object(self.pages[k]);
            kids.push(kid);
            proof {
                let f = |o: lopdf::Object| object_value(o);
                assert forall|j: int| 0 <= j < k + 1 implies kids@.map_values(f)[j] == references(
                    self.pages@.take(k + 1),
                )[j] by {
                    assert(kids@ == before.push(kid));
                    if j < k {
                        assert(kids@[j] == before[j]);
                        assert(before.map_values(f)[j] == references(self.pages@.take(k as int))[j]);
                    }
                }
                assert(kids@.map_values(f) =~= references(self.pages@.take(k + 1)));
            }
            k = k + 1;
        }
        assert(self.pages@.take(k as int) =~= self.pages@);
        dict_set(&mut pages_dict, "Kids", array_object(kids));
        dict_set(&mut pages_dict, "Count", integer_object(self.pages.len() as i64));
        assert(dictionary_entries(pages_dict) == pages_dictionary(pages));
        let pages_id = match insert_object(&mut self.doc, dictionary_object(pages_dict)) {
            Ok(id) => id,
            Err(e) => {
                return Err(e);
            },
        };
        let ghost m1 = document_model(self.doc);
        let ghost objects1 = m1.objects;
        assert forall|j: int| 0 <= j < pages.len() implies #[trigger] page_stored(m1, pages[j]) by {
            assert(pages[j] == self.page_objects@[j].page);
            lemma_stored_as_is_page(m0, self.page_objects@[j]);
        }
        let mut i: usize = 0;
        while i < self.pages.len()
            invariant
                i <= self.pages@.len(),
                self.pages@ == pages,
                self.current_image_counter == old(self).current_image_counter,
                pages_id == ((m0.max_id + 1) as u32, 0u16),
                m0.max_id < u32::MAX,
                forall|j: int| 0 <= j < pages.len() ==> #[trigger] page_stored(m1, pages[j]),
                self.page_objects@ == po,
                pages == page_ids(po),
                pages_distinct(po),
                forall|j: int| 0 <= j < po.len() ==> #[trigger] page_stored_as(m0, po[j]),
                m1 == (DocumentModel {
                    max_id: pages_id.0,
                    objects: m0.objects.insert(pages_id, PdfValue::Dictionary(pages_dictionary(pages))),
                    ..m0
                }),
                objects1 == m1.objects,
                document_model(self.doc) == (DocumentModel {
                    objects: with_parents(objects1, pages.take(i as int), pages_id),
                    ..m1
                }),
            decreases self.pages@.len() - i,
        {
            let page_id = self.pages[i];
            proof {
                let cur = with_parents(objects1, pages.take(i as int), pages_id);
                lemma_with_parents(objects1, pages.take(i as int), pages_id);
                assert(page_stored(m1, pages[i as int]));
                if pages.take(i as int).contains(page_id) {
                    assert(cur[page_id] is Dictionary);
                } else {
                    assert(cur[page_id] == objects1[page_id]);
                }
                assert(cur.dom().contains(page_id));
            }
            let page = dictionary_of(&mut self.doc, page_id);
            dict_set(page, "Parent", reference_object(pages_id));
            proof {
                let t = pages.take(i + 1);
                assert(t.drop_last() =~= pages.take(i as int));
                assert(t.last() == page_id);
            }
            i = i + 1;
        }
        assert(pages.take(i as int) =~= pages);
        let mut catalog = new_dictionary();
        dict_set(&mut catalog, "Type", name_object("Catalog"));
        dict_set(&mut catalog, "Pages", reference_object(pages_id));
        let catalog_id = match insert_object(&mut self.doc, dictionary_object(catalog)) {
            Ok(id) => id,
            Err(e) => {
                proof {
                    lemma_parents_set(m0, po);
                    assert(document_model(self.doc) == with_page_tree(m0, pages));
                }
                return Err(e);
            },
        };
        dict_set(trailer_of(&mut self.doc), "Root", reference_object(catalog_id));
        proof {
            let f = document_model(self.doc);
            assert(f == finalized_model(m0, pages));
            lemma_finalize_pages(m0, po);
        }
        Ok(())
    }

    /// Completes the document and returns its bytes as a PDF file holds them:
    /// `saved_pdf` of the completed document (`finalized_model`). Completing takes two object
    /// numbers when there are pages and writing one more: without the first two it fails
    /// with `ObjectLimit`, without the last with `Write`; otherwise it succeeds.
    pub fn to_bytes(&mut self) -> (r: Result<Vec<u8>, PdfError>)
        requires
            old(self).wf(),
        ensures
            final(self).wf(),
            final(self).pages@ == old(self).pages@,
            final(self).page_objects@ == old(self).page_objects@,
            final(self).current_image_counter == old(self).current_image_counter,
            !finalize_fits(old(self).pages@.len(), document_max_id(old(self).doc)) ==> r == Err::<
                Vec<u8>,
                PdfError,
            >(PdfError::ObjectLimit),
            finalize_fits(old(self).pages@.len(), document_max_id(old(self).doc)) && !save_fits(
                old(self).pages@.len(),
                document_max_id(old(self).doc),
            ) ==> r == Err::<Vec<u8>, PdfError>(PdfError::Write),
            save_fits(old(self).pages@.len(), document_max_id(old(self).doc)) ==> (r matches Ok(
                bytes,
            ) && bytes@ == saved_pdf(finalized_model(document_model(old(self).doc), old(self).pages@))
                && pdf_framed(bytes@)),
            save_fits(old(self).pages@.len(), document_max_id(old(self).doc)) && old(
                self,
            ).pages@.len() > 0 ==> document_shows(
                finalized_model(document_model(old(self).doc), old(self).pages@),
                ((document_max_id(old(self).doc) + 2) as u32, 0u16),
                ((document_max_id(old(self).doc) + 1) as u32, 0u16),
                old(self).page_objects@,
            ),
            save_fits(old(self).pages@.len(), document_max_id(old(self).doc)) ==> document_max_id(
                final(self).doc,
            ) == finalized_max_id(old(self).pages@.len(), document_max_id(old(self).doc)) + 1,
            !save_fits(old(self).pages@.len(), document_max_id(old(self).doc)) ==> document_max_id(
                final(self).doc,
            ) == u32::MAX,
    {
        self.finalize()?;
        let ghost m = document_model(self.doc);
        proof {
            assert forall|i: int| 0 <= i < m.binary_mark.len() implies #[trigger] m.binary_mark[i]
                >= 128 by {
                assert(m.binary_mark == default_binary_mark());
            }
        }
        let saved = save_to_vec(&mut self.doc);
        proof {
            lemma_pages_kept(m, document_model(self.doc), self.page_objects@);
        }
        match saved {
            Ok(bytes) => Ok(bytes),
            Err(_) => Err(PdfError::Write),
        }
    }

    /// The size in bytes the completed document has now: the length of what `to_bytes`
    /// gives, which it fails as. Used to decide where to split.
    pub fn estimate_size(&mut self) -> (r: Result<usize, PdfError>)
        requires
            old(self).wf(),
        ensures
            final(self).wf(),
            final(self).pages@ == old(self).pages@,
            final(self).page_objects@ == old(self).page_objects@,
            final(self).current_image_counter == old(self).current_image_counter,
            !finalize_fits(old(self).pages@.len(), document_max_id(old(self).doc)) ==> r == Err::<
                usize,
                PdfError,
            >(PdfError::ObjectLimit),
            finalize_fits(old(self).pages@.len(), document_max_id(old(self).doc)) && !save_fits(
                old(self).pages@.len(),
                document_max_id(old(self).doc),
            ) ==> r == Err::<usize, PdfError>(PdfError::Write),
            save_fits(old(self).pages@.len(), document_max_id(old(self).doc)) ==> (r matches Ok(
                size,
            ) && size == saved_pdf(
                finalized_model(document_model(old(self).doc), old(self).pages@),
            ).len() && size >= 10),
            save_fits(old(self).pages@.len(), document_max_id(old(self).doc)) ==> document_max_id(
                final(self).doc,
            ) == finalized_max_id(old(self).pages@.len(), document_max_id(old(self).doc)) + 1,
            !save_fits(old(self).pages@.len(), document_max_id(old(self).doc)) ==> document_max_id(
                final(self).doc,
            ) == u32::MAX,
    {
        let bytes = self.to_bytes()?;
        proof {
            lemma_pdf_framed_len(bytes@);
        }
        Ok(bytes.len())
    }
}

/// Different image numbers give different resource names.
pub proof fn lemma_image_names_distinct(n: nat, m: nat)
    requires
        n != m,
    ensures
        image_resource_name(n) != image_resource_name(m),
{
    crate::text::lemma_decimal_value(n);
    crate::text::lemma_decimal_value(m);
    let p = "Image"@;
    if image_resource_name(n) == image_resource_name(m) {
        let a = p + crate::text::decimal(n);
        let b = p + crate::text::decimal(m);
        assert(a.len() == b.len());
        assert(crate::text::decimal(n) =~= a.subrange(p.len() as int, a.len() as int));
        assert(crate::text::decimal(m) =~= b.subrange(p.len() as int, b.len() as int));
    }
}

/// What a document built by `PdfBuilder::new` and any sequence of `add_jpeg_page` calls
/// (and of `finalize`, `to_bytes` or `estimate_size`) holds, as each of them keeps `wf`:
/// one page for each call that succeeded, in call order, and an image counter one past
/// them; page `i` (from zero) names its image `Image<i+1>`, so no two pages share a name,
/// and its resources refer to its own image stream only, which no other page uses; each
/// page is stored as created (with a `Parent` entry once the tree is built).
pub proof fn lemma_builder_pages(b: PdfBuilder)
    requires
        b.wf(),
    ensures
        b.page_objects@.len() == b.pages@.len(),
        b.current_image_counter == b.pages@.len() + 1,
        forall|i: int|
            0 <= i < b.pages@.len() ==> {
                &&& b.pages@[i] == (#[trigger] b.page_objects@[i]).page
                &&& b.page_objects@[i].counter == i + 1
                &&& page_stored_as(document_model(b.doc), b.page_objects@[i])
                &&& page_entries(b.page_objects@[i]) == page_dictionary(
                    b.page_objects@[i].media_box,
                    encode_utf8(image_resource_name((i + 1) as nat)),
                    b.page_objects@[i].image,
                    b.page_objects@[i].contents,
                )
            },
        forall|i: int, j: int|
            0 <= i < b.pages@.len() && 0 <= j < b.pages@.len() && i != j ==> {
                &&& b.pages@[i] != b.pages@[j]
                &&& (#[trigger] b.page_objects@[i]).image != (#[trigger] b.page_objects@[j]).image
                &&& image_resource_name(b.page_objects@[i].counter as nat) != image_resource_name(
                    b.page_objects@[j].counter as nat,
                )
            },
{
    assert forall|i: int, j: int|
        0 <= i < b.pages@.len() && 0 <= j < b.pages@.len() && i != j implies {
            &&& b.pages@[i] != b.pages@[j]
            &&& (#[trigger] b.page_objects@[i]).image != (#[trigger] b.page_objects@[j]).image
            &&& image_resource_name(b.page_objects@[i].counter as nat) != image_resource_name(
                b.page_objects@[j].counter as nat,
            )
        } by {
        assert(b.pages@[i] == b.page_objects@[i].page);
        assert(b.pages@[j] == b.page_objects@[j].page);
        lemma_image_names_distinct(
            b.page_objects@[i].counter as nat,
            b.page_objects@[j].counter as nat,
        );
    }
}

/// The bytes of the file that `b` becomes once a page made of `jpeg` (`width` by `height`
/// pixels, page box `media_box`) is added and the document is completed and written.
pub open spec fn bytes_with_page(
    b: PdfBuilder,
    jpeg: Seq<u8>,
    width: u32,
    height: u32,
    media_box: PdfValue,
) -> Seq<u8> {
    let m = document_model(b.doc);
    let page: ObjectId = ((m.max_id + 3) as u32, 0u16);
    saved_pdf(
        finalized_model(
            with_page(m, jpeg, width, height, media_box, b.current_image_counter),
            b.pages@.push(page),
        ),
    )
}

/// A finished PDF file: its number in the output and its bytes; `document` and `pages`
/// record, for the proof only, the document written and the pages it shows.
pub struct FinishedPdf {
    pub index: u32,
    pub bytes: Vec<u8>,
    pub document: Ghost<DocumentModel>,
    pub pages: Ghost<Seq<PageObjects>>,
}

/// Whether `bytes` are a PDF file showing `pages`, in order and nothing else: what lopdf
/// writes for the document `d`, whose catalog and page tree list exactly those pages, each
/// embedding its JPEG image unchanged.
pub open spec fn file_shows(bytes: Seq<u8>, d: DocumentModel, pages: Seq<PageObjects>) -> bool {
    &&& bytes == saved_pdf(d)
    &&& pdf_framed(bytes)
    &&& pages.len() > 0
    &&& exists|catalog: ObjectId, tree: ObjectId| document_shows(d, catalog, tree, pages)
}

/// The export of a sequence of JPEG files into numbered PDF files of bounded size.
///
/// After each page the current file is written out in memory (`current_bytes`); when a
/// page makes a file of more than one page exceed the limit, the file as it was before
/// that page is returned, and the next file starts with the page. `added` records, for the
/// proof only, what the pages added were made from (JPEG bytes, pixel size, page box), and
/// `files` the pages of each file returned, in the order returned.
pub struct PdfExporter {
    pub builder: PdfBuilder,
    pub splitter: PdfSplitter,
    pub max_bytes: u64,
    pub current_bytes: Vec<u8>,
    pub current_document: Ghost<DocumentModel>,
    pub added: Ghost<Seq<(Seq<u8>, u32, u32, PdfValue)>>,
    pub files: Ghost<Seq<Seq<PageObjects>>>,
}

impl PdfExporter {
    /// The document being built holds exactly the pages of the current file, whose bytes
    /// as they stand show them and respect the limit unless the file holds one page; every
    /// image added is in a file returned or in the current one, in order.
    pub open spec fn wf(self) -> bool {
        &&& self.splitter.wf()
        &&& self.builder.wf()
        &&& self.builder.pages@.len() == self.splitter.pages_in_current
        &&& self.builder.current_image_counter == self.splitter.pages_in_current + 1
        &&& self.splitter.pdf_index == self.files@.len() + 1
        &&& self.added@ == files_sources(self.files@) + page_sources(self.builder.page_objects@)
        &&& self.splitter.pages_in_current > 0 ==> {
            &&& file_shows(
                self.current_bytes@,
                self.current_document@,
                self.builder.page_objects@,
            )
            &&& (self.current_bytes@.len() <= self.max_bytes
                || self.splitter.pages_in_current == 1)
        }
    }

    /// An export with a size limit of `max_size_mb` megabytes a file.
    pub fn new(max_size_mb: u16) -> (r: PdfExporter)
        ensures
            r.wf(),
            r.max_bytes == max_size_mb as int * 1024 * 1024,
            r.splitter.pdf_index == 1,
            r.splitter.pages_in_current == 0,
            r.splitter.saved_pages@ == Seq::<nat>::empty(),
            r.splitter.total_pages@ == 0,
            r.added@ == Seq::<(Seq<u8>, u32, u32, PdfValue)>::empty(),
            r.files@ == Seq::<Seq<PageObjects>>::empty(),
            document_max_id(r.builder.doc) == 0,
    {
        let r = PdfExporter {
            builder: PdfBuilder::new(),
            splitter: PdfSplitter::new(),
            max_bytes: max_pdf_bytes(max_size_mb),
            current_bytes: Vec::new(),
            current_document: Ghost(fresh_document("1.5"@)),
            added: Ghost(Seq::empty()),
            files: Ghost(Seq::empty()),
        };
        assert(r.added@ =~= files_sources(r.files@) + page_sources(r.builder.page_objects@));
        r
    }

    /// Adds the next JPEG file as a page of `width` by `height` pixels with the page box
    /// `media_box`, and writes the current file out.
    ///
    /// When the file then holds more than one page and exceeds the limit, the file as it
    /// was before this page is returned with its number (within the limit, or of one page),
    /// and the next file starts with this page. A valid page succeeds when six object numbers
    /// are left in the current document: three for the page and three to write it.
    pub fn add_page(
        &mut self,
        jpeg_bytes: Vec<u8>,
        width: u32,
        height: u32,
        media_box: lopdf::Object,
    ) -> (r: Result<Option<FinishedPdf>, PdfError>)
        requires
            old(self).wf(),
            old(self).splitter.pages_in_current + 2 < u32::MAX,
            old(self).splitter.pdf_index < u32::MAX,
        ensures
            r is Ok ==> final(self).wf(),
            r is Ok ==> final(self).splitter.total_pages@ == old(self).splitter.total_pages@ + 1,
            r is Ok ==> final(self).added@ == old(self).added@.push(
                (jpeg_bytes@, width, height, object_value(media_box)),
            ),
            r matches Ok(Some(pdf)) ==> {
                &&& pdf.index == old(self).splitter.pdf_index
                &&& pdf.index == old(self).files@.len() + 1
                &&& pdf.pages@ == old(self).builder.page_objects@
                &&& file_shows(pdf.bytes@, pdf.document@, pdf.pages@)
                &&& (pdf.bytes@.len() <= old(self).max_bytes || pdf.pages@.len() == 1)
                &&& final(self).files@ == old(self).files@.push(pdf.pages@)
                &&& final(self).splitter.saved_pages@ == old(self).splitter.saved_pages@.push(
                    old(self).splitter.pages_in_current as nat,
                )
                &&& final(self).splitter.pages_in_current == 1
                &&& final(self).splitter.pdf_index == old(self).splitter.pdf_index + 1
            },
            r is Ok ==> (r matches Ok(Some(_)) <==> old(self).splitter.pages_in_current >= 1
                && bytes_with_page(
                old(self).builder,
                jpeg_bytes@,
                width,
                height,
                object_value(media_box),
            ).len() > old(self).max_bytes),
            r matches Ok(None) ==> {
                &&& final(self).files@ == old(self).files@
                &&& final(self).splitter.saved_pages@ == old(self).splitter.saved_pages@
                &&& final(self).splitter.pages_in_current == old(self).splitter.pages_in_current
                    + 1
                &&& final(self).splitter.pdf_index == old(self).splitter.pdf_index
            },
            jpeg_bytes@.len() == 0 ==> r == Err::<Option<FinishedPdf>, PdfError>(
                PdfError::Page(PageError::EmptyJpeg),
            ),
            jpeg_bytes@.len() != 0 && (width == 0 || height == 0) ==> r == Err::<
                Option<FinishedPdf>,
                PdfError,
            >(PdfError::Page(PageError::InvalidSize { width, height })),
            jpeg_bytes@.len() != 0 && width != 0 && height != 0 ==> ({
                let n = document_max_id(old(self).builder.doc);
                &&& n + 6 <= u32::MAX ==> r is Ok
                &&& n + 5 == u32::MAX ==> r == Err::<Option<FinishedPdf>, PdfError>(
                    PdfError::Write,
                )
                &&& n + 5 > u32::MAX ==> r == Err::<Option<FinishedPdf>, PdfError>(
                    PdfError::ObjectLimit,
                )
            }),
    {
        let ghost old_pages = self.builder.page_objects@;
        let ghost old_added = self.added@;
        let copy = jpeg_bytes.clone();
        let box_copy = clone_object(&media_box);
        let ghost box_value = object_value(media_box);
        self.builder.add_jpeg_page(copy, width, height, media_box)?;
        self.splitter.page_added();
        self.added = Ghost(self.added@.push((jpeg_bytes@, width, height, box_value)));
        let ghost m_added = document_model(self.builder.doc);
        let ghost pages_added = self.builder.page_objects@;
        let bytes = self.builder.to_bytes()?;
        proof {
            assert(page_sources(pages_added) =~= page_sources(old_pages).push(
                (jpeg_bytes@, width, height, box_value),
            ));
            assert(self.added@ =~= files_sources(self.files@) + page_sources(pages_added));
        }
        let ghost document = finalized_model(m_added, page_ids(pages_added));
        match self.splitter.size_checked(bytes.len(), self.max_bytes) {
            None => {
                self.current_bytes = bytes;
                self.current_document = Ghost(document);
                Ok(None)
            },
            Some(index) => {
                let mut previous: Vec<u8> = Vec::new();
                std::mem::swap(&mut previous, &mut self.current_bytes);
                let finished = FinishedPdf {
                    index,
                    bytes: previous,
                    document: self.current_document,
                    pages: Ghost(old_pages),
                };
                let ghost old_files = self.files@;
                self.files = Ghost(self.files@.push(old_pages));
                self.builder = PdfBuilder::new();
                self.builder.add_jpeg_page(jpeg_bytes, width, height, box_copy)?;
                let ghost m_first = document_model(self.builder.doc);
                let ghost pages_first = self.builder.page_objects@;
                let first = self.builder.to_bytes()?;
                self.current_bytes = first;
                self.current_document = Ghost(finalized_model(m_first, page_ids(pages_first)));
                proof {
                    assert(page_sources(pages_first) =~= seq![(jpeg_bytes@, width, height, box_value)]);
                    assert(page_sources(old_pages).push((jpeg_bytes@, width, height, box_value))
                        =~= page_sources(old_pages) + seq![(jpeg_bytes@, width, height, box_value)]);
                    lemma_files_sources_push(old_files, old_pages);
                    assert(self.added@ =~= files_sources(self.files@) + page_sources(pages_first));
                }
                Ok(Some(finished))
            },
        }
    }

    /// Returns the last file, if it holds any page, with its number: its bytes as written
    /// after its last page. The files returned by the export then hold every image added,
    /// each exactly once, in the order added, numbered from one without gap; each is within
    /// the limit or holds one page.
    pub fn finish(&mut self) -> (r: Option<FinishedPdf>)
        requires
            old(self).wf(),
        ensures
            old(self).splitter.pages_in_current == 0 ==> r is None && old(self).added@
                == files_sources(old(self).files@),
            old(self).splitter.pages_in_current > 0 ==> (r matches Some(pdf) && {
                &&& pdf.index == old(self).files@.len() + 1
                &&& pdf.pages@ == old(self).builder.page_objects@
                &&& file_shows(pdf.bytes@, pdf.document@, pdf.pages@)
                &&& (pdf.bytes@.len() <= old(self).max_bytes || pdf.pages@.len() == 1)
                &&& old(self).added@ == files_sources(old(self).files@.push(pdf.pages@))
            }),
            sum_of_files(old(self).splitter.saved_pages@, old(self).splitter.pages_in_current)
                == old(self).splitter.total_pages@,
            old(self).splitter.pdf_index == old(self).files@.len() + 1,
    {
        proof {
            lemma_files_sources_push(self.files@, self.builder.page_objects@);
        }
        match self.splitter.finish() {
            None => {
                assert(page_sources(self.builder.page_objects@) =~= Seq::<
                    (Seq<u8>, u32, u32, PdfValue),
                >::empty());
                assert(self.added@ =~= files_sources(self.files@));
                None
            },
            Some(index) => {
                let mut bytes: Vec<u8> = Vec::new();
                std::mem::swap(&mut bytes, &mut self.current_bytes);
                Some(
                    FinishedPdf {
                        index,
                        bytes,
                        document: self.current_document,
                        pages: Ghost(self.builder.page_objects@),
                    },
                )
            },
        }
    }
}

/// What the pages of a list of files were made from, file after file.
pub open spec fn files_sources(files: Seq<Seq<PageObjects>>) -> Seq<(Seq<u8>, u32, u32, PdfValue)>
    decreases files.len(),
{
    if files.len() == 0 {
        Seq::empty()
    } else {
        files_sources(files.drop_last()) + page_sources(files.last())
    }
}

proof fn lemma_files_sources_push(files: Seq<Seq<PageObjects>>, last: Seq<PageObjects>)
    ensures
        files_sources(files.push(last)) == files_sources(files) + page_sources(last),
{
    assert(files.push(last).drop_last() =~= files);
}

/// The pages held by the files written before and the last one.
pub open spec fn sum_of_files(saved: Seq<nat>, last: u32) -> nat {
    (crate::export_pdf::sum(saved) + last) as nat
}

} // verus!
