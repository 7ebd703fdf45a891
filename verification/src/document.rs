//! JSON-like documents.

use vstd::prelude::*;

verus! {

/// A JSON-like document: a text, a list, or an object whose fields keep
/// their order.
#[derive(Debug, PartialEq, Eq)]
pub enum Document {
    Text(String),
    List(Vec<Document>),
    Object(Vec<Field>),
}

/// A field of an object.
#[derive(Debug, PartialEq, Eq)]
pub struct Field {
    pub name: String,
    pub value: Document,
}

/// What a document holds: for an object, its fields as pairs of a name and
/// a value.
pub enum DocumentView {
    Text(Seq<char>),
    List(Seq<DocumentView>),
    Object(Seq<(Seq<char>, DocumentView)>),
}

/// What `document` holds.
pub open spec fn document_view(document: Document) -> DocumentView
    decreases document,
{
    match document {
        Document::Text(text) => DocumentView::Text(text@),
        Document::List(items) => DocumentView::List(
            Seq::new(
                items@.len(),
                |i: int|
                    if 0 <= i < items@.len() {
                        document_view(items@[i])
                    } else {
                        DocumentView::Text(Seq::empty())
                    },
            ),
        ),
        Document::Object(fields) => DocumentView::Object(
            Seq::new(
                fields@.len(),
                |i: int|
                    if 0 <= i < fields@.len() {
                        (fields@[i].name@, document_view(fields@[i].value))
                    } else {
                        (Seq::empty(), DocumentView::Text(Seq::empty()))
                    },
            ),
        ),
    }
}

impl View for Document {
    type V = DocumentView;

    open spec fn view(&self) -> DocumentView {
        document_view(*self)
    }
}

/// What the fields of an object hold.
pub open spec fn field_views(fields: Seq<Field>) -> Seq<(Seq<char>, DocumentView)> {
    Seq::new(fields.len(), |i: int| (fields[i].name@, fields[i].value@))
}

/// What the items of a list hold.
pub open spec fn item_views(items: Seq<Document>) -> Seq<DocumentView> {
    Seq::new(items.len(), |i: int| items[i]@)
}

impl Document {
    /// A text.
    pub fn text(text: &str) -> (r: Document)
        ensures
            r@ == DocumentView::Text(text@),
    {
        Document::Text(String::from_str(text))
    }

    /// A list of the given items.
    pub fn list(items: Vec<Document>) -> (r: Document)
        ensures
            r@ == DocumentView::List(item_views(items@)),
    {
        let r = Document::List(items);
        assert(r@->List_0 =~= item_views(items@));
        r
    }

    /// An object of the given fields.
    pub fn object(fields: Vec<Field>) -> (r: Document)
        ensures
            r@ == DocumentView::Object(field_views(fields@)),
    {
        let r = Document::Object(fields);
        assert(r@->Object_0 =~= field_views(fields@));
        r
    }
}

impl Field {
    /// A field of the given name and value.
    pub fn new(name: &str, value: Document) -> (r: Field)
        ensures
            r.name@ == name@,
            r.value == value,
    {
        Field { name: String::from_str(name), value }
    }
}

} // verus!
