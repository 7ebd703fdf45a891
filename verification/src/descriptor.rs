//! Tool descriptors: what a tool is called, what it does, and which
//! arguments it takes.

use crate::document::{field_views, item_views, Document, DocumentView, Field};
use crate::text::views;
use vstd::prelude::*;

verus! {

/// One named argument of a tool.
#[derive(Clone, Debug, PartialEq, Eq)]
pub struct Property {
    pub name: String,
    /// The argument's type, in the words of JSON Schema.
    pub kind: String,
    pub description: String,
}

/// The arguments of a tool: an object with the given properties, of which
/// those named in `required` must be present.
#[derive(Clone, Debug, PartialEq, Eq)]
pub struct ParameterSchema {
    /// The schema's own type, in the words of JSON Schema.
    pub kind: String,
    pub properties: Vec<Property>,
    pub required: Vec<String>,
}

/// What a tool declares of itself.
#[derive(Clone, Debug, PartialEq, Eq)]
pub struct ToolDescriptor {
    pub name: String,
    pub description: String,
    pub parameters: ParameterSchema,
}

/// What a property holds.
pub struct PropertyView {
    pub name: Seq<char>,
    pub kind: Seq<char>,
    pub description: Seq<char>,
}

/// What a schema holds.
pub struct ParameterSchemaView {
    pub kind: Seq<char>,
    pub properties: Seq<PropertyView>,
    pub required: Seq<Seq<char>>,
}

/// What a descriptor holds.
pub struct ToolDescriptorView {
    pub name: Seq<char>,
    pub description: Seq<char>,
    pub parameters: ParameterSchemaView,
}

impl View for Property {
    type V = PropertyView;

    open spec fn view(&self) -> PropertyView {
        PropertyView { name: self.name@, kind: self.kind@, description: self.description@ }
    }
}

impl View for ParameterSchema {
    type V = ParameterSchemaView;

    open spec fn view(&self) -> ParameterSchemaView {
        ParameterSchemaView {
            kind: self.kind@,
            properties: Seq::new(self.properties@.len(), |i: int| self.properties@[i]@),
            required: views(self.required@),
        }
    }
}

impl View for ToolDescriptor {
    type V = ToolDescriptorView;

    open spec fn view(&self) -> ToolDescriptorView {
        ToolDescriptorView {
            name: self.name@,
            description: self.description@,
            parameters: self.parameters@,
        }
    }
}

impl ParameterSchemaView {
    /// Whether a property is called `name`.
    pub open spec fn declares(self, name: Seq<char>) -> bool {
        exists|j: int| 0 <= j < self.properties.len() && #[trigger] self.properties[j].name == name
    }

    /// Every required argument is one of the properties, and no two
    /// properties share a name.
    pub open spec fn wf(self) -> bool {
        &&& forall|i: int| 0 <= i < self.required.len() ==> self.declares(#[trigger] self.required[i])
        &&& forall|i: int, j: int|
            0 <= i < j < self.properties.len() ==> #[trigger] self.properties[i].name
                != #[trigger] self.properties[j].name
    }
}

/// The document of a property: its type and its description.
pub open spec fn property_document(property: PropertyView) -> DocumentView {
    DocumentView::Object(
        seq![
            ("type"@, DocumentView::Text(property.kind)),
            ("description"@, DocumentView::Text(property.description)),
        ],
    )
}

/// The document of the properties: an object with a field for each, under
/// its name.
pub open spec fn properties_document(properties: Seq<PropertyView>) -> DocumentView {
    DocumentView::Object(
        Seq::new(
            properties.len(),
            |i: int| (properties[i].name, property_document(properties[i])),
        ),
    )
}

/// The document of the required arguments: the list of their names.
pub open spec fn required_document(required: Seq<Seq<char>>) -> DocumentView {
    DocumentView::List(Seq::new(required.len(), |i: int| DocumentView::Text(required[i])))
}

/// The document of a schema, as the conversation engine reads it: an object
/// with the fields `type`, `properties` and `required`.
pub open spec fn schema_document(schema: ParameterSchemaView) -> DocumentView {
    DocumentView::Object(
        seq![
            ("type"@, DocumentView::Text(schema.kind)),
            ("properties"@, properties_document(schema.properties)),
            ("required"@, required_document(schema.required)),
        ],
    )
}

/// The document of a descriptor, as the conversation engine reads it: an
/// object with the fields `name`, `description` and `parameters`.
pub open spec fn descriptor_document(descriptor: ToolDescriptorView) -> DocumentView {
    DocumentView::Object(
        seq![
            ("name"@, DocumentView::Text(descriptor.name)),
            ("description"@, DocumentView::Text(descriptor.description)),
            ("parameters"@, schema_document(descriptor.parameters)),
        ],
    )
}

impl ToolDescriptorView {
    /// The descriptor's schema is well formed.
    pub open spec fn wf(self) -> bool {
        self.parameters.wf()
    }
}

impl Property {
    /// The property as a document.
    pub fn document(&self) -> (r: Document)
        ensures
            r@ == property_document(self@),
    {
        let mut fields: Vec<Field> = Vec::new();
        fields.push(Field::new("type", Document::text(self.kind.as_str())));
        fields.push(Field::new("description", Document::text(self.description.as_str())));
        assert(field_views(fields@) =~= property_document(self@)->Object_0);
        Document::object(fields)
    }
}

impl ParameterSchema {
    /// The schema as a document.
    pub fn document(&self) -> (r: Document)
        ensures
            r@ == schema_document(self@),
    {
        let mut properties: Vec<Field> = Vec::new();
        let mut i: usize = 0;
        while i < self.properties.len()
            invariant
                i <= self.properties@.len(),
                properties@.len() == i,
                forall|k: int|
                    0 <= k < i ==> (#[trigger] properties@[k]).name@ == self@.properties[k].name
                        && properties@[k].value@ == property_document(self@.properties[k]),
            decreases self.properties@.len() - i,
        {
            properties.push(
                Field::new(self.properties[i].name.as_str(), self.properties[i].document()),
            );
            i = i + 1;
        }
        assert(field_views(properties@) =~= properties_document(self@.properties)->Object_0);
        let mut required: Vec<Document> = Vec::new();
        let mut j: usize = 0;
        while j < self.required.len()
            invariant
                j <= self.required@.len(),
                required@.len() == j,
                forall|k: int|
                    0 <= k < j ==> (#[trigger] required@[k])@ == DocumentView::Text(
                        self@.required[k],
                    ),
            decreases self.required@.len() - j,
        {
            required.push(Document::text(self.required[j].as_str()));
            j = j + 1;
        }
        assert(item_views(required@) =~= required_document(self@.required)->List_0);
        let mut fields: Vec<Field> = Vec::new();
        fields.push(Field::new("type", Document::text(self.kind.as_str())));
        fields.push(Field::new("properties", Document::object(properties)));
        fields.push(Field::new("required", Document::list(required)));
        assert(field_views(fields@) =~= schema_document(self@)->Object_0);
        Document::object(fields)
    }

    /// Whether a property is called `name`.
    pub fn declares(&self, name: &String) -> (r: bool)
        ensures
            r == self@.declares(name@),
    {
        let mut j: usize = 0;
        while j < self.properties.len()
            invariant
                j <= self.properties@.len(),
                forall|k: int| 0 <= k < j ==> (#[trigger] self@.properties[k]).name != name@,
            decreases self.properties@.len() - j,
        {
            if self.properties[j].name == *name {
                assert(self@.properties[j as int].name == name@);
                return true;
            }
            j = j + 1;
        }
        false
    }

    /// Whether the schema is well formed.
    pub fn is_well_formed(&self) -> (r: bool)
        ensures
            r == self@.wf(),
    {
        let mut i: usize = 0;
        while i < self.required.len()
            invariant
                i <= self.required@.len(),
                forall|k: int| 0 <= k < i ==> self@.declares(#[trigger] self@.required[k]),
            decreases self.required@.len() - i,
        {
            if !self.declares(&self.required[i]) {
                assert(!self@.declares(self@.required[i as int]));
                return false;
            }
            i = i + 1;
        }
        let mut a: usize = 0;
        while a < self.properties.len()
            invariant
                a <= self.properties@.len(),
                forall|k: int| 0 <= k < self.required@.len() ==> self@.declares(
                    #[trigger] self@.required[k],
                ),
                forall|x: int, y: int|
                    0 <= x < y < self.properties@.len() && x < a ==> (
                    #[trigger] self@.properties[x]).name != (#[trigger] self@.properties[y]).name,
            decreases self.properties@.len() - a,
        {
            let mut b: usize = a + 1;
            while b < self.properties.len()
                invariant
                    a < b <= self.properties@.len(),
                    forall|y: int|
                        a < y < b ==> self@.properties[a as int].name != (
                        #[trigger] self@.properties[y]).name,
                decreases self.properties@.len() - b,
            {
                if self.properties[a].name == self.properties[b].name {
                    assert(self@.properties[a as int].name == self@.properties[b as int].name);
                    return false;
                }
                b = b + 1;
            }
            a = a + 1;
        }
        true
    }
}

impl ToolDescriptor {
    /// The descriptor as a document.
    pub fn document(&self) -> (r: Document)
        ensures
            r@ == descriptor_document(self@),
    {
        let mut fields: Vec<Field> = Vec::new();
        fields.push(Field::new("name", Document::text(self.name.as_str())));
        fields.push(Field::new("description", Document::text(self.description.as_str())));
        fields.push(Field::new("parameters", self.parameters.document()));
        assert(field_views(fields@) =~= descriptor_document(self@)->Object_0);
        Document::object(fields)
    }

    /// Whether the descriptor's schema is well formed.
    pub fn is_well_formed(&self) -> (r: bool)
        ensures
            r == self@.wf(),
    {
        self.parameters.is_well_formed()
    }
}

} // verus!
