//! The schema: which widgets a panel shows and which data channels feed it.
//!
//! A document is plain data. Nothing in it is checked against anything else:
//! a key may occur in any number of widgets and data sources, and a key that
//! no data source names is as good as any other.

use vstd::prelude::*;

verus! {

/// One widget of the panel.
#[allow(inconsistent_fields)]
#[derive(Clone, Debug, PartialEq, Eq)]
pub enum Component {
    /// Shows the latest value of `key`, with a caption and a unit.
    Label { key: String, text: Option<String>, unit: Option<String> },
    /// A push button; `key` names it and binds no data.
    Button { key: String, text: String },
    /// A text field with a label in front. It binds no data.
    Input { label: String },
    /// Plots the history of `key`.
    Graph { key: String },
}

/// One data channel and how its value is to be cut out of a bus frame. Only
/// `key` matters to the store; the rest is carried along unchanged.
#[derive(Clone, Debug, PartialEq, Eq)]
pub struct DataSourceConfig {
    /// The key of the channel.
    pub key: String,
    /// The identifier of the frame.
    pub id: u32,
    /// The offset of the first byte of the value in the frame.
    pub index: u8,
    /// The number of bytes of the value.
    pub len: u8,
    /// The byte order flag.
    pub endian: u8,
    /// The declared type of the value.
    pub value_type: String,
}

/// A schema document: the widgets in display order, then the data sources.
#[derive(Clone, Debug, PartialEq, Eq)]
pub struct SchemaDocument {
    pub components: Vec<Component>,
    pub data_sources: Vec<DataSourceConfig>,
}

/// A widget as a mathematical value.
#[allow(inconsistent_fields)]
pub enum ComponentView {
    Label { key: Seq<char>, text: Option<Seq<char>>, unit: Option<Seq<char>> },
    Button { key: Seq<char>, text: Seq<char> },
    Input { label: Seq<char> },
    Graph { key: Seq<char> },
}

/// A data source as a mathematical value.
pub struct DataSourceView {
    pub key: Seq<char>,
    pub id: u32,
    pub index: u8,
    pub len: u8,
    pub endian: u8,
    pub value_type: Seq<char>,
}

/// A document as a mathematical value.
pub struct DocumentView {
    pub components: Seq<ComponentView>,
    pub data_sources: Seq<DataSourceView>,
}

/// The text of an optional string.
pub open spec fn text_of(s: Option<String>) -> Option<Seq<char>> {
    match s {
        Some(t) => Some(t@),
        None => None,
    }
}

impl View for Component {
    type V = ComponentView;

    open spec fn view(&self) -> ComponentView {
        match *self {
            Component::Label { key, text, unit } => ComponentView::Label {
                key: key@,
                text: text_of(text),
                unit: text_of(unit),
            },
            Component::Button { key, text } => ComponentView::Button { key: key@, text: text@ },
            Component::Input { label } => ComponentView::Input { label: label@ },
            Component::Graph { key } => ComponentView::Graph { key: key@ },
        }
    }
}

impl View for DataSourceConfig {
    type V = DataSourceView;

    open spec fn view(&self) -> DataSourceView {
        DataSourceView {
            key: self.key@,
            id: self.id,
            index: self.index,
            len: self.len,
            endian: self.endian,
            value_type: self.value_type@,
        }
    }
}

impl View for SchemaDocument {
    type V = DocumentView;

    open spec fn view(&self) -> DocumentView {
        DocumentView {
            components: Seq::new(self.components@.len(), |i: int| self.components@[i]@),
            data_sources: Seq::new(self.data_sources@.len(), |i: int| self.data_sources@[i]@),
        }
    }
}

/// The key whose data a widget shows: that of a label or a graph. A button's
/// key binds no data, and an input has none.
pub open spec fn bound_key(c: ComponentView) -> Option<Seq<char>> {
    match c {
        ComponentView::Label { key, .. } => Some(key),
        ComponentView::Graph { key } => Some(key),
        ComponentView::Button { .. } => None,
        ComponentView::Input { .. } => None,
    }
}

/// The keys that a document binds data to: those of its labels and graphs,
/// and those of its data sources.
pub open spec fn bound_keys(doc: DocumentView) -> Set<Seq<char>> {
    Set::new(
        |k: Seq<char>|
            {
                ||| exists|i: int|
                    0 <= i < doc.components.len() && bound_key(#[trigger] doc.components[i])
                        == Some(k)
                ||| exists|i: int|
                    0 <= i < doc.data_sources.len() && (#[trigger] doc.data_sources[i]).key == k
            },
    )
}

/// The document that stands in wherever no valid one is at hand: one label
/// on the key `lb0`, and one data source for the same key.
pub open spec fn default_document() -> DocumentView {
    DocumentView {
        components: seq![
            ComponentView::Label {
                key: "lb0"@,
                text: Some("預設標籤"@),
                unit: Some("unit"@),
            },
        ],
        data_sources: seq![
            DataSourceView {
                key: "lb0"@,
                id: 0,
                index: 0,
                len: 2,
                endian: 0,
                value_type: "float32"@,
            },
        ],
    }
}

impl Component {
    /// The key whose data this widget shows, if it shows any.
    pub fn data_key(&self) -> (key: Option<&String>)
        ensures
            match key {
                Some(k) => bound_key(self@) == Some(k@),
                None => bound_key(self@) is None,
            },
    {
        match self {
            Component::Label { key, .. } => Some(key),
            Component::Graph { key } => Some(key),
            Component::Button { .. } => None,
            Component::Input { .. } => None,
        }
    }
}

impl Default for SchemaDocument {
    /// The canonical default document.
    fn default() -> (doc: SchemaDocument)
        ensures
            doc@ == default_document(),
    {
        let mut components: Vec<Component> = Vec::new();
        components.push(
            Component::Label {
                key: "lb0".to_owned(),
                text: Some("預設標籤".to_owned()),
                unit: Some("unit".to_owned()),
            },
        );
        let mut data_sources: Vec<DataSourceConfig> = Vec::new();
        data_sources.push(
            DataSourceConfig {
                key: "lb0".to_owned(),
                id: 0,
                index: 0,
                len: 2,
                endian: 0,
                value_type: "float32".to_owned(),
            },
        );
        let doc = SchemaDocument { components, data_sources };
        assert(doc@.components =~= default_document().components);
        assert(doc@.data_sources =~= default_document().data_sources);
        doc
    }
}

impl SchemaDocument {
    /// The document to go on with after an attempt to load one: the loaded
    /// document where there is one, and otherwise the canonical default,
    /// whole.
    pub fn or_default(loaded: Option<SchemaDocument>) -> (doc: SchemaDocument)
        ensures
            match loaded {
                Some(d) => doc == d,
                None => doc@ == default_document(),
            },
    {
        match loaded {
            Some(d) => d,
            None => SchemaDocument::default(),
        }
    }
}

} // verus!
