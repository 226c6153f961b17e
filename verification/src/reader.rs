//! The snapshot reader: what a panel shows for a document, given what the
//! store holds at the moment of the reading. A reading changes nothing.

use crate::schema::{text_of, Component, ComponentView, SchemaDocument};
use crate::store::{
    consistent, scalar_of, series_of, Sample, StoreModel, TelemetryStore, CAPACITY,
};
use crate::text::{decimal_text, push_decimal, push_natural};
use vstd::hash_map::StringHashMap;
use vstd::prelude::*;
use vstd::string::StringExecFns;

verus! {

/// One thing to draw.
#[derive(Clone, Debug, PartialEq, Eq)]
pub enum Widget {
    /// A line of text: caption, latest value and unit of a label.
    Label { text: String },
    /// A push button with its name and its text.
    Button { key: String, text: String },
    /// A text field with its label.
    Input { label: String },
    /// A plot of the history of a key, under an identifier of its own.
    Plot { id: String, points: Vec<Sample> },
}

/// One thing to draw, as a mathematical value.
#[allow(inconsistent_fields)]
pub enum WidgetView {
    Label { text: Seq<char> },
    Button { key: Seq<char>, text: Seq<char> },
    Input { label: Seq<char> },
    Plot { id: Seq<char>, points: Seq<Sample> },
}

impl View for Widget {
    type V = WidgetView;

    open spec fn view(&self) -> WidgetView {
        match *self {
            Widget::Label { text } => WidgetView::Label { text: text@ },
            Widget::Button { key, text } => WidgetView::Button { key: key@, text: text@ },
            Widget::Input { label } => WidgetView::Input { label: label@ },
            Widget::Plot { id, points } => WidgetView::Plot { id: id@, points: points@ },
        }
    }
}

/// The views of a list of widgets.
pub open spec fn widget_views(widgets: Seq<Widget>) -> Seq<WidgetView> {
    Seq::new(widgets.len(), |i: int| widgets[i]@)
}

/// The line that a label shows: its caption (`Label` where it has none), a
/// colon, the value with two decimals, and its unit (nothing where it has
/// none).
pub open spec fn label_text(caption: Option<Seq<char>>, value: i64, unit: Option<Seq<char>>) -> Seq<
    char,
> {
    let caption = match caption {
        Some(c) => c,
        None => "Label"@,
    };
    let unit = match unit {
        Some(u) => u,
        None => Seq::empty(),
    };
    caption + ": "@ + decimal_text(value as int) + ".00"@ + " "@ + unit
}

/// The identifier of the plot that is the `instance`-th graph of `key` in
/// its document, counted from one.
pub open spec fn plot_id(key: Seq<char>, instance: nat) -> Seq<char> {
    "graph_"@ + key + "_"@ + decimal_text(instance as int)
}

/// How many graphs of `key` there are among `components`.
pub open spec fn graph_count(components: Seq<ComponentView>, key: Seq<char>) -> nat
    decreases components.len(),
{
    if components.len() == 0 {
        0
    } else {
        graph_count(components.drop_last(), key) + if components.last()
            == (ComponentView::Graph { key }) {
            1nat
        } else {
            0nat
        }
    }
}

/// What the panel shows for the widget at position `i`: a label's line with
/// the latest value of its key, a button, an input, and for a graph the plot
/// of the history of its key, unless that history is empty: then the graph
/// shows nothing.
pub open spec fn widget_at(components: Seq<ComponentView>, i: int, m: StoreModel) -> Option<
    WidgetView,
> {
    match components[i] {
        ComponentView::Label { key, text, unit } => Some(
            WidgetView::Label { text: label_text(text, scalar_of(m, key), unit) },
        ),
        ComponentView::Button { key, text } => Some(WidgetView::Button { key, text }),
        ComponentView::Input { label } => Some(WidgetView::Input { label }),
        ComponentView::Graph { key } => if series_of(m, key).len() > 0 {
            Some(
                WidgetView::Plot {
                    id: plot_id(key, graph_count(components.subrange(0, i + 1), key)),
                    points: series_of(m, key),
                },
            )
        } else {
            None
        },
    }
}

/// What the panel shows for the first `n` widgets of `components`, in their
/// order.
pub open spec fn rendered(components: Seq<ComponentView>, n: int, m: StoreModel) -> Seq<WidgetView>
    decreases n,
{
    if n <= 0 {
        Seq::empty()
    } else {
        match widget_at(components, n - 1, m) {
            Some(w) => rendered(components, n - 1, m).push(w),
            None => rendered(components, n - 1, m),
        }
    }
}

/// The line of a label.
fn label_line(caption: &Option<String>, value: i64, unit: &Option<String>) -> (line: String)
    ensures
        line@ == label_text(text_of(*caption), value, text_of(*unit)),
{
    let mut line = match caption {
        Some(c) => c.clone(),
        None => "Label".to_owned(),
    };
    line.append(": ");
    push_decimal(&mut line, value);
    line.append(".00");
    line.append(" ");
    if let Some(u) = unit {
        line.append(u.as_str());
    }
    line
}

/// The identifier of a plot.
fn plot_name(key: &str, instance: usize) -> (id: String)
    ensures
        id@ == plot_id(key@, instance as nat),
{
    let mut id = "graph_".to_owned();
    id.append(key);
    id.append("_");
    push_natural(&mut id, instance as u64);
    id
}

/// A graph count never exceeds the number of widgets counted.
proof fn lemma_graph_count_bound(components: Seq<ComponentView>, key: Seq<char>)
    ensures
        graph_count(components, key) <= components.len(),
    decreases components.len(),
{
    if components.len() > 0 {
        lemma_graph_count_bound(components.drop_last(), key);
    }
}

/// Reads what the panel shows for `doc` out of `store`: one item for every
/// widget of the document, in order, but for graphs without data, which show
/// nothing. The store is not changed.
pub fn render(doc: &SchemaDocument, store: &TelemetryStore) -> (widgets: Vec<Widget>)
    ensures
        widget_views(widgets@) == rendered(doc@.components, doc@.components.len() as int, store@),
{
    let ghost components = doc@.components;
    let mut widgets: Vec<Widget> = Vec::new();
    let mut counts: StringHashMap<usize> = StringHashMap::new();
    let mut i: usize = 0;
    while i < doc.components.len()
        invariant
            i <= doc.components@.len(),
            components == doc@.components,
            widget_views(widgets@) == rendered(components, i as int, store@),
            forall|k: Seq<char>|
                counts@.contains_key(k) <==> graph_count(components.subrange(0, i as int), k) > 0,
            forall|k: Seq<char>|
                counts@.contains_key(k) ==> #[trigger] counts@[k] == graph_count(
                    components.subrange(0, i as int),
                    k,
                ),
        decreases doc.components@.len() - i,
    {
        let ghost seen = components.subrange(0, i as int);
        let ghost longer = components.subrange(0, i + 1);
        assert(longer.drop_last() =~= seen);
        match &doc.components[i] {
            Component::Label { key, text, unit } => {
                let line = label_line(text, store.read_scalar(key.as_str()), unit);
                widgets.push(Widget::Label { text: line });
            },
            Component::Button { key, text } => {
                widgets.push(Widget::Button { key: key.clone(), text: text.clone() });
            },
            Component::Input { label } => {
                widgets.push(Widget::Input { label: label.clone() });
            },
            Component::Graph { key } => {
                proof {
                    lemma_graph_count_bound(seen, key@);
                }
                let instance: usize = match counts.get(key.as_str()) {
                    Some(n) => *n + 1,
                    None => 1,
                };
                counts.insert(key.clone(), instance);
                let points = store.read_series(key.as_str());
                if points.len() > 0 {
                    let id = plot_name(key.as_str(), instance);
                    widgets.push(Widget::Plot { id, points });
                }
            },
        }
        i += 1;
    }
    widgets
}

/// A panel shows at most one item for each widget of its document.
pub proof fn lemma_rendered_len(components: Seq<ComponentView>, n: int, m: StoreModel)
    requires
        0 <= n <= components.len(),
    ensures
        rendered(components, n, m).len() <= n,
    decreases n,
{
    if n > 0 {
        lemma_rendered_len(components, n - 1, m);
    }
}

/// Every plot that a panel shows has data: one point at least, and with a
/// consistent store no more than the capacity of a history.
pub proof fn lemma_plots_have_data(components: Seq<ComponentView>, n: int, m: StoreModel, i: int)
    requires
        consistent(m),
        0 <= n <= components.len(),
        0 <= i < rendered(components, n, m).len(),
    ensures
        rendered(components, n, m)[i] matches WidgetView::Plot { points, .. } ==> 0 < points.len()
            <= CAPACITY,
    decreases n,
{
    if n > 0 {
        let front = rendered(components, n - 1, m);
        if i < front.len() {
            lemma_plots_have_data(components, n - 1, m, i);
        } else {
            match components[n - 1] {
                ComponentView::Graph { key } => {
                    assert(m.contains_key(key));
                },
                _ => {},
            }
        }
    }
}

} // verus!
