//! What a screen shows, as a value: a tree of texts, inputs, buttons and the boxes
//! that lay them out.
//!
//! A [`Node`] names no toolkit. It says what is shown and which event each control
//! sends; drawing it is left to the caller.

use crate::ui::app::{Message, MessageModel};
use crate::ui::style::Rgb;
use vstd::prelude::*;

verus! {

/// How much room a widget takes along one axis.
#[derive(Debug, Clone, Copy, PartialEq, Eq, Structural)]
pub enum Length {
    /// As little as its content needs.
    Shrink,
    /// All that is left.
    Fill,
    /// A share of what is left, in proportion to this number.
    FillPortion(u16),
}

/// The weight that the toolkit's theme gives a button.
#[derive(Debug, Clone, Copy, PartialEq, Eq, Structural)]
pub enum Emphasis {
    Primary,
    Secondary,
}

/// The fields that the user types into.
#[derive(Debug, Clone, Copy, PartialEq, Eq, Structural)]
pub enum Field {
    MasterPassword,
    Password,
    ServiceUrl,
    Email,
}

impl Field {
    /// The event that reports `value` as typed into this field.
    pub open spec fn event(self, value: Seq<char>) -> MessageModel {
        match self {
            Field::MasterPassword => MessageModel::MasterPasswordInputChanged(value),
            Field::Password => MessageModel::InputChanged(value),
            Field::ServiceUrl => MessageModel::ServiceUrlChanged(value),
            Field::Email => MessageModel::EmailInputChanged(value),
        }
    }

    /// The event that reports `value` as typed into this field.
    pub fn message(&self, value: String) -> (message: Message)
        ensures
            message@ == self.event(value@),
    {
        match self {
            Field::MasterPassword => Message::MasterPasswordInputChanged(value),
            Field::Password => Message::InputChanged(value),
            Field::ServiceUrl => Message::ServiceUrlChanged(value),
            Field::Email => Message::EmailInputChanged(value),
        }
    }
}

/// One widget with all that it holds. A size, a padding or a width bound that is
/// `None` is left as the toolkit has it.
#[derive(Debug, PartialEq, Eq)]
pub enum Node {
    /// A line of text, in points and in a colour.
    Text { content: String, size: Option<u16>, color: Option<Rgb> },
    /// A line to type into, which reports what is typed by the event of `field`;
    /// `secure` hides the characters.
    Input {
        placeholder: String,
        value: String,
        field: Field,
        padding: Option<u16>,
        width: Length,
        secure: bool,
    },
    /// A button with a line of text on it, which sends `on_press`.
    Button {
        label: String,
        label_size: Option<u16>,
        on_press: Message,
        padding: Option<u16>,
        width: Length,
        emphasis: Option<Emphasis>,
    },
    /// Widgets one below the other.
    Column {
        spacing: u16,
        padding: Option<u16>,
        max_width: Option<u16>,
        width: Length,
        children: Vec<Node>,
    },
    /// Widgets side by side.
    Row { spacing: u16, padding: Option<u16>, children: Vec<Node> },
    /// A widget that scrolls where it is too long.
    Scrollable(Box<Node>),
    /// A box around a widget, which may centre it.
    Container { child: Box<Node>, width: Length, height: Length, center_x: bool, center_y: bool },
}

/// The mathematical content of a [`Node`].
pub enum NodeModel {
    Text { content: Seq<char>, size: Option<u16>, color: Option<Rgb> },
    Input {
        placeholder: Seq<char>,
        value: Seq<char>,
        field: Field,
        padding: Option<u16>,
        width: Length,
        secure: bool,
    },
    Button {
        label: Seq<char>,
        label_size: Option<u16>,
        on_press: MessageModel,
        padding: Option<u16>,
        width: Length,
        emphasis: Option<Emphasis>,
    },
    Column {
        spacing: u16,
        padding: Option<u16>,
        max_width: Option<u16>,
        width: Length,
        children: Seq<NodeModel>,
    },
    Row { spacing: u16, padding: Option<u16>, children: Seq<NodeModel> },
    Scrollable(Box<NodeModel>),
    Container {
        child: Box<NodeModel>,
        width: Length,
        height: Length,
        center_x: bool,
        center_y: bool,
    },
}

/// The content of one widget.
pub open spec fn model_of(node: Node) -> NodeModel
    decreases node,
{
    match node {
        Node::Text { content, size, color } => NodeModel::Text { content: content@, size, color },
        Node::Input { placeholder, value, field, padding, width, secure } => NodeModel::Input {
            placeholder: placeholder@,
            value: value@,
            field,
            padding,
            width,
            secure,
        },
        Node::Button { label, label_size, on_press, padding, width, emphasis } => {
            NodeModel::Button {
                label: label@,
                label_size,
                on_press: on_press@,
                padding,
                width,
                emphasis,
            }
        },
        Node::Column { spacing, padding, max_width, width, children } => NodeModel::Column {
            spacing,
            padding,
            max_width,
            width,
            children: models_of(children@),
        },
        Node::Row { spacing, padding, children } => NodeModel::Row {
            spacing,
            padding,
            children: models_of(children@),
        },
        Node::Scrollable(inner) => NodeModel::Scrollable(Box::new(model_of(*inner))),
        Node::Container { child, width, height, center_x, center_y } => NodeModel::Container {
            child: Box::new(model_of(*child)),
            width,
            height,
            center_x,
            center_y,
        },
    }
}

/// The contents of widgets, one for one.
pub open spec fn models_of(nodes: Seq<Node>) -> Seq<NodeModel>
    decreases nodes,
{
    if nodes.len() == 0 {
        Seq::empty()
    } else {
        models_of(nodes.drop_last()).push(model_of(nodes.last()))
    }
}

impl View for Node {
    type V = NodeModel;

    open spec fn view(&self) -> NodeModel {
        model_of(*self)
    }
}

/// `models_of` keeps the number and the order of the widgets.
pub proof fn lemma_models_of(nodes: Seq<Node>)
    ensures
        models_of(nodes).len() == nodes.len(),
        forall|i: int| 0 <= i < nodes.len() ==> #[trigger] models_of(nodes)[i] == nodes[i]@,
    decreases nodes.len(),
{
    if nodes.len() > 0 {
        lemma_models_of(nodes.drop_last());
    }
}

/// The widget can send the event `m`: it is, or it holds, a button that sends `m` or
/// an input whose field reports a typed text by `m`.
pub open spec fn offers(node: NodeModel, m: MessageModel) -> bool
    decreases node,
{
    match node {
        NodeModel::Text { .. } => false,
        NodeModel::Input { field, .. } => exists|value: Seq<char>| m == field.event(value),
        NodeModel::Button { on_press, .. } => m == on_press,
        NodeModel::Column { children, .. } => exists|i: int|
            0 <= i < children.len() && offers(#[trigger] children[i], m),
        NodeModel::Row { children, .. } => exists|i: int|
            0 <= i < children.len() && offers(#[trigger] children[i], m),
        NodeModel::Scrollable(inner) => offers(*inner, m),
        NodeModel::Container { child, .. } => offers(*child, m),
    }
}

} // verus!
