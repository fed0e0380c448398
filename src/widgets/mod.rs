//! The widgets: builder values and how each is realised into a scene.
use vstd::prelude::*;

pub mod base_button;
pub mod builder;
pub mod realize;
pub mod checkbox;
pub mod column;
pub mod container;
pub mod dropdown;
pub mod parent_data;
pub mod row;
pub mod text_button;
pub mod text_input;
pub mod text_label;

pub use base_button::BaseButton;
pub use checkbox::{handle_checkbox_toggle, toggle_checkbox, CheckBox, CheckBoxState};
pub use column::Column;
pub use container::{create_space, Container};
pub use dropdown::{Dropdown, DropdownOption, DropdownSelection};
pub use parent_data::ParentData;
pub use row::Row;
pub use text_button::TextButton;
pub use text_input::TextInput;
pub use text_label::TextLabel;

verus! {

/// Any widget, as the child of another. `Entity` stands for a node that was
/// spawned already and is only attached.
pub enum WidgetNode {
    Entity(usize),
    Container(Container),
    Row(Row),
    Column(Column),
    TextLabel(TextLabel),
    BaseButton(BaseButton),
    TextButton(TextButton),
    TextInput(TextInput),
    CheckBox(CheckBox),
}

impl From<Container> for WidgetNode {
    fn from(w: Container) -> (r: WidgetNode)
        ensures
            r == WidgetNode::Container(w),
    {
        WidgetNode::Container(w)
    }
}

impl vstd::std_specs::convert::FromSpecImpl<Container> for WidgetNode {
    open spec fn obeys_from_spec() -> bool {
        true
    }

    open spec fn from_spec(w: Container) -> WidgetNode {
        WidgetNode::Container(w)
    }
}

impl From<Row> for WidgetNode {
    fn from(w: Row) -> (r: WidgetNode)
        ensures
            r == WidgetNode::Row(w),
    {
        WidgetNode::Row(w)
    }
}

impl vstd::std_specs::convert::FromSpecImpl<Row> for WidgetNode {
    open spec fn obeys_from_spec() -> bool {
        true
    }

    open spec fn from_spec(w: Row) -> WidgetNode {
        WidgetNode::Row(w)
    }
}

impl From<Column> for WidgetNode {
    fn from(w: Column) -> (r: WidgetNode)
        ensures
            r == WidgetNode::Column(w),
    {
        WidgetNode::Column(w)
    }
}

impl vstd::std_specs::convert::FromSpecImpl<Column> for WidgetNode {
    open spec fn obeys_from_spec() -> bool {
        true
    }

    open spec fn from_spec(w: Column) -> WidgetNode {
        WidgetNode::Column(w)
    }
}

impl From<TextLabel> for WidgetNode {
    fn from(w: TextLabel) -> (r: WidgetNode)
        ensures
            r == WidgetNode::TextLabel(w),
    {
        WidgetNode::TextLabel(w)
    }
}

impl vstd::std_specs::convert::FromSpecImpl<TextLabel> for WidgetNode {
    open spec fn obeys_from_spec() -> bool {
        true
    }

    open spec fn from_spec(w: TextLabel) -> WidgetNode {
        WidgetNode::TextLabel(w)
    }
}

impl From<BaseButton> for WidgetNode {
    fn from(w: BaseButton) -> (r: WidgetNode)
        ensures
            r == WidgetNode::BaseButton(w),
    {
        WidgetNode::BaseButton(w)
    }
}

impl vstd::std_specs::convert::FromSpecImpl<BaseButton> for WidgetNode {
    open spec fn obeys_from_spec() -> bool {
        true
    }

    open spec fn from_spec(w: BaseButton) -> WidgetNode {
        WidgetNode::BaseButton(w)
    }
}

impl From<TextButton> for WidgetNode {
    fn from(w: TextButton) -> (r: WidgetNode)
        ensures
            r == WidgetNode::TextButton(w),
    {
        WidgetNode::TextButton(w)
    }
}

impl vstd::std_specs::convert::FromSpecImpl<TextButton> for WidgetNode {
    open spec fn obeys_from_spec() -> bool {
        true
    }

    open spec fn from_spec(w: TextButton) -> WidgetNode {
        WidgetNode::TextButton(w)
    }
}

impl From<TextInput> for WidgetNode {
    fn from(w: TextInput) -> (r: WidgetNode)
        ensures
            r == WidgetNode::TextInput(w),
    {
        WidgetNode::TextInput(w)
    }
}

impl vstd::std_specs::convert::FromSpecImpl<TextInput> for WidgetNode {
    open spec fn obeys_from_spec() -> bool {
        true
    }

    open spec fn from_spec(w: TextInput) -> WidgetNode {
        WidgetNode::TextInput(w)
    }
}

impl From<CheckBox> for WidgetNode {
    fn from(w: CheckBox) -> (r: WidgetNode)
        ensures
            r == WidgetNode::CheckBox(w),
    {
        WidgetNode::CheckBox(w)
    }
}

impl vstd::std_specs::convert::FromSpecImpl<CheckBox> for WidgetNode {
    open spec fn obeys_from_spec() -> bool {
        true
    }

    open spec fn from_spec(w: CheckBox) -> WidgetNode {
        WidgetNode::CheckBox(w)
    }
}

} // verus!
