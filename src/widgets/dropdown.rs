//! A drop-down selector: a text button showing the current choice, and the
//! markers of its options.
use vstd::prelude::*;
use super::TextButton;

verus! {

/// Marks a node as one option of a drop-down, with the value it stands for.
pub struct DropdownOption {
    pub value: String,
}

/// Marks the node that holds a drop-down's current selection.
pub struct DropdownSelection {
    pub value: String,
}

/// A button that shows the current selection and lists the options.
pub struct Dropdown {
    /// The button that opens the list and displays the current selection.
    pub dropdown_base: TextButton,
    pub options: Vec<String>,
    pub selection: String,
}

} // verus!
