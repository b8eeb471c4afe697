//! A labelled selectable value, as presented by the interactive device
//! selector.

use vstd::prelude::*;
use vstd::string::*;

verus! {

/// One entry of a selection list: a short label and the value it stands
/// for.
pub struct DeviceEntry {
    pub label: String,
    pub value: String,
}

/// Mathematical view of [`DeviceEntry`].
pub struct DeviceEntryView {
    pub label: Seq<char>,
    pub value: Seq<char>,
}

impl View for DeviceEntry {
    type V = DeviceEntryView;

    open spec fn view(&self) -> DeviceEntryView {
        DeviceEntryView { label: self.label@, value: self.value@ }
    }
}

impl DeepView for DeviceEntry {
    type V = DeviceEntryView;

    open spec fn deep_view(&self) -> DeviceEntryView {
        self.view()
    }
}

impl DeviceEntry {
    /// The text shown for this entry: the label with the value in
    /// parentheses.
    pub fn describe(&self) -> (r: String)
        ensures
            r@ == self.label@ + " ("@ + self.value@ + ")"@,
    {
        let mut r = self.label.clone();
        r.append(" (");
        r.append(self.value.as_str());
        r.append(")");
        r
    }
}

} // verus!
