use crate::text::{name_key, str_eq};
use vstd::prelude::*;

verus! {

/// A state that an accessible object can be in, as it is named on the bus.
#[derive(Clone, Copy, Debug, PartialEq, Eq, Hash, Default)]
pub enum State {
    #[default]
    Invalid,
    Active,
    Armed,
    Busy,
    Checked,
    Collapsed,
    Defunct,
    Editable,
    Enabled,
    Expandable,
    Expanded,
    Focusable,
    Focused,
    HasTooltip,
    Horizontal,
    Iconified,
    Modal,
    MultiLine,
    Multiselectable,
    Opaque,
    Pressed,
    Resizable,
    Selectable,
    Selected,
    Sensitive,
    Showing,
    SingleLine,
    Stale,
    Transient,
    Vertical,
    Visible,
    ManagesDescendants,
    Indeterminate,
    Required,
    Truncated,
    Animated,
    InvalidEntry,
    SupportsAutocompletion,
    SelectableText,
    IsDefault,
    Visited,
    Checkable,
    HasPopup,
    ReadOnly,
}

impl State {
    /// The name of the state on the bus.
    pub open spec fn spec_name(self) -> Seq<char> {
        match self {
            State::Invalid => "invalid"@,
            State::Active => "active"@,
            State::Armed => "armed"@,
            State::Busy => "busy"@,
            State::Checked => "checked"@,
            State::Collapsed => "collapsed"@,
            State::Defunct => "defunct"@,
            State::Editable => "editable"@,
            State::Enabled => "enabled"@,
            State::Expandable => "expandable"@,
            State::Expanded => "expanded"@,
            State::Focusable => "focusable"@,
            State::Focused => "focused"@,
            State::HasTooltip => "has-tooltip"@,
            State::Horizontal => "horizontal"@,
            State::Iconified => "iconified"@,
            State::Modal => "modal"@,
            State::MultiLine => "multi-line"@,
            State::Multiselectable => "multiselectable"@,
            State::Opaque => "opaque"@,
            State::Pressed => "pressed"@,
            State::Resizable => "resizable"@,
            State::Selectable => "selectable"@,
            State::Selected => "selected"@,
            State::Sensitive => "sensitive"@,
            State::Showing => "showing"@,
            State::SingleLine => "single-line"@,
            State::Stale => "stale"@,
            State::Transient => "transient"@,
            State::Vertical => "vertical"@,
            State::Visible => "visible"@,
            State::ManagesDescendants => "manages-descendants"@,
            State::Indeterminate => "indeterminate"@,
            State::Required => "required"@,
            State::Truncated => "truncated"@,
            State::Animated => "animated"@,
            State::InvalidEntry => "invalid-entry"@,
            State::SupportsAutocompletion => "supports-autocompletion"@,
            State::SelectableText => "selectable-text"@,
            State::IsDefault => "is-default"@,
            State::Visited => "visited"@,
            State::Checkable => "checkable"@,
            State::HasPopup => "has-popup"@,
            State::ReadOnly => "read-only"@,
        }
    }

    /// The state that a name stands for; a name that no state has stands for
    /// `Invalid`.
    pub open spec fn of_name(n: Seq<char>) -> State {
        if n == "invalid"@ {
            State::Invalid
        } else if n == "active"@ {
            State::Active
        } else if n == "armed"@ {
            State::Armed
        } else if n == "busy"@ {
            State::Busy
        } else if n == "checked"@ {
            State::Checked
        } else if n == "collapsed"@ {
            State::Collapsed
        } else if n == "defunct"@ {
            State::Defunct
        } else if n == "editable"@ {
            State::Editable
        } else if n == "enabled"@ {
            State::Enabled
        } else if n == "expandable"@ {
            State::Expandable
        } else if n == "expanded"@ {
            State::Expanded
        } else if n == "focusable"@ {
            State::Focusable
        } else if n == "focused"@ {
            State::Focused
        } else if n == "has-tooltip"@ {
            State::HasTooltip
        } else if n == "horizontal"@ {
            State::Horizontal
        } else if n == "iconified"@ {
            State::Iconified
        } else if n == "modal"@ {
            State::Modal
        } else if n == "multi-line"@ {
            State::MultiLine
        } else if n == "multiselectable"@ {
            State::Multiselectable
        } else if n == "opaque"@ {
            State::Opaque
        } else if n == "pressed"@ {
            State::Pressed
        } else if n == "resizable"@ {
            State::Resizable
        } else if n == "selectable"@ {
            State::Selectable
        } else if n == "selected"@ {
            State::Selected
        } else if n == "sensitive"@ {
            State::Sensitive
        } else if n == "showing"@ {
            State::Showing
        } else if n == "single-line"@ {
            State::SingleLine
        } else if n == "stale"@ {
            State::Stale
        } else if n == "transient"@ {
            State::Transient
        } else if n == "vertical"@ {
            State::Vertical
        } else if n == "visible"@ {
            State::Visible
        } else if n == "manages-descendants"@ {
            State::ManagesDescendants
        } else if n == "indeterminate"@ {
            State::Indeterminate
        } else if n == "required"@ {
            State::Required
        } else if n == "truncated"@ {
            State::Truncated
        } else if n == "animated"@ {
            State::Animated
        } else if n == "invalid-entry"@ {
            State::InvalidEntry
        } else if n == "supports-autocompletion"@ {
            State::SupportsAutocompletion
        } else if n == "selectable-text"@ {
            State::SelectableText
        } else if n == "is-default"@ {
            State::IsDefault
        } else if n == "visited"@ {
            State::Visited
        } else if n == "checkable"@ {
            State::Checkable
        } else if n == "has-popup"@ {
            State::HasPopup
        } else if n == "read-only"@ {
            State::ReadOnly
        } else {
            State::Invalid
        }
    }

    /// The name of the state on the bus.
    pub fn name(&self) -> (r: &'static str)
        ensures
            r@ == self.spec_name(),
    {
        match self {
            State::Invalid => "invalid",
            State::Active => "active",
            State::Armed => "armed",
            State::Busy => "busy",
            State::Checked => "checked",
            State::Collapsed => "collapsed",
            State::Defunct => "defunct",
            State::Editable => "editable",
            State::Enabled => "enabled",
            State::Expandable => "expandable",
            State::Expanded => "expanded",
            State::Focusable => "focusable",
            State::Focused => "focused",
            State::HasTooltip => "has-tooltip",
            State::Horizontal => "horizontal",
            State::Iconified => "iconified",
            State::Modal => "modal",
            State::MultiLine => "multi-line",
            State::Multiselectable => "multiselectable",
            State::Opaque => "opaque",
            State::Pressed => "pressed",
            State::Resizable => "resizable",
            State::Selectable => "selectable",
            State::Selected => "selected",
            State::Sensitive => "sensitive",
            State::Showing => "showing",
            State::SingleLine => "single-line",
            State::Stale => "stale",
            State::Transient => "transient",
            State::Vertical => "vertical",
            State::Visible => "visible",
            State::ManagesDescendants => "manages-descendants",
            State::Indeterminate => "indeterminate",
            State::Required => "required",
            State::Truncated => "truncated",
            State::Animated => "animated",
            State::InvalidEntry => "invalid-entry",
            State::SupportsAutocompletion => "supports-autocompletion",
            State::SelectableText => "selectable-text",
            State::IsDefault => "is-default",
            State::Visited => "visited",
            State::Checkable => "checkable",
            State::HasPopup => "has-popup",
            State::ReadOnly => "read-only",
        }
    }

    /// The state that a name on the bus stands for (`Invalid` for a name that
    /// no state has).
    pub fn from_name(n: &str) -> (r: State)
        ensures
            r == State::of_name(n@),
    {
        if str_eq(n, "invalid") {
            State::Invalid
        } else if str_eq(n, "active") {
            State::Active
        } else if str_eq(n, "armed") {
            State::Armed
        } else if str_eq(n, "busy") {
            State::Busy
        } else if str_eq(n, "checked") {
            State::Checked
        } else if str_eq(n, "collapsed") {
            State::Collapsed
        } else if str_eq(n, "defunct") {
            State::Defunct
        } else if str_eq(n, "editable") {
            State::Editable
        } else if str_eq(n, "enabled") {
            State::Enabled
        } else if str_eq(n, "expandable") {
            State::Expandable
        } else if str_eq(n, "expanded") {
            State::Expanded
        } else if str_eq(n, "focusable") {
            State::Focusable
        } else if str_eq(n, "focused") {
            State::Focused
        } else if str_eq(n, "has-tooltip") {
            State::HasTooltip
        } else if str_eq(n, "horizontal") {
            State::Horizontal
        } else if str_eq(n, "iconified") {
            State::Iconified
        } else if str_eq(n, "modal") {
            State::Modal
        } else if str_eq(n, "multi-line") {
            State::MultiLine
        } else if str_eq(n, "multiselectable") {
            State::Multiselectable
        } else if str_eq(n, "opaque") {
            State::Opaque
        } else if str_eq(n, "pressed") {
            State::Pressed
        } else if str_eq(n, "resizable") {
            State::Resizable
        } else if str_eq(n, "selectable") {
            State::Selectable
        } else if str_eq(n, "selected") {
            State::Selected
        } else if str_eq(n, "sensitive") {
            State::Sensitive
        } else if str_eq(n, "showing") {
            State::Showing
        } else if str_eq(n, "single-line") {
            State::SingleLine
        } else if str_eq(n, "stale") {
            State::Stale
        } else if str_eq(n, "transient") {
            State::Transient
        } else if str_eq(n, "vertical") {
            State::Vertical
        } else if str_eq(n, "visible") {
            State::Visible
        } else if str_eq(n, "manages-descendants") {
            State::ManagesDescendants
        } else if str_eq(n, "indeterminate") {
            State::Indeterminate
        } else if str_eq(n, "required") {
            State::Required
        } else if str_eq(n, "truncated") {
            State::Truncated
        } else if str_eq(n, "animated") {
            State::Animated
        } else if str_eq(n, "invalid-entry") {
            State::InvalidEntry
        } else if str_eq(n, "supports-autocompletion") {
            State::SupportsAutocompletion
        } else if str_eq(n, "selectable-text") {
            State::SelectableText
        } else if str_eq(n, "is-default") {
            State::IsDefault
        } else if str_eq(n, "visited") {
            State::Visited
        } else if str_eq(n, "checkable") {
            State::Checkable
        } else if str_eq(n, "has-popup") {
            State::HasPopup
        } else if str_eq(n, "read-only") {
            State::ReadOnly
        } else {
            State::Invalid
        }
    }
}

/// The signature of each state name; no two of them agree.
proof fn lemma_state_name_keys()
    ensures
        name_key("invalid"@) == (7int, 'i', 'n', 'i', 'd'),
        name_key("active"@) == (6int, 'a', 'c', 'v', 'e'),
        name_key("armed"@) == (5int, 'a', 'r', 'e', 'd'),
        name_key("busy"@) == (4int, 'b', 'u', 's', 'y'),
        name_key("checked"@) == (7int, 'c', 'h', 'e', 'd'),
        name_key("collapsed"@) == (9int, 'c', 'o', 'e', 'd'),
        name_key("defunct"@) == (7int, 'd', 'e', 'c', 't'),
        name_key("editable"@) == (8int, 'e', 'd', 'l', 'e'),
        name_key("enabled"@) == (7int, 'e', 'n', 'e', 'd'),
        name_key("expandable"@) == (10int, 'e', 'x', 'l', 'e'),
        name_key("expanded"@) == (8int, 'e', 'x', 'e', 'd'),
        name_key("focusable"@) == (9int, 'f', 'o', 'l', 'e'),
        name_key("focused"@) == (7int, 'f', 'o', 'e', 'd'),
        name_key("has-tooltip"@) == (11int, 'h', 'a', 'i', 'p'),
        name_key("horizontal"@) == (10int, 'h', 'o', 'a', 'l'),
        name_key("iconified"@) == (9int, 'i', 'c', 'e', 'd'),
        name_key("modal"@) == (5int, 'm', 'o', 'a', 'l'),
        name_key("multi-line"@) == (10int, 'm', 'u', 'n', 'e'),
        name_key("multiselectable"@) == (15int, 'm', 'u', 'l', 'e'),
        name_key("opaque"@) == (6int, 'o', 'p', 'u', 'e'),
        name_key("pressed"@) == (7int, 'p', 'r', 'e', 'd'),
        name_key("resizable"@) == (9int, 'r', 'e', 'l', 'e'),
        name_key("selectable"@) == (10int, 's', 'e', 'l', 'e'),
        name_key("selected"@) == (8int, 's', 'e', 'e', 'd'),
        name_key("sensitive"@) == (9int, 's', 'e', 'v', 'e'),
        name_key("showing"@) == (7int, 's', 'h', 'n', 'g'),
        name_key("single-line"@) == (11int, 's', 'i', 'n', 'e'),
        name_key("stale"@) == (5int, 's', 't', 'l', 'e'),
        name_key("transient"@) == (9int, 't', 'r', 'n', 't'),
        name_key("vertical"@) == (8int, 'v', 'e', 'a', 'l'),
        name_key("visible"@) == (7int, 'v', 'i', 'l', 'e'),
        name_key("manages-descendants"@) == (19int, 'm', 'a', 't', 's'),
        name_key("indeterminate"@) == (13int, 'i', 'n', 't', 'e'),
        name_key("required"@) == (8int, 'r', 'e', 'e', 'd'),
        name_key("truncated"@) == (9int, 't', 'r', 'e', 'd'),
        name_key("animated"@) == (8int, 'a', 'n', 'e', 'd'),
        name_key("invalid-entry"@) == (13int, 'i', 'n', 'r', 'y'),
        name_key("supports-autocompletion"@) == (23int, 's', 'u', 'o', 'n'),
        name_key("selectable-text"@) == (15int, 's', 'e', 'x', 't'),
        name_key("is-default"@) == (10int, 'i', 's', 'l', 't'),
        name_key("visited"@) == (7int, 'v', 'i', 'e', 'd'),
        name_key("checkable"@) == (9int, 'c', 'h', 'l', 'e'),
        name_key("has-popup"@) == (9int, 'h', 'a', 'u', 'p'),
        name_key("read-only"@) == (9int, 'r', 'e', 'l', 'y'),
{
    reveal_strlit("invalid");
    reveal_strlit("active");
    reveal_strlit("armed");
    reveal_strlit("busy");
    reveal_strlit("checked");
    reveal_strlit("collapsed");
    reveal_strlit("defunct");
    reveal_strlit("editable");
    reveal_strlit("enabled");
    reveal_strlit("expandable");
    reveal_strlit("expanded");
    reveal_strlit("focusable");
    reveal_strlit("focused");
    reveal_strlit("has-tooltip");
    reveal_strlit("horizontal");
    reveal_strlit("iconified");
    reveal_strlit("modal");
    reveal_strlit("multi-line");
    reveal_strlit("multiselectable");
    reveal_strlit("opaque");
    reveal_strlit("pressed");
    reveal_strlit("resizable");
    reveal_strlit("selectable");
    reveal_strlit("selected");
    reveal_strlit("sensitive");
    reveal_strlit("showing");
    reveal_strlit("single-line");
    reveal_strlit("stale");
    reveal_strlit("transient");
    reveal_strlit("vertical");
    reveal_strlit("visible");
    reveal_strlit("manages-descendants");
    reveal_strlit("indeterminate");
    reveal_strlit("required");
    reveal_strlit("truncated");
    reveal_strlit("animated");
    reveal_strlit("invalid-entry");
    reveal_strlit("supports-autocompletion");
    reveal_strlit("selectable-text");
    reveal_strlit("is-default");
    reveal_strlit("visited");
    reveal_strlit("checkable");
    reveal_strlit("has-popup");
    reveal_strlit("read-only");
}

/// Each state is named by a name of its own: reading back the name of a state
/// gives that state.
pub proof fn lemma_state_name_round_trip(s: State)
    ensures
        State::of_name(s.spec_name()) == s,
{
    lemma_state_name_keys();
}

} // verus!
