//! Toolbar controls and their selectable values.

use vstd::prelude::*;
use vstd::string::StringExecFns;

use crate::text::{
    decimal, display_text, field, opt_bool_text, opt_field, opt_view, or_fallback, push_decimal,
    push_field, push_opt_bool, push_opt_field,
};

verus! {

/// Button roles.
#[derive(Copy, Clone, Debug, PartialEq, Eq, Structural)]
pub enum ButtonRole {
    /// A button that sends a control message.
    Control,
    /// A button that opens the log window.
    Logger,
    /// A button that opens the help page.
    Help,
    /// A button that restores the default values.
    Restore,
}

impl ButtonRole {
    /// The word that stands for the role in a descriptor line.
    pub open spec fn spec_role_str(self) -> Seq<char> {
        match self {
            ButtonRole::Control => "control"@,
            ButtonRole::Logger => "logger"@,
            ButtonRole::Help => "help"@,
            ButtonRole::Restore => "restore"@,
        }
    }

    /// The word that stands for the role in a descriptor line.
    pub fn role_str(&self) -> (word: &'static str)
        ensures
            word@ == self.spec_role_str(),
    {
        match self {
            ButtonRole::Control => "control",
            ButtonRole::Logger => "logger",
            ButtonRole::Help => "help",
            ButtonRole::Restore => "restore",
        }
    }
}

/// Interface toolbar control types.
#[derive(Copy, Clone, Debug, PartialEq, Eq, Structural)]
pub enum ControlType {
    /// Not set, or unknown.
    Unset,
    /// A checkbox.
    Boolean,
    /// A button with its role.
    Button(ButtonRole),
    /// One value out of a list.
    Selector,
    /// A line of text.
    String,
}

impl Default for ControlType {
    fn default() -> (ctype: Self)
        ensures
            ctype == ControlType::Unset,
    {
        ControlType::Unset
    }
}

impl ControlType {
    /// The word that stands for the type in a descriptor line.
    pub open spec fn spec_type_str(self) -> Seq<char> {
        match self {
            ControlType::Unset => "none"@,
            ControlType::Boolean => "boolean"@,
            ControlType::Button(_) => "button"@,
            ControlType::Selector => "selector"@,
            ControlType::String => "string"@,
        }
    }

    /// The role field of a button, and nothing for the other types.
    pub open spec fn spec_role_field(self) -> Seq<char> {
        match self {
            ControlType::Button(role) => field("role"@, role.spec_role_str()),
            _ => Seq::empty(),
        }
    }

    /// The word that stands for the type in a descriptor line.
    pub fn type_str(&self) -> (word: &'static str)
        ensures
            word@ == self.spec_type_str(),
    {
        match self {
            ControlType::Unset => "none",
            ControlType::Boolean => "boolean",
            ControlType::Button(_) => "button",
            ControlType::Selector => "selector",
            ControlType::String => "string",
        }
    }
}

/// What a control value holds, as plain values.
pub struct ControlValView {
    /// The ordinal of the control that owns the value.
    pub control: nat,
    /// The value.
    pub value: Seq<char>,
    /// The text shown for the value, where it differs from the value.
    pub display: Option<Seq<char>>,
    /// Whether the value is selected at the start.
    pub default: Option<bool>,
}

impl ControlValView {
    /// The descriptor line of the value.
    pub open spec fn line(self) -> Seq<char> {
        "value "@ + field("control"@, decimal(self.control)) + field("value"@, self.value) + field(
            "display"@,
            or_fallback(self.display, self.value),
        ) + opt_field("default"@, opt_bool_text(self.default)) + "\n"@
    }

    /// The same value under another owner.
    pub open spec fn owned_by(self, control: nat) -> ControlValView {
        ControlValView { control, ..self }
    }
}

/// The descriptor lines of a run of control values, in order.
pub open spec fn control_value_lines(vals: Seq<ControlValView>) -> Seq<char>
    decreases vals.len(),
{
    if vals.len() == 0 {
        Seq::empty()
    } else {
        control_value_lines(vals.drop_last()) + vals.last().line()
    }
}

/// Control value representation.
#[derive(Default)]
pub struct ControlVal {
    control: usize,
    value: String,
    display: Option<String>,
    default: Option<bool>,
}

impl View for ControlVal {
    type V = ControlValView;

    closed spec fn view(&self) -> ControlValView {
        ControlValView {
            control: self.control as nat,
            value: self.value@,
            display: opt_view(self.display),
            default: self.default,
        }
    }
}

impl ControlVal {
    /// Creates a new instance of `ControlVal` using a string value: the
    /// value is what `Display` writes for the argument.
    pub fn new<T: std::fmt::Display>(value: T) -> (val: Self)
        ensures
            display_text(&value, val@.value),
            val@ == (ControlValView {
                control: usize::MAX as nat,
                value: val@.value,
                display: None,
                default: None,
            }),
    {
        ControlVal { control: usize::MAX, value: value.to_string(), display: None, default: None }
    }

    /// Creates a new instance of `ControlVal` whose value is a given string.
    pub fn with_value(value: &str) -> (val: Self)
        ensures
            val@ == (ControlValView {
                control: usize::MAX as nat,
                value: value@,
                display: None,
                default: None,
            }),
    {
        ControlVal { control: usize::MAX, value: value.to_owned(), display: None, default: None }
    }

    pub(crate) fn set_control(&mut self, control: usize)
        ensures
            final(self)@ == old(self)@.owned_by(control as nat),
    {
        self.control = control;
    }

    /// Sets the display string.
    pub fn display(self, display: &str) -> (val: Self)
        ensures
            val@ == (ControlValView { display: Some(display@), ..self@ }),
    {
        let mut val = self;
        val.display = Some(display.to_owned());
        val
    }

    /// Sets the default flag.
    pub fn default(self, default: bool) -> (val: Self)
        ensures
            val@ == (ControlValView { default: Some(default), ..self@ }),
    {
        let mut val = self;
        val.default = Some(default);
        val
    }

    /// The descriptor line of the value.
    pub fn render_value(&self) -> (text: String)
        ensures
            text@ == self@.line(),
    {
        let mut out = String::from_str("value ");
        let mut number = String::new();
        push_decimal(&mut number, self.control as u64);
        push_field(&mut out, "control", number.as_str());
        push_field(&mut out, "value", self.value.as_str());
        match &self.display {
            Some(d) => push_field(&mut out, "display", d.as_str()),
            None => push_field(&mut out, "display", self.value.as_str()),
        }
        push_opt_bool(&mut out, "default", &self.default);
        out.append("\n");
        assert(out@ =~= self@.line());
        out
    }
}

/// The views of a run of control values.
pub open spec fn control_vals_view(vals: Seq<ControlVal>) -> Seq<ControlValView> {
    Seq::new(vals.len(), |i: int| vals[i]@)
}

/// What a control holds, as plain values.
pub struct ControlView {
    /// The ordinal of the control among all controls.
    pub number: nat,
    /// The type.
    pub ctype: ControlType,
    /// The text shown for the control.
    pub display: Option<Seq<char>>,
    /// The default value.
    pub default: Option<Seq<char>>,
    /// The range of values.
    pub range: Option<Seq<char>>,
    /// The regular expression that a value has to match.
    pub validation: Option<Seq<char>>,
    /// The tooltip.
    pub tooltip: Option<Seq<char>>,
    /// The text shown while there is no value.
    pub placeholder: Option<Seq<char>>,
    /// The selectable values, in order.
    pub vals: Seq<ControlValView>,
}

impl ControlView {
    /// Every value refers to this control as its owner.
    pub open spec fn wf(self) -> bool {
        forall|i: int| 0 <= i < self.vals.len() ==> (#[trigger] self.vals[i]).control == self.number
    }

    /// A control of a type with nothing else set.
    pub open spec fn fresh(ctype: ControlType) -> ControlView {
        ControlView {
            number: usize::MAX as nat,
            ctype,
            display: None,
            default: None,
            range: None,
            validation: None,
            tooltip: None,
            placeholder: None,
            vals: Seq::empty(),
        }
    }

    /// The same control with another ordinal, its values following.
    pub open spec fn numbered(self, number: nat) -> ControlView {
        ControlView {
            number,
            vals: Seq::new(self.vals.len(), |i: int| self.vals[i].owned_by(number)),
            ..self
        }
    }

    /// The text shown for the control: the display string, or the word of
    /// the type where none was set.
    pub open spec fn shown(self) -> Seq<char> {
        or_fallback(self.display, self.ctype.spec_type_str())
    }

    /// The descriptor line of the control itself. The number, the type and
    /// the display field are always there, the role for a button, and of the
    /// others those that were set.
    pub open spec fn line(self) -> Seq<char> {
        "control "@ + field("number"@, decimal(self.number)) + field(
            "type"@,
            self.ctype.spec_type_str(),
        ) + self.ctype.spec_role_field() + field("display"@, self.shown()) + opt_field(
            "default"@,
            self.default,
        ) + opt_field("range"@, self.range) + opt_field("validation"@, self.validation)
            + opt_field("tooltip"@, self.tooltip) + opt_field("placeholder"@, self.placeholder)
            + "\n"@
    }

    /// The descriptor lines of the control: its own, then one for each value.
    pub open spec fn text(self) -> Seq<char> {
        self.line() + control_value_lines(self.vals)
    }
}

/// Control representation.
#[derive(Default)]
pub struct Control {
    number: usize,
    ctype: ControlType,
    display: Option<String>,
    default: Option<String>,
    range: Option<String>,
    validation: Option<String>,
    tooltip: Option<String>,
    placeholder: Option<String>,
    vals: Vec<ControlVal>,
}

impl View for Control {
    type V = ControlView;

    closed spec fn view(&self) -> ControlView {
        ControlView {
            number: self.number as nat,
            ctype: self.ctype,
            display: opt_view(self.display),
            default: opt_view(self.default),
            range: opt_view(self.range),
            validation: opt_view(self.validation),
            tooltip: opt_view(self.tooltip),
            placeholder: opt_view(self.placeholder),
            vals: control_vals_view(self.vals@),
        }
    }
}

impl Control {
    #[verifier::type_invariant]
    spec fn inv(self) -> bool {
        self@.wf()
    }

    fn new(ctype: ControlType) -> (control: Self)
        ensures
            control@ == ControlView::fresh(ctype),
    {
        let control = Self {
            number: usize::MAX,
            ctype,
            display: None,
            default: None,
            range: None,
            validation: None,
            tooltip: None,
            placeholder: None,
            vals: Vec::new(),
        };
        assert(control@.vals =~= Seq::empty());
        control
    }

    pub(crate) fn set_number(&mut self, number: usize)
        ensures
            final(self)@ == old(self)@.numbered(number as nat),
            final(self)@.wf(),
    {
        let mut vals: Vec<ControlVal> = Vec::new();
        std::mem::swap(&mut vals, &mut self.vals);
        let ghost before = vals@;
        let n = vals.len();
        let mut i: usize = 0;
        while i < n
            invariant
                i <= n,
                n == vals@.len(),
                n == before.len(),
                forall|j: int|
                    0 <= j < i ==> (#[trigger] vals@[j])@ == before[j]@.owned_by(number as nat),
                forall|j: int| i <= j < n ==> vals@[j] == before[j],
            decreases n - i,
        {
            vals[i].set_control(number);
            i += 1;
        }
        self.number = number;
        self.vals = vals;
        assert(self@.vals =~= old(self)@.numbered(number as nat).vals);
    }

    /// The ordinal of the control among all controls.
    pub fn get_number(&self) -> (number: usize)
        ensures
            number == self@.number,
    {
        self.number
    }

    /// Creates a new instance of `Control` with `ControlType::Boolean` type.
    pub fn new_boolean() -> (control: Self)
        ensures
            control@ == ControlView::fresh(ControlType::Boolean),
    {
        Control::new(ControlType::Boolean)
    }

    /// Creates a new instance of `Control` with `ControlType::Button` type.
    pub fn new_button(role: ButtonRole) -> (control: Self)
        ensures
            control@ == ControlView::fresh(ControlType::Button(role)),
    {
        Control::new(ControlType::Button(role))
    }

    /// Creates a new instance of `Control` with `ControlType::Selector` type.
    pub fn new_selector() -> (control: Self)
        ensures
            control@ == ControlView::fresh(ControlType::Selector),
    {
        Control::new(ControlType::Selector)
    }

    /// Creates a new instance of `Control` with `ControlType::String` type.
    pub fn new_string() -> (control: Self)
        ensures
            control@ == ControlView::fresh(ControlType::String),
    {
        Control::new(ControlType::String)
    }

    /// Sets the display string.
    pub fn display(self, display: &str) -> (control: Self)
        ensures
            control@ == (ControlView { display: Some(display@), ..self@ }),
    {
        proof {
            use_type_invariant(&self);
        }
        let mut control = self;
        control.display = Some(display.to_owned());
        control
    }

    /// Sets the default value.
    pub fn default<T: std::fmt::Display + ?Sized>(self, default: &T) -> (control: Self)
        ensures
            control@.default matches Some(text) && display_text(default, text),
            control@ == (ControlView { default: control@.default, ..self@ }),
    {
        proof {
            use_type_invariant(&self);
        }
        let mut control = self;
        control.default = Some(default.to_string());
        control
    }

    /// Sets the range string.
    pub fn range<T: std::fmt::Display + ?Sized>(self, range: &T) -> (control: Self)
        ensures
            control@.range matches Some(text) && display_text(range, text),
            control@ == (ControlView { range: control@.range, ..self@ }),
    {
        proof {
            use_type_invariant(&self);
        }
        let mut control = self;
        control.range = Some(range.to_string());
        control
    }

    /// Sets the validation regular expression string.
    pub fn validation<T: std::fmt::Display + ?Sized>(self, validation: &T) -> (control: Self)
        ensures
            control@.validation matches Some(text) && display_text(validation, text),
            control@ == (ControlView { validation: control@.validation, ..self@ }),
    {
        proof {
            use_type_invariant(&self);
        }
        let mut control = self;
        control.validation = Some(validation.to_string());
        control
    }

    /// Sets the tooltip string.
    pub fn tooltip(self, tooltip: &str) -> (control: Self)
        ensures
            control@ == (ControlView { tooltip: Some(tooltip@), ..self@ }),
    {
        proof {
            use_type_invariant(&self);
        }
        let mut control = self;
        control.tooltip = Some(tooltip.to_owned());
        control
    }

    /// Sets the placeholder string.
    pub fn placeholder(self, placeholder: &str) -> (control: Self)
        ensures
            control@ == (ControlView { placeholder: Some(placeholder@), ..self@ }),
    {
        proof {
            use_type_invariant(&self);
        }
        let mut control = self;
        control.placeholder = Some(placeholder.to_owned());
        control
    }

    /// Adds a value, which the control then owns.
    pub fn add_val(&mut self, val: ControlVal)
        ensures
            final(self)@ == (ControlView {
                vals: old(self)@.vals.push(val@.owned_by(old(self)@.number)),
                ..old(self)@
            }),
            final(self)@.wf(),
    {
        proof {
            use_type_invariant(&*self);
        }
        let mut val = val;
        val.set_control(self.number);
        let mut vals: Vec<ControlVal> = Vec::new();
        std::mem::swap(&mut vals, &mut self.vals);
        vals.push(val);
        proof {
            assert forall|j: int| 0 <= j < vals@.len() implies (#[trigger] vals@[j])@.control
                == self.number by {
                if j < old(self).vals@.len() {
                    assert(old(self)@.vals[j].control == old(self)@.number);
                }
            }
        }
        self.vals = vals;
        assert(self@.vals =~= old(self)@.vals.push(val@));
    }

    /// The descriptor lines of the control: its own, then one for each of
    /// its values.
    pub fn render_control(&self) -> (text: String)
        ensures
            text@ == self@.text(),
    {
        let mut out = String::from_str("control ");
        let mut number = String::new();
        push_decimal(&mut number, self.number as u64);
        push_field(&mut out, "number", number.as_str());
        push_field(&mut out, "type", self.ctype.type_str());
        match &self.ctype {
            ControlType::Button(role) => push_field(&mut out, "role", role.role_str()),
            _ => {},
        }
        match &self.display {
            Some(d) => push_field(&mut out, "display", d.as_str()),
            None => push_field(&mut out, "display", self.ctype.type_str()),
        }
        push_opt_field(&mut out, "default", &self.default);
        push_opt_field(&mut out, "range", &self.range);
        push_opt_field(&mut out, "validation", &self.validation);
        push_opt_field(&mut out, "tooltip", &self.tooltip);
        push_opt_field(&mut out, "placeholder", &self.placeholder);
        out.append("\n");
        assert(out@ =~= self@.line());
        let n = self.vals.len();
        let mut i: usize = 0;
        assert(self@.vals.take(0) =~= Seq::empty());
        while i < n
            invariant
                i <= n,
                n == self.vals@.len(),
                out@ == self@.line() + control_value_lines(self@.vals.take(i as int)),
            decreases n - i,
        {
            let line = self.vals[i].render_value();
            out.append(line.as_str());
            proof {
                let next = self@.vals.take(i + 1);
                assert(next.drop_last() =~= self@.vals.take(i as int));
                assert(next.last() == self.vals@[i as int]@);
                assert(out@ =~= self@.line() + control_value_lines(next));
            }
            i += 1;
        }
        assert(self@.vals.take(n as int) =~= self@.vals);
        out
    }
}

} // verus!
