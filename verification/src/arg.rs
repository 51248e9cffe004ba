//! Interface arguments: typed configuration items and their selectable values.

use vstd::prelude::*;
use vstd::string::StringExecFns;

use crate::text::{
    clone_opt, decimal, display_text, field, opt_bool_text, opt_field, opt_str_view, opt_view,
    or_fallback, push_decimal, push_field, push_opt_bool, push_opt_field,
};

verus! {

/// Extcap argument types.
#[derive(Copy, Clone, Debug, PartialEq, Eq, Structural)]
pub enum IfArgType {
    /// Not set, or unknown.
    Unset,
    /// A signed integer.
    Integer,
    /// An unsigned integer.
    Unsigned,
    /// A long integer.
    Long,
    /// A floating-point number.
    Double,
    /// A line of text.
    String,
    /// A line of text that is not shown.
    Password,
    /// A boolean with a value.
    Boolean,
    /// A boolean that is set by naming the flag.
    Boolflag,
    /// A file path.
    Fileselect,
    /// One value out of a list.
    Selector,
    /// One value out of a list, shown as radio buttons.
    Radio,
    /// Any number of values out of a list.
    Multicheck,
    /// A point in time.
    Timestamp,
}

impl Default for IfArgType {
    fn default() -> (atype: Self)
        ensures
            atype == IfArgType::Unset,
    {
        IfArgType::Unset
    }
}

impl IfArgType {
    /// The word that stands for the type in a descriptor line.
    pub open spec fn spec_type_str(self) -> Seq<char> {
        match self {
            IfArgType::Unset => "none"@,
            IfArgType::Integer => "integer"@,
            IfArgType::Unsigned => "unsigned"@,
            IfArgType::Long => "long"@,
            IfArgType::Double => "double"@,
            IfArgType::String => "string"@,
            IfArgType::Password => "password"@,
            IfArgType::Boolean => "boolean"@,
            IfArgType::Boolflag => "boolflag"@,
            IfArgType::Fileselect => "fileselect"@,
            IfArgType::Selector => "selector"@,
            IfArgType::Radio => "radio"@,
            IfArgType::Multicheck => "multicheck"@,
            IfArgType::Timestamp => "timestamp"@,
        }
    }

    /// The word that stands for the type in a descriptor line.
    pub fn type_str(&self) -> (word: &'static str)
        ensures
            word@ == self.spec_type_str(),
    {
        match self {
            IfArgType::Unset => "none",
            IfArgType::Integer => "integer",
            IfArgType::Unsigned => "unsigned",
            IfArgType::Long => "long",
            IfArgType::Double => "double",
            IfArgType::String => "string",
            IfArgType::Password => "password",
            IfArgType::Boolean => "boolean",
            IfArgType::Boolflag => "boolflag",
            IfArgType::Fileselect => "fileselect",
            IfArgType::Selector => "selector",
            IfArgType::Radio => "radio",
            IfArgType::Multicheck => "multicheck",
            IfArgType::Timestamp => "timestamp",
        }
    }
}

/// What an argument value holds, as plain values.
pub struct IfArgValView {
    /// The ordinal of the argument that owns the value.
    pub arg: nat,
    /// The value.
    pub value: Seq<char>,
    /// The text shown for the value, where it differs from the value.
    pub display: Option<Seq<char>>,
    /// Whether the value is selected at the start.
    pub default: Option<bool>,
}

impl IfArgValView {
    /// The descriptor line of the value.
    pub open spec fn line(self) -> Seq<char> {
        "value "@ + field("arg"@, decimal(self.arg)) + field("value"@, self.value) + field(
            "display"@,
            or_fallback(self.display, self.value),
        ) + opt_field("default"@, opt_bool_text(self.default)) + "\n"@
    }

    /// The same value under another owner.
    pub open spec fn owned_by(self, arg: nat) -> IfArgValView {
        IfArgValView { arg, ..self }
    }
}

/// The descriptor lines of a run of values, in order.
pub open spec fn value_lines(vals: Seq<IfArgValView>) -> Seq<char>
    decreases vals.len(),
{
    if vals.len() == 0 {
        Seq::empty()
    } else {
        value_lines(vals.drop_last()) + vals.last().line()
    }
}

/// Argument value representation.
#[derive(Default)]
pub struct IfArgVal {
    arg: usize,
    value: String,
    display: Option<String>,
    default: Option<bool>,
}

impl View for IfArgVal {
    type V = IfArgValView;

    closed spec fn view(&self) -> IfArgValView {
        IfArgValView {
            arg: self.arg as nat,
            value: self.value@,
            display: opt_view(self.display),
            default: self.default,
        }
    }
}

impl Clone for IfArgVal {
    fn clone(&self) -> (val: Self)
        ensures
            val@ == self@,
    {
        IfArgVal {
            arg: self.arg,
            value: self.value.clone(),
            display: clone_opt(&self.display),
            default: self.default,
        }
    }
}

impl IfArgVal {
    /// Creates a new instance of `IfArgVal` using a string value: the value
    /// is what `Display` writes for the argument.
    pub fn new<T: std::fmt::Display>(value: T) -> (val: Self)
        ensures
            display_text(&value, val@.value),
            val@ == (IfArgValView {
                arg: usize::MAX as nat,
                value: val@.value,
                display: None,
                default: None,
            }),
    {
        IfArgVal { arg: usize::MAX, value: value.to_string(), display: None, default: None }
    }

    /// Creates a new instance of `IfArgVal` whose value is a given string.
    pub fn with_value(value: &str) -> (val: Self)
        ensures
            val@ == (IfArgValView {
                arg: usize::MAX as nat,
                value: value@,
                display: None,
                default: None,
            }),
    {
        IfArgVal { arg: usize::MAX, value: value.to_owned(), display: None, default: None }
    }

    pub(crate) fn set_arg(&mut self, arg: usize)
        ensures
            final(self)@ == old(self)@.owned_by(arg as nat),
    {
        self.arg = arg;
    }

    /// Sets the display string.
    pub fn display(self, display: &str) -> (val: Self)
        ensures
            val@ == (IfArgValView { display: Some(display@), ..self@ }),
    {
        let mut val = self;
        val.display = Some(display.to_owned());
        val
    }

    /// Sets the default flag.
    pub fn default(self, default: bool) -> (val: Self)
        ensures
            val@ == (IfArgValView { default: Some(default), ..self@ }),
    {
        let mut val = self;
        val.default = Some(default);
        val
    }

    /// The descriptor line of the value.
    pub fn render_value(&self) -> (text: String)
        ensures
            text@ == self@.line(),
    {
        let mut out = String::from_str("value ");
        let mut number = String::new();
        push_decimal(&mut number, self.arg as u64);
        push_field(&mut out, "arg", number.as_str());
        push_field(&mut out, "value", self.value.as_str());
        match &self.display {
            Some(d) => push_field(&mut out, "display", d.as_str()),
            None => push_field(&mut out, "display", self.value.as_str()),
        }
        push_opt_bool(&mut out, "default", &self.default);
        out.append("\n");
        assert(out@ =~= self@.line());
        out
    }
}

/// The views of a run of values.
pub open spec fn vals_view(vals: Seq<IfArgVal>) -> Seq<IfArgValView> {
    Seq::new(vals.len(), |i: int| vals[i]@)
}

/// What an argument holds, as plain values.
pub struct IfArgView {
    /// The ordinal of the argument within its interface.
    pub number: nat,
    /// The name, which is also the name of its command-line flag.
    pub name: Seq<char>,
    /// The text shown for the argument, where it differs from the name.
    pub display: Option<Seq<char>>,
    /// The type.
    pub atype: IfArgType,
    /// The default value.
    pub default: Option<Seq<char>>,
    /// The range of values.
    pub range: Option<Seq<char>>,
    /// The regular expression that a value has to match.
    pub validation: Option<Seq<char>>,
    /// Whether a selected file has to exist.
    pub mustexist: Option<bool>,
    /// Whether the values can be asked for again.
    pub reload: Option<bool>,
    /// The text shown while there is no value.
    pub placeholder: Option<Seq<char>>,
    /// The tooltip.
    pub tooltip: Option<Seq<char>>,
    /// The group the argument is shown in.
    pub group: Option<Seq<char>>,
    /// The selectable values, in order.
    pub vals: Seq<IfArgValView>,
}

impl IfArgView {
    /// Every value refers to this argument as its owner.
    pub open spec fn wf(self) -> bool {
        forall|i: int| 0 <= i < self.vals.len() ==> (#[trigger] self.vals[i]).arg == self.number
    }

    /// An argument of a type and a name with nothing else set.
    pub open spec fn fresh(atype: IfArgType, name: Seq<char>) -> IfArgView {
        IfArgView {
            number: usize::MAX as nat,
            name,
            display: None,
            atype,
            default: None,
            range: None,
            validation: None,
            mustexist: None,
            reload: None,
            placeholder: None,
            tooltip: None,
            group: None,
            vals: Seq::empty(),
        }
    }

    /// Whether the values of the argument can be asked for again.
    pub open spec fn has_reload(self) -> bool {
        self.reload == Some(true)
    }

    /// Whether the command-line flag of the argument takes a value.
    pub open spec fn takes_value(self) -> bool {
        self.atype != IfArgType::Boolflag
    }

    /// The same argument with another ordinal, its values following.
    pub open spec fn numbered(self, number: nat) -> IfArgView {
        IfArgView {
            number,
            vals: Seq::new(self.vals.len(), |i: int| self.vals[i].owned_by(number)),
            ..self
        }
    }

    /// The same argument with other values, which it then owns.
    pub open spec fn with_vals(self, vals: Seq<IfArgValView>) -> IfArgView {
        IfArgView {
            vals: Seq::new(vals.len(), |i: int| vals[i].owned_by(self.number)),
            ..self
        }
    }

    /// The descriptor line of the argument itself.
    pub open spec fn line(self) -> Seq<char> {
        "arg "@ + field("number"@, decimal(self.number)) + field("call"@, "--"@ + self.name)
            + field("display"@, or_fallback(self.display, self.name)) + field(
            "type"@,
            self.atype.spec_type_str(),
        ) + opt_field("default"@, self.default) + opt_field("range"@, self.range) + opt_field(
            "validation"@,
            self.validation,
        ) + opt_field("mustexist"@, opt_bool_text(self.mustexist)) + opt_field(
            "reload"@,
            opt_bool_text(self.reload),
        ) + opt_field("placeholder"@, self.placeholder) + opt_field("tooltip"@, self.tooltip)
            + opt_field("group"@, self.group) + "\n"@
    }

    /// The descriptor lines of the argument: its own, then one for each value.
    pub open spec fn text(self) -> Seq<char> {
        self.line() + value_lines(self.vals)
    }
}

/// Argument representation.
#[derive(Default)]
pub struct IfArg<'a> {
    number: usize,
    name: &'a str,
    display: Option<&'a str>,
    atype: IfArgType,
    default: Option<String>,
    range: Option<String>,
    validation: Option<String>,
    mustexist: Option<bool>,
    reload: Option<bool>,
    placeholder: Option<String>,
    tooltip: Option<String>,
    group: Option<String>,
    vals: Vec<IfArgVal>,
}

impl<'a> View for IfArg<'a> {
    type V = IfArgView;

    closed spec fn view(&self) -> IfArgView {
        IfArgView {
            number: self.number as nat,
            name: self.name@,
            display: opt_str_view(self.display),
            atype: self.atype,
            default: opt_view(self.default),
            range: opt_view(self.range),
            validation: opt_view(self.validation),
            mustexist: self.mustexist,
            reload: self.reload,
            placeholder: opt_view(self.placeholder),
            tooltip: opt_view(self.tooltip),
            group: opt_view(self.group),
            vals: vals_view(self.vals@),
        }
    }
}

impl<'a> Clone for IfArg<'a> {
    fn clone(&self) -> (arg: Self)
        ensures
            arg@ == self@,
    {
        proof {
            use_type_invariant(self);
        }
        let mut vals: Vec<IfArgVal> = Vec::new();
        let n = self.vals.len();
        let mut i: usize = 0;
        while i < n
            invariant
                i <= n,
                n == self.vals@.len(),
                vals@.len() == i,
                self@.wf(),
                forall|j: int| 0 <= j < i ==> (#[trigger] vals@[j])@ == self.vals@[j]@,
                forall|j: int| 0 <= j < i ==> (#[trigger] vals@[j])@.arg == self.number,
            decreases n - i,
        {
            assert(self@.vals[i as int].arg == self.number);
            vals.push(self.vals[i].clone());
            i += 1;
        }
        let arg = IfArg {
            number: self.number,
            name: self.name,
            display: self.display,
            atype: self.atype,
            default: clone_opt(&self.default),
            range: clone_opt(&self.range),
            validation: clone_opt(&self.validation),
            mustexist: self.mustexist,
            reload: self.reload,
            placeholder: clone_opt(&self.placeholder),
            tooltip: clone_opt(&self.tooltip),
            group: clone_opt(&self.group),
            vals,
        };
        assert(arg@.vals =~= self@.vals);
        arg
    }
}

impl<'a> IfArg<'a> {
    #[verifier::type_invariant]
    spec fn inv(self) -> bool {
        self@.wf()
    }

    fn new(atype: IfArgType, name: &'a str) -> (arg: Self)
        ensures
            arg@ == IfArgView::fresh(atype, name@),
    {
        let arg = Self {
            number: usize::MAX,
            name,
            display: None,
            atype,
            default: None,
            range: None,
            validation: None,
            mustexist: None,
            reload: None,
            placeholder: None,
            tooltip: None,
            group: None,
            vals: Vec::new(),
        };
        assert(arg@.vals =~= Seq::empty());
        arg
    }

    pub(crate) fn set_number(&mut self, number: usize)
        ensures
            final(self)@ == old(self)@.numbered(number as nat),
            final(self)@.wf(),
    {
        let mut vals: Vec<IfArgVal> = Vec::new();
        std::mem::swap(&mut vals, &mut self.vals);
        own_all(&mut vals, number);
        self.number = number;
        self.vals = vals;
        assert(self@.vals =~= old(self)@.numbered(number as nat).vals);
    }

    /// The name, which is also the name of the command-line flag.
    pub fn get_name(&self) -> (name: &'a str)
        ensures
            name@ == self@.name,
    {
        self.name
    }

    /// The display string, where one was set.
    pub fn get_display(&self) -> (display: Option<&'a str>)
        ensures
            opt_str_view(display) == self@.display,
    {
        self.display
    }

    /// The type.
    pub fn get_type(&self) -> (atype: &IfArgType)
        ensures
            *atype == self@.atype,
    {
        &self.atype
    }

    /// The ordinal of the argument within its interface.
    pub fn get_number(&self) -> (number: usize)
        ensures
            number == self@.number,
    {
        self.number
    }

    /// Creates a new instance of `IfArg` with `IfArgType::Integer` type using a string name.
    pub fn new_integer(name: &'a str) -> (arg: Self)
        ensures
            arg@ == IfArgView::fresh(IfArgType::Integer, name@),
    {
        IfArg::new(IfArgType::Integer, name)
    }

    /// Creates a new instance of `IfArg` with `IfArgType::Unsigned` type using a string name.
    pub fn new_unsigned(name: &'a str) -> (arg: Self)
        ensures
            arg@ == IfArgView::fresh(IfArgType::Unsigned, name@),
    {
        IfArg::new(IfArgType::Unsigned, name)
    }

    /// Creates a new instance of `IfArg` with `IfArgType::Long` type using a string name.
    pub fn new_long(name: &'a str) -> (arg: Self)
        ensures
            arg@ == IfArgView::fresh(IfArgType::Long, name@),
    {
        IfArg::new(IfArgType::Long, name)
    }

    /// Creates a new instance of `IfArg` with `IfArgType::Double` type using a string name.
    pub fn new_double(name: &'a str) -> (arg: Self)
        ensures
            arg@ == IfArgView::fresh(IfArgType::Double, name@),
    {
        IfArg::new(IfArgType::Double, name)
    }

    /// Creates a new instance of `IfArg` with `IfArgType::String` type using a string name.
    pub fn new_string(name: &'a str) -> (arg: Self)
        ensures
            arg@ == IfArgView::fresh(IfArgType::String, name@),
    {
        IfArg::new(IfArgType::String, name)
    }

    /// Creates a new instance of `IfArg` with `IfArgType::Password` type using a string name.
    pub fn new_password(name: &'a str) -> (arg: Self)
        ensures
            arg@ == IfArgView::fresh(IfArgType::Password, name@),
    {
        IfArg::new(IfArgType::Password, name)
    }

    /// Creates a new instance of `IfArg` with `IfArgType::Boolean` type using a string name.
    pub fn new_boolean(name: &'a str) -> (arg: Self)
        ensures
            arg@ == IfArgView::fresh(IfArgType::Boolean, name@),
    {
        IfArg::new(IfArgType::Boolean, name)
    }

    /// Creates a new instance of `IfArg` with `IfArgType::Boolflag` type using a string name.
    pub fn new_boolflag(name: &'a str) -> (arg: Self)
        ensures
            arg@ == IfArgView::fresh(IfArgType::Boolflag, name@),
    {
        IfArg::new(IfArgType::Boolflag, name)
    }

    /// Creates a new instance of `IfArg` with `IfArgType::Fileselect` type using a string name.
    pub fn new_fileselect(name: &'a str) -> (arg: Self)
        ensures
            arg@ == IfArgView::fresh(IfArgType::Fileselect, name@),
    {
        IfArg::new(IfArgType::Fileselect, name)
    }

    /// Creates a new instance of `IfArg` with `IfArgType::Selector` type using a string name.
    pub fn new_selector(name: &'a str) -> (arg: Self)
        ensures
            arg@ == IfArgView::fresh(IfArgType::Selector, name@),
    {
        IfArg::new(IfArgType::Selector, name)
    }

    /// Creates a new instance of `IfArg` with `IfArgType::Radio` type using a string name.
    pub fn new_radio(name: &'a str) -> (arg: Self)
        ensures
            arg@ == IfArgView::fresh(IfArgType::Radio, name@),
    {
        IfArg::new(IfArgType::Radio, name)
    }

    /// Creates a new instance of `IfArg` with `IfArgType::Multicheck` type using a string name.
    pub fn new_multicheck(name: &'a str) -> (arg: Self)
        ensures
            arg@ == IfArgView::fresh(IfArgType::Multicheck, name@),
    {
        IfArg::new(IfArgType::Multicheck, name)
    }

    /// Creates a new instance of `IfArg` with `IfArgType::Timestamp` type using a string name.
    pub fn new_timestamp(name: &'a str) -> (arg: Self)
        ensures
            arg@ == IfArgView::fresh(IfArgType::Timestamp, name@),
    {
        IfArg::new(IfArgType::Timestamp, name)
    }

    /// Sets the display string.
    pub fn display(self, display: &'a str) -> (arg: Self)
        ensures
            arg@ == (IfArgView { display: Some(display@), ..self@ }),
    {
        proof {
            use_type_invariant(&self);
        }
        let mut arg = self;
        arg.display = Some(display);
        arg
    }

    /// Sets the default value.
    pub fn default<T: std::fmt::Display + ?Sized>(self, default: &T) -> (arg: Self)
        ensures
            arg@.default matches Some(text) && display_text(default, text),
            arg@ == (IfArgView { default: arg@.default, ..self@ }),
    {
        proof {
            use_type_invariant(&self);
        }
        let mut arg = self;
        arg.default = Some(default.to_string());
        arg
    }

    /// Sets the range string.
    pub fn range<T: std::fmt::Display + ?Sized>(self, range: &T) -> (arg: Self)
        ensures
            arg@.range matches Some(text) && display_text(range, text),
            arg@ == (IfArgView { range: arg@.range, ..self@ }),
    {
        proof {
            use_type_invariant(&self);
        }
        let mut arg = self;
        arg.range = Some(range.to_string());
        arg
    }

    /// Sets the validation regular expression string.
    pub fn validation<T: std::fmt::Display + ?Sized>(self, validation: &T) -> (arg: Self)
        ensures
            arg@.validation matches Some(text) && display_text(validation, text),
            arg@ == (IfArgView { validation: arg@.validation, ..self@ }),
    {
        proof {
            use_type_invariant(&self);
        }
        let mut arg = self;
        arg.validation = Some(validation.to_string());
        arg
    }

    /// Sets the `mustexist` flag for `Fileselect`.
    pub fn mustexist(self, mustexist: bool) -> (arg: Self)
        ensures
            arg@ == (IfArgView { mustexist: Some(mustexist), ..self@ }),
    {
        proof {
            use_type_invariant(&self);
        }
        let mut arg = self;
        arg.mustexist = Some(mustexist);
        arg
    }

    /// Sets the `reload` flag.
    pub fn reload(self, reload: bool) -> (arg: Self)
        ensures
            arg@ == (IfArgView { reload: Some(reload), ..self@ }),
    {
        proof {
            use_type_invariant(&self);
        }
        let mut arg = self;
        arg.reload = Some(reload);
        arg
    }

    /// Whether the values of the argument can be asked for again.
    pub fn has_reload(&self) -> (reload: bool)
        ensures
            reload == self@.has_reload(),
    {
        match self.reload {
            Some(r) => r,
            None => false,
        }
    }

    /// Sets the placeholder string.
    pub fn placeholder(self, placeholder: &str) -> (arg: Self)
        ensures
            arg@ == (IfArgView { placeholder: Some(placeholder@), ..self@ }),
    {
        proof {
            use_type_invariant(&self);
        }
        let mut arg = self;
        arg.placeholder = Some(placeholder.to_owned());
        arg
    }

    /// Sets the tooltip string.
    pub fn tooltip(self, tooltip: &str) -> (arg: Self)
        ensures
            arg@ == (IfArgView { tooltip: Some(tooltip@), ..self@ }),
    {
        proof {
            use_type_invariant(&self);
        }
        let mut arg = self;
        arg.tooltip = Some(tooltip.to_owned());
        arg
    }

    /// Sets the group.
    pub fn group(self, group: &str) -> (arg: Self)
        ensures
            arg@ == (IfArgView { group: Some(group@), ..self@ }),
    {
        proof {
            use_type_invariant(&self);
        }
        let mut arg = self;
        arg.group = Some(group.to_owned());
        arg
    }

    /// Adds a value, which the argument then owns.
    pub fn add_val(&mut self, val: IfArgVal)
        ensures
            final(self)@ == (IfArgView {
                vals: old(self)@.vals.push(val@.owned_by(old(self)@.number)),
                ..old(self)@
            }),
            final(self)@.wf(),
    {
        proof {
            use_type_invariant(&*self);
        }
        let mut val = val;
        val.set_arg(self.number);
        let mut vals: Vec<IfArgVal> = Vec::new();
        std::mem::swap(&mut vals, &mut self.vals);
        vals.push(val);
        proof {
            assert forall|j: int| 0 <= j < vals@.len() implies (#[trigger] vals@[j])@.arg
                == self.number by {
                if j < old(self).vals@.len() {
                    assert(old(self)@.vals[j].arg == old(self)@.number);
                }
            }
        }
        self.vals = vals;
        assert(self@.vals =~= old(self)@.vals.push(val@));
    }

    /// Replaces the values by others, which the argument then owns.
    pub fn reload_option(&mut self, vals: Vec<IfArgVal>)
        ensures
            final(self)@ == old(self)@.with_vals(vals_view(vals@)),
            final(self)@.wf(),
    {
        let ghost given = vals_view(vals@);
        let mut vals = vals;
        own_all(&mut vals, self.number);
        self.vals = vals;
        assert(self@.vals =~= old(self)@.with_vals(given).vals);
    }

    /// The descriptor lines of the argument: its own, then one for each of
    /// its values.
    pub fn render_arg(&self) -> (text: String)
        ensures
            text@ == self@.text(),
    {
        let mut out = String::from_str("arg ");
        let mut number = String::new();
        push_decimal(&mut number, self.number as u64);
        push_field(&mut out, "number", number.as_str());
        let mut call = String::from_str("--");
        call.append(self.name);
        push_field(&mut out, "call", call.as_str());
        match self.display {
            Some(d) => push_field(&mut out, "display", d),
            None => push_field(&mut out, "display", self.name),
        }
        push_field(&mut out, "type", self.atype.type_str());
        push_opt_field(&mut out, "default", &self.default);
        push_opt_field(&mut out, "range", &self.range);
        push_opt_field(&mut out, "validation", &self.validation);
        push_opt_bool(&mut out, "mustexist", &self.mustexist);
        push_opt_bool(&mut out, "reload", &self.reload);
        push_opt_field(&mut out, "placeholder", &self.placeholder);
        push_opt_field(&mut out, "tooltip", &self.tooltip);
        push_opt_field(&mut out, "group", &self.group);
        out.append("\n");
        assert(out@ =~= self@.line());
        let n = self.vals.len();
        let mut i: usize = 0;
        assert(self@.vals.take(0) =~= Seq::empty());
        while i < n
            invariant
                i <= n,
                n == self.vals@.len(),
                out@ == self@.line() + value_lines(self@.vals.take(i as int)),
            decreases n - i,
        {
            let line = self.vals[i].render_value();
            out.append(line.as_str());
            proof {
                let next = self@.vals.take(i + 1);
                assert(next.drop_last() =~= self@.vals.take(i as int));
                assert(next.last() == self.vals@[i as int]@);
                assert(out@ =~= self@.line() + value_lines(next));
            }
            i += 1;
        }
        assert(self@.vals.take(n as int) =~= self@.vals);
        out
    }
}

/// Makes every value of a run refer to one owner.
fn own_all(vals: &mut Vec<IfArgVal>, number: usize)
    ensures
        final(vals)@.len() == old(vals)@.len(),
        forall|j: int|
            0 <= j < old(vals)@.len() ==> (#[trigger] final(vals)@[j])@ == old(vals)@[j]@.owned_by(
                number as nat,
            ),
{
    let n = vals.len();
    let mut i: usize = 0;
    while i < n
        invariant
            i <= n,
            n == vals@.len(),
            n == old(vals)@.len(),
            forall|j: int|
                0 <= j < i ==> (#[trigger] vals@[j])@ == old(vals)@[j]@.owned_by(number as nat),
            forall|j: int| i <= j < n ==> vals@[j] == old(vals)@[j],
        decreases n - i,
    {
        vals[i].set_arg(number);
        i += 1;
    }
}

} // verus!
