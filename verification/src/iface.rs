//! Capture interfaces: a name, a link type and an ordered list of arguments.

use pcap_file::DataLink;
use vstd::prelude::*;
use vstd::string::StringExecFns;

use crate::arg::{vals_view, IfArg, IfArgType, IfArgVal, IfArgView};
use crate::text::{
    decimal, field, lemma_display_text_str, opt_field, opt_view, or_fallback, push_decimal,
    push_field, push_opt_field, str_eq,
};

verus! {

/// The link type of an interface for which none was chosen: the first of the
/// link types that are left to the user.
pub const DLT_USER0: u32 = 147;

/// `From<DataLink> for u32`, applied to `DataLink::USER0`: the number of
/// that link type, which is 147.
#[verifier::external_body]
fn dlt_user0() -> (dlt: u32)
    ensures
        dlt == DLT_USER0,
{
    DataLink::USER0.into()
}

/// The descriptor lines of a run of arguments, in order.
pub open spec fn args_text(args: Seq<IfArgView>) -> Seq<char>
    decreases args.len(),
{
    if args.len() == 0 {
        Seq::empty()
    } else {
        args_text(args.drop_last()) + args.last().text()
    }
}

/// The argument `debug` that debug support adds to an interface.
pub open spec fn debug_arg() -> IfArgView {
    IfArgView {
        display: Some("Run in debug mode"@),
        default: Some("false"@),
        tooltip: Some("Print debug messages"@),
        group: Some("Debug"@),
        ..IfArgView::fresh(IfArgType::Boolflag, "debug"@)
    }
}

/// The argument `debug-file` that debug support adds to an interface.
pub open spec fn debug_file_arg() -> IfArgView {
    IfArgView {
        display: Some("Use a file for debug"@),
        tooltip: Some("Set a file where the debug messages are written"@),
        group: Some("Debug"@),
        ..IfArgView::fresh(IfArgType::String, "debug-file"@)
    }
}

/// What an interface holds, as plain values.
pub struct IFaceView {
    /// The name, by which the interface is selected.
    pub interface: Seq<char>,
    /// The description.
    pub descr: Option<Seq<char>>,
    /// The number of the link type.
    pub dlt: u32,
    /// The name of the link type, where it differs from the interface's.
    pub dltname: Option<Seq<char>>,
    /// The description of the link type.
    pub dltdescr: Option<Seq<char>>,
    /// The arguments, in the order in which they were added.
    pub args: Seq<IfArgView>,
    /// Whether debug support was added.
    pub debug: bool,
}

impl IFaceView {
    /// The ordinal of every argument is its place in the list, every
    /// argument owns its values, and no name occurs twice.
    pub open spec fn wf(self) -> bool {
        &&& forall|i: int|
            0 <= i < self.args.len() ==> (#[trigger] self.args[i]).number == i && self.args[i].wf()
        &&& forall|i: int, j: int|
            0 <= i < j < self.args.len() ==> (#[trigger] self.args[i]).name != (
            #[trigger] self.args[j]).name
    }

    /// An interface of a name with nothing else set.
    pub open spec fn fresh(interface: Seq<char>) -> IFaceView {
        IFaceView {
            interface,
            descr: None,
            dlt: DLT_USER0,
            dltname: None,
            dltdescr: None,
            args: Seq::empty(),
            debug: false,
        }
    }

    /// Whether the interface has an argument of a name.
    pub open spec fn has_arg(self, name: Seq<char>) -> bool {
        exists|i: int| 0 <= i < self.args.len() && (#[trigger] self.args[i]).name == name
    }

    /// The place of the argument of a name in the list, if there is one.
    pub open spec fn arg_index(self, name: Seq<char>) -> Option<int> {
        if self.has_arg(name) {
            Some(choose|i: int| 0 <= i < self.args.len() && (#[trigger] self.args[i]).name == name)
        } else {
            None
        }
    }

    /// Whether some argument of the interface can have its values asked for
    /// again.
    pub open spec fn has_reloadable_arg(self) -> bool {
        exists|i: int| 0 <= i < self.args.len() && (#[trigger] self.args[i]).has_reload()
    }

    /// The interface after an argument is added: a new name goes to the end
    /// of the list under the next ordinal, a name that is there already
    /// changes nothing.
    pub open spec fn with_arg(self, arg: IfArgView) -> IFaceView {
        if self.has_arg(arg.name) {
            self
        } else {
            IFaceView { args: self.args.push(arg.numbered(self.args.len())), ..self }
        }
    }

    /// The interface after debug support is added.
    pub open spec fn with_debug(self) -> IFaceView {
        if self.debug {
            self
        } else {
            (IFaceView { debug: true, ..self }).with_arg(debug_arg()).with_arg(debug_file_arg())
        }
    }

    /// The descriptor line of the interface.
    pub open spec fn line(self) -> Seq<char> {
        "interface "@ + field("value"@, self.interface) + opt_field("display"@, self.descr)
            + "\n"@
    }

    /// The descriptor line of the link type of the interface.
    pub open spec fn dlt_line(self) -> Seq<char> {
        "dlt "@ + field("number"@, decimal(self.dlt as nat)) + field(
            "name"@,
            or_fallback(self.dltname, self.interface),
        ) + opt_field("display"@, self.dltdescr) + "\n"@
    }
}

/// Registering an argument is idempotent per name: after an argument of a
/// name was added, adding another of that name changes nothing. So an
/// interface has one argument of a name, under the ordinal that the first
/// one got.
pub proof fn lemma_with_arg_same_name(ifc: IFaceView, first: IfArgView, second: IfArgView)
    requires
        first.name == second.name,
    ensures
        ifc.with_arg(first).has_arg(first.name),
        ifc.with_arg(first).with_arg(second) == ifc.with_arg(first),
        !ifc.has_arg(first.name) ==> ifc.with_arg(first).args.len() == ifc.args.len() + 1
            && ifc.with_arg(first).args.last().number == ifc.args.len(),
{
    let after = ifc.with_arg(first);
    if !ifc.has_arg(first.name) {
        assert(after.args[ifc.args.len() as int].name == first.name);
    }
}

/// Adding an argument keeps an interface well formed.
pub proof fn lemma_with_arg_wf(ifc: IFaceView, arg: IfArgView)
    requires
        ifc.wf(),
    ensures
        ifc.with_arg(arg).wf(),
{
    let after = ifc.with_arg(arg);
    if !ifc.has_arg(arg.name) {
        assert forall|i: int| 0 <= i < after.args.len() implies (#[trigger] after.args[i]).number
            == i && after.args[i].wf() by {
            if i < ifc.args.len() {
                assert(ifc.args[i].number == i);
            }
        }
        assert forall|i: int, j: int| 0 <= i < j < after.args.len() implies (
        #[trigger] after.args[i]).name != (#[trigger] after.args[j]).name by {
            assert(ifc.args[i].name == after.args[i].name);
            if j < ifc.args.len() {
                assert(ifc.args[j].name == after.args[j].name);
            }
        }
    }
}

/// The views of a run of arguments.
pub open spec fn args_view(args: Seq<IfArg>) -> Seq<IfArgView> {
    Seq::new(args.len(), |i: int| args[i]@)
}

/// Interface representation.
#[derive(Default)]
pub struct IFace<'a> {
    interface: String,
    descr: Option<String>,
    dlt: u32,
    dltname: Option<String>,
    dltdescr: Option<String>,
    args: Vec<IfArg<'a>>,
    debug: bool,
}

impl<'a> View for IFace<'a> {
    type V = IFaceView;

    closed spec fn view(&self) -> IFaceView {
        IFaceView {
            interface: self.interface@,
            descr: opt_view(self.descr),
            dlt: self.dlt,
            dltname: opt_view(self.dltname),
            dltdescr: opt_view(self.dltdescr),
            args: args_view(self.args@),
            debug: self.debug,
        }
    }
}

impl<'a> IFace<'a> {
    #[verifier::type_invariant]
    spec fn inv(self) -> bool {
        self@.wf()
    }

    /// Creates a new instance of `IFace` using a string name.
    pub fn new(interface: &str) -> (ifc: Self)
        ensures
            ifc@ == IFaceView::fresh(interface@),
            ifc@.wf(),
    {
        let ifc = Self {
            interface: interface.to_owned(),
            descr: None,
            dlt: dlt_user0(),
            dltname: None,
            dltdescr: None,
            args: Vec::new(),
            debug: false,
        };
        assert(ifc@.args =~= Seq::empty());
        ifc
    }

    /// Gets interface name.
    pub fn get_interface(&self) -> (name: &str)
        ensures
            name@ == self@.interface,
    {
        self.interface.as_str()
    }

    /// Sets the description.
    pub fn description(self, descr: &str) -> (ifc: Self)
        ensures
            ifc@ == (IFaceView { descr: Some(descr@), ..self@ }),
    {
        proof {
            use_type_invariant(&self);
        }
        let mut ifc = self;
        ifc.descr = Some(descr.to_owned());
        ifc
    }

    /// Sets the DLT.
    pub fn dlt(self, dlt: u32) -> (ifc: Self)
        ensures
            ifc@ == (IFaceView { dlt, ..self@ }),
    {
        proof {
            use_type_invariant(&self);
        }
        let mut ifc = self;
        ifc.dlt = dlt;
        ifc
    }

    /// Sets the DLT name.
    pub fn dltname(self, dltname: &str) -> (ifc: Self)
        ensures
            ifc@ == (IFaceView { dltname: Some(dltname@), ..self@ }),
    {
        proof {
            use_type_invariant(&self);
        }
        let mut ifc = self;
        ifc.dltname = Some(dltname.to_owned());
        ifc
    }

    /// Sets the DLT description.
    pub fn dltdescription(self, dltdescr: &str) -> (ifc: Self)
        ensures
            ifc@ == (IFaceView { dltdescr: Some(dltdescr@), ..self@ }),
    {
        proof {
            use_type_invariant(&self);
        }
        let mut ifc = self;
        ifc.dltdescr = Some(dltdescr.to_owned());
        ifc
    }

    /// The place of the argument of a name in the list, if there is one.
    pub fn get_arg_idx(&self, arg: &str) -> (idx: Option<usize>)
        ensures
            idx is Some <==> self@.has_arg(arg@),
            idx matches Some(i) ==> i < self@.args.len() && self@.args[i as int].name == arg@
                && self@.arg_index(arg@) == Some(i as int),
            idx is None ==> self@.arg_index(arg@) is None,
            self@.wf(),
    {
        proof {
            use_type_invariant(self);
        }
        let n = self.args.len();
        let mut i: usize = 0;
        while i < n
            invariant
                i <= n,
                n == self.args@.len(),
                self@.wf(),
                forall|j: int| 0 <= j < i ==> (#[trigger] self@.args[j]).name != arg@,
            decreases n - i,
        {
            if str_eq(self.args[i].get_name(), arg) {
                assert(self@.args[i as int].name == arg@);
                return Some(i);
            }
            i += 1;
        }
        None
    }

    /// Adds argument: under the next ordinal where its name is new to the
    /// interface, and not at all where the interface has the name already.
    pub fn add_arg(&mut self, arg: IfArg<'a>)
        ensures
            final(self)@ == old(self)@.with_arg(arg@),
            final(self)@.wf(),
    {
        proof {
            use_type_invariant(&*self);
        }
        if self.get_arg_idx(arg.get_name()).is_some() {
            return ;
        }
        let mut arg = arg;
        let ghost given = arg@;
        arg.set_number(self.args.len());
        let mut args: Vec<IfArg<'a>> = Vec::new();
        std::mem::swap(&mut args, &mut self.args);
        args.push(arg);
        proof {
            let after = args_view(args@);
            assert(after =~= old(self)@.args.push(given.numbered(old(self)@.args.len())));
            assert forall|i: int| 0 <= i < after.len() implies (#[trigger] after[i]).number == i
                && after[i].wf() by {
                if i < old(self)@.args.len() {
                    assert(old(self)@.args[i].number == i);
                }
            }
            assert forall|i: int, j: int| 0 <= i < j < after.len() implies (#[trigger] after[i]).name
                != (#[trigger] after[j]).name by {
                assert(old(self)@.args[i].name == after[i].name);
                if j < old(self)@.args.len() {
                    assert(old(self)@.args[j].name == after[j].name);
                }
            }
        }
        self.args = args;
    }

    /// The arguments, in the order in which they were added.
    pub fn get_args(&self) -> (args: &[IfArg<'a>])
        ensures
            args_view(args@) == self@.args,
            self@.wf(),
    {
        proof {
            use_type_invariant(self);
        }
        self.args.as_slice()
    }

    /// The argument at a place in the list.
    pub fn get_arg(&self, aidx: usize) -> (arg: &IfArg<'a>)
        requires
            aidx < self@.args.len(),
        ensures
            arg@ == self@.args[aidx as int],
    {
        &self.args[aidx]
    }

    /// Replaces the values of the argument at a place in the list.
    pub fn reload_arg(&mut self, aidx: usize, vals: Vec<IfArgVal>)
        requires
            aidx < old(self)@.args.len(),
        ensures
            final(self)@ == (IFaceView {
                args: old(self)@.args.update(
                    aidx as int,
                    old(self)@.args[aidx as int].with_vals(vals_view(vals@)),
                ),
                ..old(self)@
            }),
            final(self)@.wf(),
    {
        proof {
            use_type_invariant(&*self);
        }
        let mut args: Vec<IfArg<'a>> = Vec::new();
        std::mem::swap(&mut args, &mut self.args);
        args[aidx].reload_option(vals);
        proof {
            let before = old(self)@.args;
            let after = args_view(args@);
            assert(after =~= before.update(
                aidx as int,
                before[aidx as int].with_vals(vals_view(vals@)),
            ));
            assert forall|i: int| 0 <= i < after.len() implies (#[trigger] after[i]).number == i
                && after[i].wf() by {
                assert(before[i].number == i);
            }
            assert forall|i: int, j: int| 0 <= i < j < after.len() implies (#[trigger] after[i]).name
                != (#[trigger] after[j]).name by {
                assert(before[i].name == after[i].name);
                assert(before[j].name == after[j].name);
            }
        }
        self.args = args;
    }

    /// Whether some argument can have its values asked for again.
    pub fn has_reloadable_arg(&self) -> (reloadable: bool)
        ensures
            reloadable == self@.has_reloadable_arg(),
    {
        let n = self.args.len();
        let mut i: usize = 0;
        while i < n
            invariant
                i <= n,
                n == self.args@.len(),
                forall|j: int| 0 <= j < i ==> !(#[trigger] self@.args[j]).has_reload(),
            decreases n - i,
        {
            if self.args[i].has_reload() {
                assert(self@.args[i as int].has_reload());
                return true;
            }
            i += 1;
        }
        false
    }

    /// Whether debug support was added.
    pub fn has_debug(&self) -> (debug: bool)
        ensures
            debug == self@.debug,
    {
        self.debug
    }

    /// Configures debug arguments `debug` and `debug-file`.
    pub fn config_debug(&mut self)
        ensures
            final(self)@ == old(self)@.with_debug(),
            final(self)@.wf(),
    {
        proof {
            use_type_invariant(&*self);
        }
        if self.debug {
            return ;
        }
        self.debug = true;
        let debug = IfArg::new_boolflag("debug").display("Run in debug mode").default(
            "false",
        ).tooltip("Print debug messages").group("Debug");
        proof {
            lemma_display_text_str("false", debug@.default->0);
        }
        self.add_arg(debug);
        self.add_arg(
            IfArg::new_string("debug-file").display("Use a file for debug").tooltip(
                "Set a file where the debug messages are written",
            ).group("Debug"),
        );
    }

    /// The descriptor line of the interface.
    pub fn render_iface(&self) -> (text: String)
        ensures
            text@ == self@.line(),
    {
        let mut out = String::from_str("interface ");
        push_field(&mut out, "value", self.interface.as_str());
        push_opt_field(&mut out, "display", &self.descr);
        out.append("\n");
        assert(out@ =~= self@.line());
        out
    }

    /// The descriptor line of the link type of the interface.
    pub fn render_dlt_list(&self) -> (text: String)
        ensures
            text@ == self@.dlt_line(),
    {
        let mut out = String::from_str("dlt ");
        let mut number = String::new();
        push_decimal(&mut number, self.dlt as u64);
        push_field(&mut out, "number", number.as_str());
        match &self.dltname {
            Some(n) => push_field(&mut out, "name", n.as_str()),
            None => push_field(&mut out, "name", self.interface.as_str()),
        }
        push_opt_field(&mut out, "display", &self.dltdescr);
        out.append("\n");
        assert(out@ =~= self@.dlt_line());
        out
    }

    /// The descriptor lines of all the arguments, in order.
    pub fn render_arg_list(&self) -> (text: String)
        ensures
            text@ == args_text(self@.args),
    {
        let mut out = String::new();
        let n = self.args.len();
        let mut i: usize = 0;
        assert(self@.args.take(0) =~= Seq::empty());
        while i < n
            invariant
                i <= n,
                n == self.args@.len(),
                out@ == args_text(self@.args.take(i as int)),
            decreases n - i,
        {
            let lines = self.args[i].render_arg();
            out.append(lines.as_str());
            proof {
                let next = self@.args.take(i + 1);
                assert(next.drop_last() =~= self@.args.take(i as int));
                assert(next.last() == self.args@[i as int]@);
            }
            i += 1;
        }
        assert(self@.args.take(n as int) =~= self@.args);
        out
    }
}

} // verus!
