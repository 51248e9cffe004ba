//! The provider itself: its registries, the flags it declares, and the step
//! that the flags of a run ask for.

use vstd::prelude::*;
use vstd::string::StringExecFns;

use crate::arg::{vals_view, IfArg, IfArgType, IfArgVal, IfArgValView, IfArgView};
use crate::control::{Control, ControlView};
use crate::error::{ExtcapError, ExtcapErrorView};
use crate::flags::{
    declare, declare_flag, declared, distinct_names, flags_view, lemma_declare, present, value_of,
    FlagDecl, FlagDeclView, FlagGroup, FlagGroupView, Matches,
};
use crate::iface::{args_text, args_view, IFace, IFaceView};
use crate::text::{
    field, opt_field, opt_str_view, opt_view, push_field, push_opt_field, str_eq,
};

verus! {

/// The flag that carries the version of the host.
pub const OPT_EXTCAP_VERSION: &'static str = "extcap-version";

/// The flag that asks for the list of interfaces.
pub const OPT_EXTCAP_INTERFACES: &'static str = "extcap-interfaces";

/// The flag that selects an interface.
pub const OPT_EXTCAP_INTERFACE: &'static str = "extcap-interface";

/// The flag that asks for the link types of the selected interface.
pub const OPT_EXTCAP_DTLS: &'static str = "extcap-dlts";

/// The flag that asks for the arguments of the selected interface.
pub const OPT_EXTCAP_CONFIG: &'static str = "extcap-config";

/// The flag that names the argument whose values are asked for again.
pub const OPT_EXTCAP_RELOAD_OPTION: &'static str = "extcap-reload-option";

/// The flag that starts a capture.
pub const OPT_CAPTURE: &'static str = "capture";

/// The flag that carries the capture filter.
pub const OPT_EXTCAP_CAPTURE_FILTER: &'static str = "extcap-capture-filter";

/// The flag that names the sink of the capture.
pub const OPT_FIFO: &'static str = "fifo";

/// The flag that names the pipe of control messages from the host.
pub const OPT_EXTCAP_CONTROL_IN: &'static str = "extcap-control-in";

/// The flag that names the pipe of control messages to the host.
pub const OPT_EXTCAP_CONTROL_OUT: &'static str = "extcap-control-out";

/// The flag that turns debug messages on.
pub const OPT_DEBUG: &'static str = "debug";

/// The flag that names the file for debug messages.
pub const OPT_DEBUG_FILE: &'static str = "debug-file";

/// The name of the group of the flags of which one run may have only one.
pub const GROUP_IF_ACTION: &'static str = "if_action";

/// Extcap steps.
#[derive(Copy, Clone, Debug, PartialEq, Eq, Structural)]
pub enum ExtcapStep {
    /// Not determined.
    NotDetermined,
    /// Query for available interfaces.
    QueryIfaces,
    /// Ask for the link types of an interface.
    QueryDlts,
    /// The extcap configuration interface.
    ConfigIface {
        /// Reload of some argument invoked.
        reload: bool,
    },
    /// The capture process.
    Capture {
        /// Control pipes available.
        ctrl_pipe: bool,
    },
}

impl Default for ExtcapStep {
    fn default() -> (step: Self)
        ensures
            step == ExtcapStep::NotDetermined,
    {
        ExtcapStep::NotDetermined
    }
}

/// The step that the flags of a run ask for. The flag that lists the
/// interfaces comes first, then the one for the link types, then the one
/// for the configuration, then the one for the capture.
pub open spec fn spec_derive_step(matches: Map<Seq<char>, Option<Seq<char>>>) -> ExtcapStep {
    if present(matches, OPT_EXTCAP_INTERFACES@) {
        ExtcapStep::QueryIfaces
    } else if present(matches, OPT_EXTCAP_DTLS@) {
        ExtcapStep::QueryDlts
    } else if present(matches, OPT_EXTCAP_CONFIG@) {
        ExtcapStep::ConfigIface { reload: present(matches, OPT_EXTCAP_RELOAD_OPTION@) }
    } else if present(matches, OPT_CAPTURE@) {
        ExtcapStep::Capture {
            ctrl_pipe: present(matches, OPT_EXTCAP_CONTROL_IN@) && present(
                matches,
                OPT_EXTCAP_CONTROL_OUT@,
            ),
        }
    } else {
        ExtcapStep::NotDetermined
    }
}

/// The step that the flags of a run ask for.
pub fn derive_step(matches: &Matches) -> (step: ExtcapStep)
    ensures
        step == spec_derive_step(matches@),
{
    if matches.is_present(OPT_EXTCAP_INTERFACES) {
        ExtcapStep::QueryIfaces
    } else if matches.is_present(OPT_EXTCAP_DTLS) {
        ExtcapStep::QueryDlts
    } else if matches.is_present(OPT_EXTCAP_CONFIG) {
        let reload = matches.is_present(OPT_EXTCAP_RELOAD_OPTION);
        ExtcapStep::ConfigIface { reload }
    } else if matches.is_present(OPT_CAPTURE) {
        let ctrl_pipe = matches.is_present(OPT_EXTCAP_CONTROL_IN) && matches.is_present(
            OPT_EXTCAP_CONTROL_OUT,
        );
        ExtcapStep::Capture { ctrl_pipe }
    } else {
        ExtcapStep::NotDetermined
    }
}

/// Whenever the flag that lists the interfaces is given, the step is the
/// query for interfaces, whatever other flags are given with it.
pub proof fn lemma_interfaces_flag_comes_first(matches: Map<Seq<char>, Option<Seq<char>>>)
    requires
        present(matches, OPT_EXTCAP_INTERFACES@),
    ensures
        spec_derive_step(matches) == ExtcapStep::QueryIfaces,
{
}

/// The flags that every provider declares.
pub open spec fn base_flags() -> Seq<FlagDeclView> {
    seq![
        FlagDeclView::option(OPT_EXTCAP_VERSION@, "Wireshark version"@, "ver"@),
        FlagDeclView::switch(OPT_EXTCAP_INTERFACES@, "List the extcap Interfaces"@),
        FlagDeclView {
            conflicts_with: Some(OPT_EXTCAP_INTERFACES@),
            ..FlagDeclView::option(OPT_EXTCAP_INTERFACE@, "Specify the extcap interface"@, "iface"@)
        },
        FlagDeclView::switch(OPT_EXTCAP_DTLS@, "List the DLTs"@),
        FlagDeclView::switch(
            OPT_EXTCAP_CONFIG@,
            "List the additional configuration for an interface"@,
        ),
        FlagDeclView::switch(OPT_CAPTURE@, "Run the capture"@).needing(OPT_FIFO@),
        FlagDeclView::option(OPT_EXTCAP_CAPTURE_FILTER@, "The capture filter"@, "filter"@).needing(
            OPT_CAPTURE@,
        ),
        FlagDeclView::option(OPT_FIFO@, "Dump data to file or fifo"@, "file"@).needing(
            OPT_CAPTURE@,
        ),
    ]
}

/// The group that every provider declares: of the flags for the link
/// types, the configuration and the capture a run may have only one, and
/// each of them needs an interface to be selected.
pub open spec fn base_groups() -> Seq<FlagGroupView> {
    seq![
        FlagGroupView {
            name: GROUP_IF_ACTION@,
            args: seq![OPT_EXTCAP_DTLS@, OPT_EXTCAP_CONFIG@, OPT_CAPTURE@],
            multiple: false,
            needs: seq![OPT_EXTCAP_INTERFACE@],
        },
    ]
}

/// The flag that names the argument to reload.
pub open spec fn reload_flag() -> FlagDeclView {
    FlagDeclView::option(
        OPT_EXTCAP_RELOAD_OPTION@,
        "Reload values for the given argument"@,
        "option"@,
    ).needing(OPT_EXTCAP_INTERFACE@).needing(OPT_EXTCAP_CONFIG@)
}

/// The flag for the pipe of control messages from the host.
pub open spec fn control_in_flag() -> FlagDeclView {
    FlagDeclView::option(
        OPT_EXTCAP_CONTROL_IN@,
        "The pipe for control messages from toolbar"@,
        "in-pipe"@,
    ).needing(OPT_CAPTURE@)
}

/// The flag for the pipe of control messages to the host.
pub open spec fn control_out_flag() -> FlagDeclView {
    FlagDeclView::option(
        OPT_EXTCAP_CONTROL_OUT@,
        "The pipe for control messages to toolbar"@,
        "out-pipe"@,
    ).needing(OPT_CAPTURE@)
}

/// The flag that turns debug messages on.
pub open spec fn debug_flag() -> FlagDeclView {
    FlagDeclView::switch(OPT_DEBUG@, "Print additional messages"@)
}

/// The flag that names the file for debug messages.
pub open spec fn debug_file_flag() -> FlagDeclView {
    FlagDeclView::option(OPT_DEBUG_FILE@, "Print debug messages to file"@, "file"@)
}

/// The flag that an argument of an interface projects into: `--name`, with
/// the display string as help, taking a value unless the argument is a
/// boolean flag.
pub open spec fn arg_flag(arg: IfArgView) -> FlagDeclView {
    FlagDeclView {
        help: arg.display,
        takes_value: arg.takes_value(),
        ..FlagDeclView::with_name(arg.name)
    }
}

/// The declared flags after the flags of a run of arguments are declared,
/// in order.
pub open spec fn declare_args(flags: Seq<FlagDeclView>, args: Seq<IfArgView>) -> Seq<FlagDeclView>
    decreases args.len(),
{
    if args.len() == 0 {
        flags
    } else {
        declare(declare_args(flags, args.drop_last()), arg_flag(args.last()))
    }
}

/// Declaring the flags of arguments keeps the names distinct and what was
/// declared before, and the name of every argument is declared afterwards.
pub proof fn lemma_declare_args(flags: Seq<FlagDeclView>, args: Seq<IfArgView>)
    requires
        distinct_names(flags),
    ensures
        distinct_names(declare_args(flags, args)),
        forall|name: Seq<char>| declared(flags, name) ==> declared(declare_args(flags, args), name),
        forall|i: int|
            0 <= i < args.len() ==> declared(declare_args(flags, args), (#[trigger] args[i]).name),
    decreases args.len(),
{
    if args.len() > 0 {
        let before = declare_args(flags, args.drop_last());
        lemma_declare_args(flags, args.drop_last());
        lemma_declare(before, arg_flag(args.last()));
        assert forall|i: int| 0 <= i < args.len() implies declared(
            declare_args(flags, args),
            (#[trigger] args[i]).name,
        ) by {
            if i < args.len() - 1 {
                assert(args.drop_last()[i] == args[i]);
            }
        }
    }
}

/// The descriptor lines of a run of interfaces, in order.
pub open spec fn ifaces_text(ifaces: Seq<IFaceView>) -> Seq<char>
    decreases ifaces.len(),
{
    if ifaces.len() == 0 {
        Seq::empty()
    } else {
        ifaces_text(ifaces.drop_last()) + ifaces.last().line()
    }
}

/// The descriptor lines of a run of controls, in order.
pub open spec fn controls_text(controls: Seq<ControlView>) -> Seq<char>
    decreases controls.len(),
{
    if controls.len() == 0 {
        Seq::empty()
    } else {
        controls_text(controls.drop_last()) + controls.last().text()
    }
}

/// What a provider holds, as plain values.
pub struct ExtcapView {
    /// The step of the run.
    pub step: ExtcapStep,
    /// The name of the program.
    pub name: Seq<char>,
    /// The declared flags, in the order of their declaration.
    pub flags: Seq<FlagDeclView>,
    /// The declared groups of flags.
    pub groups: Seq<FlagGroupView>,
    /// The flags that the run was given, once it has started.
    pub matches: Option<Map<Seq<char>, Option<Seq<char>>>>,
    /// The version of the provider.
    pub version: Option<Seq<char>>,
    /// The address of the help page.
    pub helppage: Option<Seq<char>>,
    /// The version of the host.
    pub ws_version: Option<Seq<char>>,
    /// The author, for the help text.
    pub author: Option<Seq<char>>,
    /// What the program is about, for the help text.
    pub about: Option<Seq<char>>,
    /// The usage, for the help text.
    pub usage: Option<Seq<char>>,
    /// What follows the help text.
    pub after_help: Option<Seq<char>>,
    /// The interfaces, in the order of their registration.
    pub interfaces: Seq<IFaceView>,
    /// Whether the flag for reloading is declared.
    pub reload_opt: bool,
    /// Whether the debug flags are declared.
    pub ifc_debug: bool,
    /// Whether the flags for the control pipes are declared.
    pub control: bool,
    /// The controls, in the order of their registration.
    pub controls: Seq<ControlView>,
}

impl ExtcapView {
    /// No flag is declared twice; every interface is well formed and no
    /// two have one name; the ordinal of every control is its place in the
    /// list, and every control owns its values.
    pub open spec fn wf(self) -> bool {
        &&& distinct_names(self.flags)
        &&& forall|i: int| 0 <= i < self.interfaces.len() ==> (#[trigger] self.interfaces[i]).wf()
        &&& forall|i: int, j: int|
            0 <= i < j < self.interfaces.len() ==> (#[trigger] self.interfaces[i]).interface != (
            #[trigger] self.interfaces[j]).interface
        &&& forall|i: int|
            0 <= i < self.controls.len() ==> (#[trigger] self.controls[i]).number == i
                && self.controls[i].wf()
    }

    /// A provider of a name with nothing registered.
    pub open spec fn fresh(name: Seq<char>) -> ExtcapView {
        ExtcapView {
            step: ExtcapStep::NotDetermined,
            name,
            flags: base_flags(),
            groups: base_groups(),
            matches: None,
            version: None,
            helppage: None,
            ws_version: None,
            author: None,
            about: None,
            usage: None,
            after_help: None,
            interfaces: Seq::empty(),
            reload_opt: false,
            ifc_debug: false,
            control: false,
            controls: Seq::empty(),
        }
    }

    /// Whether an interface of a name is registered.
    pub open spec fn has_interface(self, name: Seq<char>) -> bool {
        exists|i: int|
            0 <= i < self.interfaces.len() && (#[trigger] self.interfaces[i]).interface == name
    }

    /// The place of the interface of a name in the list, if there is one.
    pub open spec fn interface_index(self, name: Seq<char>) -> Option<int> {
        if self.has_interface(name) {
            Some(
                choose|i: int|
                    0 <= i < self.interfaces.len() && (#[trigger] self.interfaces[i]).interface
                        == name,
            )
        } else {
            None
        }
    }

    /// The declared flags after the flag for reloading is declared, unless
    /// that was done before.
    pub open spec fn flags_with_reload(self) -> Seq<FlagDeclView> {
        if self.reload_opt {
            self.flags
        } else {
            declare(self.flags, reload_flag())
        }
    }

    /// The declared flags after the debug flags are declared, unless that
    /// was done before.
    pub open spec fn flags_with_debug(self) -> Seq<FlagDeclView> {
        if self.ifc_debug {
            self.flags
        } else {
            declare(declare(self.flags, debug_flag()), debug_file_flag())
        }
    }

    /// The declared flags after the flags for the control pipes are
    /// declared, unless that was done before.
    pub open spec fn flags_with_control(self) -> Seq<FlagDeclView> {
        if self.control {
            self.flags
        } else {
            declare(declare(self.flags, control_in_flag()), control_out_flag())
        }
    }

    /// The provider after an interface is registered. An interface of a
    /// new name goes to the end of the list; where it has an argument that
    /// can be reloaded, the flag for reloading is declared, where it has
    /// debug support, the debug flags are, and then the flag of each of its
    /// arguments is. An interface of a name that is registered already
    /// changes nothing.
    pub open spec fn with_interface(self, ifc: IFaceView) -> ExtcapView {
        if self.has_interface(ifc.interface) {
            self
        } else {
            let first = if ifc.has_reloadable_arg() {
                ExtcapView { flags: self.flags_with_reload(), reload_opt: true, ..self }
            } else {
                self
            };
            let second = if ifc.debug {
                ExtcapView { flags: first.flags_with_debug(), ifc_debug: true, ..first }
            } else {
                first
            };
            ExtcapView {
                flags: declare_args(second.flags, ifc.args),
                interfaces: self.interfaces.push(ifc),
                ..second
            }
        }
    }

    /// The provider after a control is registered: the flags for the
    /// control pipes are declared, and the control goes to the end of the
    /// list under the next ordinal.
    pub open spec fn with_control(self, control: ControlView) -> ExtcapView {
        ExtcapView {
            flags: self.flags_with_control(),
            control: true,
            controls: self.controls.push(control.numbered(self.controls.len())),
            ..self
        }
    }

    /// The descriptor line of the provider's version.
    pub open spec fn version_line(self) -> Seq<char> {
        "extcap "@ + field(
            "version"@,
            match self.version {
                Some(v) => v,
                None => "unknown"@,
            },
        ) + opt_field("help"@, self.helppage) + "\n"@
    }

    /// The answer to the query for interfaces: the version line, then the
    /// line of every interface, then the lines of every control.
    pub open spec fn listing(self) -> Seq<char> {
        self.version_line() + ifaces_text(self.interfaces) + controls_text(self.controls)
    }
}

/// The views of a run of groups.
pub open spec fn groups_view(groups: Seq<FlagGroup>) -> Seq<FlagGroupView> {
    Seq::new(groups.len(), |i: int| groups[i]@)
}

/// The views of a run of interfaces.
pub open spec fn ifaces_view(ifaces: Seq<IFace>) -> Seq<IFaceView> {
    Seq::new(ifaces.len(), |i: int| ifaces[i]@)
}

/// The views of a run of controls.
pub open spec fn controls_view(controls: Seq<Control>) -> Seq<ControlView> {
    Seq::new(controls.len(), |i: int| controls[i]@)
}

/// The view of the flags of a run, where there are any.
pub open spec fn opt_matches_view(matches: Option<Matches>) -> Option<
    Map<Seq<char>, Option<Seq<char>>>,
> {
    match matches {
        Some(m) => Some(m@),
        None => None,
    }
}

/// The names of the flags that every provider declares differ from one
/// another.
proof fn lemma_base_flags_distinct()
    ensures
        distinct_names(base_flags()),
{
    reveal_strlit("extcap-version");
    reveal_strlit("extcap-interfaces");
    reveal_strlit("extcap-interface");
    reveal_strlit("extcap-dlts");
    reveal_strlit("extcap-config");
    reveal_strlit("capture");
    reveal_strlit("extcap-capture-filter");
    reveal_strlit("fifo");
    let flags = base_flags();
    assert(flags[0].name.len() == 14);
    assert(flags[1].name.len() == 17);
    assert(flags[2].name.len() == 16);
    assert(flags[3].name.len() == 11);
    assert(flags[4].name.len() == 13);
    assert(flags[5].name.len() == 7);
    assert(flags[6].name.len() == 21);
    assert(flags[7].name.len() == 4);
}

/// Extcap representation.
pub struct Extcap<'a> {
    step: ExtcapStep,
    name: &'a str,
    flags: Vec<FlagDecl<'a>>,
    groups: Vec<FlagGroup<'a>>,
    matches: Option<Matches>,
    version: Option<String>,
    helppage: Option<String>,
    ws_version: Option<String>,
    author: Option<&'a str>,
    about: Option<&'a str>,
    usage: Option<&'a str>,
    after_help: Option<&'a str>,
    interfaces: Vec<IFace<'a>>,
    reload_opt: bool,
    ifc_debug: bool,
    control: bool,
    controls: Vec<Control>,
}

impl<'a> View for Extcap<'a> {
    type V = ExtcapView;

    closed spec fn view(&self) -> ExtcapView {
        ExtcapView {
            step: self.step,
            name: self.name@,
            flags: flags_view(self.flags@),
            groups: groups_view(self.groups@),
            matches: opt_matches_view(self.matches),
            version: opt_view(self.version),
            helppage: opt_view(self.helppage),
            ws_version: opt_view(self.ws_version),
            author: opt_str_view(self.author),
            about: opt_str_view(self.about),
            usage: opt_str_view(self.usage),
            after_help: opt_str_view(self.after_help),
            interfaces: ifaces_view(self.interfaces@),
            reload_opt: self.reload_opt,
            ifc_debug: self.ifc_debug,
            control: self.control,
            controls: controls_view(self.controls@),
        }
    }
}

impl<'a> Extcap<'a> {
    #[verifier::type_invariant]
    spec fn inv(self) -> bool {
        self@.wf()
    }

    /// Creates a new instance of an `Extcap` requiring a name.
    pub fn new(name: &'a str) -> (ex: Self)
        ensures
            ex@ == ExtcapView::fresh(name@),
            ex@.wf(),
    {
        let mut flags: Vec<FlagDecl<'a>> = Vec::new();
        flags.push(
            FlagDecl::with_name(OPT_EXTCAP_VERSION).help("Wireshark version").takes_value(
                true,
            ).value_name("ver"),
        );
        flags.push(FlagDecl::with_name(OPT_EXTCAP_INTERFACES).help("List the extcap Interfaces"));
        flags.push(
            FlagDecl::with_name(OPT_EXTCAP_INTERFACE).help(
                "Specify the extcap interface",
            ).takes_value(true).value_name("iface").conflicts_with(OPT_EXTCAP_INTERFACES),
        );
        flags.push(FlagDecl::with_name(OPT_EXTCAP_DTLS).help("List the DLTs"));
        flags.push(
            FlagDecl::with_name(OPT_EXTCAP_CONFIG).help(
                "List the additional configuration for an interface",
            ),
        );
        flags.push(FlagDecl::with_name(OPT_CAPTURE).help("Run the capture").needs(OPT_FIFO));
        flags.push(
            FlagDecl::with_name(OPT_EXTCAP_CAPTURE_FILTER).help("The capture filter").takes_value(
                true,
            ).value_name("filter").needs(OPT_CAPTURE),
        );
        flags.push(
            FlagDecl::with_name(OPT_FIFO).help("Dump data to file or fifo").takes_value(
                true,
            ).value_name("file").needs(OPT_CAPTURE),
        );
        let mut groups: Vec<FlagGroup<'a>> = Vec::new();
        groups.push(
            FlagGroup::with_name(GROUP_IF_ACTION).arg(OPT_EXTCAP_DTLS).arg(OPT_EXTCAP_CONFIG).arg(
                OPT_CAPTURE,
            ).multiple(false).needs(OPT_EXTCAP_INTERFACE),
        );
        proof {
            lemma_base_flags_distinct();
            assert(flags_view(flags@) =~= base_flags());
            assert(groups@[0]@.args =~= base_groups()[0].args);
            assert(groups@[0]@.needs =~= base_groups()[0].needs);
            assert(groups_view(groups@) =~= base_groups());
        }
        let ex = Extcap {
            step: ExtcapStep::NotDetermined,
            name,
            flags,
            groups,
            matches: None,
            version: None,
            helppage: None,
            ws_version: None,
            author: None,
            about: None,
            usage: None,
            after_help: None,
            interfaces: Vec::new(),
            reload_opt: false,
            ifc_debug: false,
            control: false,
            controls: Vec::new(),
        };
        assert(ex@.interfaces =~= Seq::empty());
        assert(ex@.controls =~= Seq::empty());
        ex
    }

    /// Get current step for which it has been invoked from Wireshark.
    pub fn get_step(&self) -> (step: &ExtcapStep)
        ensures
            *step == self@.step,
    {
        &self.step
    }

    /// Whether a run has started, so that there are parsed command line
    /// arguments.
    pub fn has_run(&self) -> (run: bool)
        ensures
            run == (self@.matches is Some),
    {
        self.matches.is_some()
    }

    /// Get parsed command line arguments.
    pub fn get_matches(&self) -> (matches: &Matches)
        requires
            self@.matches is Some,
        ensures
            Some(matches@) == self@.matches,
    {
        self.matches.as_ref().unwrap()
    }

    /// The name of the program.
    pub fn get_name(&self) -> (name: &'a str)
        ensures
            name@ == self@.name,
    {
        self.name
    }

    /// The declared flags, in the order of their declaration.
    pub fn get_flags(&self) -> (flags: &[FlagDecl<'a>])
        ensures
            flags_view(flags@) == self@.flags,
            distinct_names(self@.flags),
    {
        proof {
            use_type_invariant(self);
        }
        self.flags.as_slice()
    }

    /// The declared groups of flags.
    pub fn get_groups(&self) -> (groups: &[FlagGroup<'a>])
        ensures
            groups_view(groups@) == self@.groups,
    {
        self.groups.as_slice()
    }

    /// The version string.
    pub fn get_version(&self) -> (version: Option<&str>)
        ensures
            opt_str_view(version) == self@.version,
    {
        match &self.version {
            Some(v) => Some(v.as_str()),
            None => None,
        }
    }

    /// The version of the host, once a run has started with one.
    pub fn get_ws_version(&self) -> (version: Option<&str>)
        ensures
            opt_str_view(version) == self@.ws_version,
    {
        match &self.ws_version {
            Some(v) => Some(v.as_str()),
            None => None,
        }
    }

    /// The author string.
    pub fn get_author(&self) -> (author: Option<&'a str>)
        ensures
            opt_str_view(author) == self@.author,
    {
        self.author
    }

    /// The about string.
    pub fn get_about(&self) -> (about: Option<&'a str>)
        ensures
            opt_str_view(about) == self@.about,
    {
        self.about
    }

    /// The usage string.
    pub fn get_usage(&self) -> (usage: Option<&'a str>)
        ensures
            opt_str_view(usage) == self@.usage,
    {
        self.usage
    }

    /// The after-help string.
    pub fn get_after_help(&self) -> (help: Option<&'a str>)
        ensures
            opt_str_view(help) == self@.after_help,
    {
        self.after_help
    }

    /// Sets the version string.
    pub fn version(&mut self, ver: &'a str)
        ensures
            final(self)@ == (ExtcapView { version: Some(ver@), ..old(self)@ }),
    {
        proof {
            use_type_invariant(&*self);
        }
        self.version = Some(ver.to_owned());
    }

    /// Sets the help URI.
    pub fn help(&mut self, helppage: &'a str)
        ensures
            final(self)@ == (ExtcapView { helppage: Some(helppage@), ..old(self)@ }),
    {
        proof {
            use_type_invariant(&*self);
        }
        self.helppage = Some(helppage.to_owned());
    }

    /// Sets the author string.
    pub fn author(&mut self, author: &'a str)
        ensures
            final(self)@ == (ExtcapView { author: Some(author@), ..old(self)@ }),
    {
        proof {
            use_type_invariant(&*self);
        }
        self.author = Some(author);
    }

    /// Sets the about string.
    pub fn about(&mut self, about: &'a str)
        ensures
            final(self)@ == (ExtcapView { about: Some(about@), ..old(self)@ }),
    {
        proof {
            use_type_invariant(&*self);
        }
        self.about = Some(about);
    }

    /// Sets the usage string.
    pub fn usage(&mut self, usage: &'a str)
        ensures
            final(self)@ == (ExtcapView { usage: Some(usage@), ..old(self)@ }),
    {
        proof {
            use_type_invariant(&*self);
        }
        self.usage = Some(usage);
    }

    /// Sets the after-help string.
    pub fn after_help(&mut self, help: &'a str)
        ensures
            final(self)@ == (ExtcapView { after_help: Some(help@), ..old(self)@ }),
    {
        proof {
            use_type_invariant(&*self);
        }
        self.after_help = Some(help);
    }

    /// The place of the interface of a name in the list, if there is one.
    pub fn get_if_idx(&self, ifc: &str) -> (idx: Option<usize>)
        ensures
            idx is Some <==> self@.has_interface(ifc@),
            idx matches Some(i) ==> i < self@.interfaces.len() && self@.interfaces[i as int].interface
                == ifc@ && self@.interface_index(ifc@) == Some(i as int),
            idx is None ==> self@.interface_index(ifc@) is None,
            self@.wf(),
    {
        proof {
            use_type_invariant(self);
        }
        let n = self.interfaces.len();
        let mut i: usize = 0;
        while i < n
            invariant
                i <= n,
                n == self.interfaces@.len(),
                self@.wf(),
                forall|j: int| 0 <= j < i ==> (#[trigger] self@.interfaces[j]).interface != ifc@,
            decreases n - i,
        {
            if str_eq(self.interfaces[i].get_interface(), ifc) {
                assert(self@.interfaces[i as int].interface == ifc@);
                return Some(i);
            }
            i += 1;
        }
        None
    }

    /// The interface at a place in the list.
    pub fn get_if(&self, ifidx: usize) -> (ifc: &IFace<'a>)
        requires
            ifidx < self@.interfaces.len(),
        ensures
            ifc@ == self@.interfaces[ifidx as int],
    {
        &self.interfaces[ifidx]
    }

    /// The number of registered interfaces.
    pub fn interface_count(&self) -> (n: usize)
        ensures
            n == self@.interfaces.len(),
    {
        self.interfaces.len()
    }

    /// Declares the flag of an argument of an interface, unless a flag of
    /// its name is declared already.
    fn config_arg(flags: &mut Vec<FlagDecl<'a>>, ifa: &IfArg<'a>)
        ensures
            flags_view(final(flags)@) == declare(flags_view(old(flags)@), arg_flag(ifa@)),
    {
        let mut decl = FlagDecl::with_name(ifa.get_name());
        match ifa.get_display() {
            Some(hlp) => {
                decl = decl.help(hlp);
            },
            None => {},
        }
        let takes_value = match ifa.get_type() {
            IfArgType::Boolflag => false,
            _ => true,
        };
        decl = decl.takes_value(takes_value);
        declare_flag(flags, decl);
    }

    /// Declares the flag that names the argument to reload.
    fn config_reload_opt(flags: &mut Vec<FlagDecl<'a>>)
        ensures
            flags_view(final(flags)@) == declare(flags_view(old(flags)@), reload_flag()),
    {
        declare_flag(
            flags,
            FlagDecl::with_name(OPT_EXTCAP_RELOAD_OPTION).help(
                "Reload values for the given argument",
            ).takes_value(true).value_name("option").needs(OPT_EXTCAP_INTERFACE).needs(
                OPT_EXTCAP_CONFIG,
            ),
        );
    }

    /// Declares the flags for the control pipes.
    fn config_control(flags: &mut Vec<FlagDecl<'a>>)
        ensures
            flags_view(final(flags)@) == declare(
                declare(flags_view(old(flags)@), control_in_flag()),
                control_out_flag(),
            ),
    {
        declare_flag(
            flags,
            FlagDecl::with_name(OPT_EXTCAP_CONTROL_IN).help(
                "The pipe for control messages from toolbar",
            ).takes_value(true).value_name("in-pipe").needs(OPT_CAPTURE),
        );
        declare_flag(
            flags,
            FlagDecl::with_name(OPT_EXTCAP_CONTROL_OUT).help(
                "The pipe for control messages to toolbar",
            ).takes_value(true).value_name("out-pipe").needs(OPT_CAPTURE),
        );
    }

    /// Declares the debug flags.
    fn config_debug(flags: &mut Vec<FlagDecl<'a>>)
        ensures
            flags_view(final(flags)@) == declare(
                declare(flags_view(old(flags)@), debug_flag()),
                debug_file_flag(),
            ),
    {
        declare_flag(flags, FlagDecl::with_name(OPT_DEBUG).help("Print additional messages"));
        declare_flag(
            flags,
            FlagDecl::with_name(OPT_DEBUG_FILE).help("Print debug messages to file").takes_value(
                true,
            ).value_name("file"),
        );
    }

    /// Adds an interface, and declares the flags that it brings; an
    /// interface of a name that is registered already is left out.
    pub fn add_interface(&mut self, ifc: IFace<'a>)
        ensures
            final(self)@ == old(self)@.with_interface(ifc@),
            final(self)@.wf(),
            !old(self)@.has_interface(ifc@.interface) ==> forall|i: int|
                0 <= i < ifc@.args.len() ==> declared(
                    final(self)@.flags,
                    (#[trigger] ifc@.args[i]).name,
                ),
    {
        proof {
            use_type_invariant(&*self);
        }
        if self.get_if_idx(ifc.get_interface()).is_some() {
            return ;
        }
        let mut flags: Vec<FlagDecl<'a>> = Vec::new();
        std::mem::swap(&mut flags, &mut self.flags);
        if ifc.has_reloadable_arg() {
            if !self.reload_opt {
                proof {
                    lemma_declare(flags_view(flags@), reload_flag());
                }
                Self::config_reload_opt(&mut flags);
            }
            self.reload_opt = true;
        }
        if ifc.has_debug() {
            if !self.ifc_debug {
                proof {
                    lemma_declare(flags_view(flags@), debug_flag());
                    lemma_declare(declare(flags_view(flags@), debug_flag()), debug_file_flag());
                }
                Self::config_debug(&mut flags);
            }
            self.ifc_debug = true;
        }
        let ghost second = flags_view(flags@);
        let args = ifc.get_args();
        let n = args.len();
        let mut i: usize = 0;
        assert(ifc@.args.take(0) =~= Seq::empty());
        while i < n
            invariant
                i <= n,
                n == args@.len(),
                args_view(args@) == ifc@.args,
                flags_view(flags@) == declare_args(second, ifc@.args.take(i as int)),
            decreases n - i,
        {
            Self::config_arg(&mut flags, &args[i]);
            proof {
                let next = ifc@.args.take(i + 1);
                assert(next.drop_last() =~= ifc@.args.take(i as int));
                assert(next.last() == args@[i as int]@);
            }
            i += 1;
        }
        proof {
            assert(ifc@.args.take(n as int) =~= ifc@.args);
            lemma_declare_args(second, ifc@.args);
        }
        self.flags = flags;
        let mut ifaces: Vec<IFace<'a>> = Vec::new();
        std::mem::swap(&mut ifaces, &mut self.interfaces);
        ifaces.push(ifc);
        proof {
            let before = old(self)@.interfaces;
            let after = ifaces_view(ifaces@);
            assert(after =~= before.push(ifc@));
            assert forall|k: int| 0 <= k < after.len() implies (#[trigger] after[k]).wf() by {
                if k < before.len() {
                    assert(before[k].wf());
                }
            }
            assert forall|k: int, l: int| 0 <= k < l < after.len() implies (#[trigger] after[k]).interface
                != (#[trigger] after[l]).interface by {
                assert(before[k].interface == after[k].interface);
                if l < before.len() {
                    assert(before[l].interface == after[l].interface);
                }
            }
        }
        self.interfaces = ifaces;
    }

    /// Adds a control under the next ordinal, and declares the flags for
    /// the control pipes.
    pub fn add_control(&mut self, control: Control)
        ensures
            final(self)@ == old(self)@.with_control(control@),
            final(self)@.wf(),
    {
        proof {
            use_type_invariant(&*self);
        }
        if !self.control {
            let mut flags: Vec<FlagDecl<'a>> = Vec::new();
            std::mem::swap(&mut flags, &mut self.flags);
            proof {
                lemma_declare(flags_view(flags@), control_in_flag());
                lemma_declare(declare(flags_view(flags@), control_in_flag()), control_out_flag());
            }
            Self::config_control(&mut flags);
            self.flags = flags;
            self.control = true;
        }
        let mut control = control;
        let ghost given = control@;
        control.set_number(self.controls.len());
        let mut controls: Vec<Control> = Vec::new();
        std::mem::swap(&mut controls, &mut self.controls);
        controls.push(control);
        proof {
            let before = old(self)@.controls;
            let after = controls_view(controls@);
            assert(after =~= before.push(given.numbered(before.len())));
            assert forall|k: int| 0 <= k < after.len() implies (#[trigger] after[k]).number == k
                && after[k].wf() by {
                if k < before.len() {
                    assert(before[k].number == k);
                }
            }
        }
        self.controls = controls;
    }

    /// The descriptor line of the provider's version.
    pub fn render_version(&self) -> (text: String)
        ensures
            text@ == self@.version_line(),
    {
        let mut out = String::from_str("extcap ");
        match &self.version {
            Some(v) => push_field(&mut out, "version", v.as_str()),
            None => push_field(&mut out, "version", "unknown"),
        }
        push_opt_field(&mut out, "help", &self.helppage);
        out.append("\n");
        assert(out@ =~= self@.version_line());
        out
    }

    /// The descriptor lines of all the interfaces, in order.
    pub fn render_iface_list(&self) -> (text: String)
        ensures
            text@ == ifaces_text(self@.interfaces),
    {
        let mut out = String::new();
        let n = self.interfaces.len();
        let mut i: usize = 0;
        assert(self@.interfaces.take(0) =~= Seq::empty());
        while i < n
            invariant
                i <= n,
                n == self.interfaces@.len(),
                out@ == ifaces_text(self@.interfaces.take(i as int)),
            decreases n - i,
        {
            let line = self.interfaces[i].render_iface();
            out.append(line.as_str());
            proof {
                let next = self@.interfaces.take(i + 1);
                assert(next.drop_last() =~= self@.interfaces.take(i as int));
                assert(next.last() == self.interfaces@[i as int]@);
            }
            i += 1;
        }
        assert(self@.interfaces.take(n as int) =~= self@.interfaces);
        out
    }

    /// The descriptor lines of all the controls, in order.
    pub fn render_control_list(&self) -> (text: String)
        ensures
            text@ == controls_text(self@.controls),
    {
        let mut out = String::new();
        let n = self.controls.len();
        let mut i: usize = 0;
        assert(self@.controls.take(0) =~= Seq::empty());
        while i < n
            invariant
                i <= n,
                n == self.controls@.len(),
                out@ == controls_text(self@.controls.take(i as int)),
            decreases n - i,
        {
            let lines = self.controls[i].render_control();
            out.append(lines.as_str());
            proof {
                let next = self@.controls.take(i + 1);
                assert(next.drop_last() =~= self@.controls.take(i as int));
                assert(next.last() == self.controls@[i as int]@);
            }
            i += 1;
        }
        assert(self@.controls.take(n as int) =~= self@.controls);
        out
    }

    /// The answer to the query for interfaces.
    pub fn render_listing(&self) -> (text: String)
        ensures
            text@ == self@.listing(),
    {
        let mut out = self.render_version();
        let ifaces = self.render_iface_list();
        out.append(ifaces.as_str());
        let controls = self.render_control_list();
        out.append(controls.as_str());
        out
    }
}

/// What is left of a string when the white space at both of its ends is
/// taken off.
pub uninterp spec fn spec_trim(s: Seq<char>) -> Seq<char>;

/// `str::trim`: the string without the white space at both of its ends.
#[verifier::external_body]
fn str_trim(s: &str) -> (trimmed: &str)
    ensures
        trimmed@ == spec_trim(s@),
{
    s.trim()
}

/// A value, unless what is left of it without white space is empty.
pub open spec fn spec_unless_blank(value: Seq<char>, trimmed: Seq<char>) -> Option<Seq<char>> {
    if trimmed.len() == 0 {
        None
    } else {
        Some(value)
    }
}

/// A value, unless what is left of it without white space is empty.
pub fn unless_blank<'b>(value: &'b str, trimmed: &str) -> (kept: Option<&'b str>)
    ensures
        opt_str_view(kept) == spec_unless_blank(value@, trimmed@),
{
    if trimmed.is_empty() {
        None
    } else {
        Some(value)
    }
}

/// The file for debug messages that the flags of a run name: the value of
/// the flag, unless it is blank.
pub open spec fn spec_debug_file(matches: Map<Seq<char>, Option<Seq<char>>>) -> Option<Seq<char>> {
    match value_of(matches, OPT_DEBUG_FILE@) {
        Some(s) => spec_unless_blank(s, spec_trim(s)),
        None => None,
    }
}

/// The file for debug messages that the flags of a run name.
pub fn debug_file(matches: &Matches) -> (file: Option<&str>)
    ensures
        opt_str_view(file) == spec_debug_file(matches@),
{
    match matches.value_of(OPT_DEBUG_FILE) {
        Some(s) => unless_blank(s, str_trim(s)),
        None => None,
    }
}

/// The views of new values for an argument, where any came.
pub open spec fn opt_vals_view(vals: Option<Vec<IfArgVal>>) -> Option<
    Seq<IfArgValView>,
> {
    match vals {
        Some(v) => Some(vals_view(v@)),
        None => None,
    }
}

/// A trait for Extcap callbacks.
pub trait ExtcapListener {
    /// Log initialization.
    fn init_log(&mut self, _extcap: &Extcap, _debug: bool, _debug_file: Option<&str>) {
    }

    /// Interfaces update if it depends on passed options.
    fn update_interfaces(&mut self, _extcap: &mut Extcap) {
    }

    /// Interface config reload required for some argument: the new values
    /// for it, or `None` for no change. A listener that does not answer
    /// for itself has no new values.
    fn reload_option(&mut self, _extcap: &Extcap, _ifc: &IFace, _arg: &IfArg) -> (vals: Option<
        Vec<IfArgVal>,
    >)
        default_ensures
            vals is None,
    {
        None
    }
}

/// How the steps before the capture ended, as plain values.
pub enum OutcomeView {
    /// The step is done; the text is what it has to say on standard output.
    Finish(Seq<char>),
    /// The capture is to start on the interface at a place in the list.
    Capture { ifidx: int },
}

/// How the steps before the capture ended.
#[derive(Debug)]
pub enum TillCaptureOutcome {
    /// The step is done; the text is what it has to say on standard output.
    Finish(String),
    /// The capture is to start on the interface at a place in the list.
    Capture {
        /// The place of the selected interface.
        ifidx: usize,
    },
}

impl View for TillCaptureOutcome {
    type V = OutcomeView;

    open spec fn view(&self) -> OutcomeView {
        match self {
            TillCaptureOutcome::Finish(text) => OutcomeView::Finish(text@),
            TillCaptureOutcome::Capture { ifidx } => OutcomeView::Capture { ifidx: *ifidx as int },
        }
    }
}

/// The view of the result of the steps before the capture.
pub open spec fn outcome_view(res: Result<TillCaptureOutcome, ExtcapError>) -> Result<
    OutcomeView,
    ExtcapErrorView,
> {
    match res {
        Ok(outcome) => Ok(outcome@),
        Err(err) => Err(err@),
    }
}

impl ExtcapView {
    /// The provider at the start of a run: it holds the flags that the run
    /// was given, the step they ask for, and the version of the host.
    pub open spec fn entered(self, matches: Map<Seq<char>, Option<Seq<char>>>) -> ExtcapView {
        ExtcapView {
            step: spec_derive_step(matches),
            matches: Some(matches),
            ws_version: value_of(matches, OPT_EXTCAP_VERSION@),
            ..self
        }
    }

    /// The provider after the values of one argument of one interface were
    /// asked for again: where new values came, they replace the old ones.
    pub open spec fn reloaded(
        self,
        ifidx: int,
        aidx: int,
        vals: Option<Seq<IfArgValView>>,
    ) -> ExtcapView {
        match vals {
            Some(v) => {
                let ifc = self.interfaces[ifidx];
                ExtcapView {
                    interfaces: self.interfaces.update(
                        ifidx,
                        IFaceView { args: ifc.args.update(aidx, ifc.args[aidx].with_vals(v)), ..ifc },
                    ),
                    ..self
                }
            },
            None => self,
        }
    }

    /// The place of the interface that the flags of the run select, for a
    /// provider that is in a run, if they select a registered one.
    pub open spec fn selected(self) -> Option<int> {
        match value_of(self.matches->0, OPT_EXTCAP_INTERFACE@) {
            Some(name) => self.interface_index(name),
            None => None,
        }
    }

    /// The argument whose values the run asks for again, as the place of
    /// its interface and its own place there: the step is the one for the
    /// configuration, the selected interface is registered, and the flag
    /// for reloading names one of its arguments.
    pub open spec fn reload_target(self) -> Option<(int, int)> {
        let named = value_of(self.matches->0, OPT_EXTCAP_RELOAD_OPTION@);
        match (self.step, self.selected(), named) {
            (ExtcapStep::ConfigIface { .. }, Some(ifidx), Some(arg)) => {
                match self.interfaces[ifidx].arg_index(arg) {
                    Some(aidx) => Some((ifidx, aidx)),
                    None => None,
                }
            },
            _ => None,
        }
    }

    /// What carrying out the step may change: the values of the argument
    /// that the run asks for again, where new ones came, and nothing else.
    pub open spec fn dispatched(self, after: ExtcapView) -> bool {
        match self.reload_target() {
            Some((ifidx, aidx)) => exists|vals: Option<Seq<IfArgValView>>|
                after == self.reloaded(ifidx, aidx, vals),
            None => after == self,
        }
    }

    /// What the step for the configuration of an interface has to say: for
    /// a named argument its lines alone, or nothing if the interface has no
    /// such argument; else the lines of all the arguments.
    pub open spec fn config_text(self, ifidx: int) -> Seq<char> {
        let ifc = self.interfaces[ifidx];
        match value_of(self.matches->0, OPT_EXTCAP_RELOAD_OPTION@) {
            Some(arg) => match ifc.arg_index(arg) {
                Some(aidx) => ifc.args[aidx].text(),
                None => Seq::empty(),
            },
            None => args_text(ifc.args),
        }
    }

    /// How the steps before the capture end, for a provider that is in a
    /// run. The query for interfaces needs no interface; every other step
    /// fails without a selected interface, and with one that is not
    /// registered; and so does a run whose flags ask for no step.
    pub open spec fn outcome(self) -> Result<OutcomeView, ExtcapErrorView> {
        if self.step == ExtcapStep::QueryIfaces {
            Ok(OutcomeView::Finish(self.listing()))
        } else {
            match value_of(self.matches->0, OPT_EXTCAP_INTERFACE@) {
                None => Err(ExtcapErrorView::missing_interface()),
                Some(name) => match self.interface_index(name) {
                    None => Err(ExtcapErrorView::invalid_interface(name)),
                    Some(ifidx) => match self.step {
                        ExtcapStep::QueryDlts => Ok(
                            OutcomeView::Finish(self.interfaces[ifidx].dlt_line()),
                        ),
                        ExtcapStep::ConfigIface { .. } => Ok(
                            OutcomeView::Finish(self.config_text(ifidx)),
                        ),
                        ExtcapStep::Capture { .. } => Ok(OutcomeView::Capture { ifidx }),
                        _ => Err(ExtcapErrorView::unknown_step()),
                    },
                },
            }
        }
    }
}

/// Every step but the query for interfaces fails for want of an interface
/// when the flags of the run select none.
pub proof fn lemma_missing_interface(ex: ExtcapView)
    requires
        ex.matches is Some,
        ex.step == spec_derive_step(ex.matches->0),
        !present(ex.matches->0, OPT_EXTCAP_INTERFACES@),
        value_of(ex.matches->0, OPT_EXTCAP_INTERFACE@) is None,
    ensures
        ex.outcome() == Err::<OutcomeView, ExtcapErrorView>(ExtcapErrorView::missing_interface()),
{
}

/// Every step but the query for interfaces fails when the flags of the run
/// select an interface that is not registered.
pub proof fn lemma_invalid_interface(ex: ExtcapView, name: Seq<char>)
    requires
        ex.matches is Some,
        ex.step == spec_derive_step(ex.matches->0),
        !present(ex.matches->0, OPT_EXTCAP_INTERFACES@),
        value_of(ex.matches->0, OPT_EXTCAP_INTERFACE@) == Some(name),
        !ex.has_interface(name),
    ensures
        ex.outcome() == Err::<OutcomeView, ExtcapErrorView>(
            ExtcapErrorView::invalid_interface(name),
        ),
{
}

/// The query for interfaces needs no interface: it always ends with the
/// listing.
pub proof fn lemma_query_interfaces_lists(ex: ExtcapView)
    requires
        ex.matches is Some,
        ex.step == spec_derive_step(ex.matches->0),
        present(ex.matches->0, OPT_EXTCAP_INTERFACES@),
    ensures
        ex.outcome() == Ok::<OutcomeView, ExtcapErrorView>(OutcomeView::Finish(ex.listing())),
{
}

/// A run for the capture ends with the place of the interface that its
/// flags select, whether or not control pipes are named.
pub proof fn lemma_capture_outcome(ex: ExtcapView, ifidx: int)
    requires
        ex.matches is Some,
        ex.step is Capture,
        ex.selected() == Some(ifidx),
    ensures
        ex.outcome() == Ok::<OutcomeView, ExtcapErrorView>(OutcomeView::Capture { ifidx }),
{
}

/// A run whose flags select a registered interface and ask for no step
/// fails for want of a step.
pub proof fn lemma_unknown_step(ex: ExtcapView)
    requires
        ex.matches is Some,
        ex.step == ExtcapStep::NotDetermined,
        ex.selected() is Some,
    ensures
        ex.outcome() == Err::<OutcomeView, ExtcapErrorView>(ExtcapErrorView::unknown_step()),
{
}

/// Carrying out a step keeps the step, the flags of the run, the declared
/// flags, the controls, and the name and the place of every interface and
/// of every argument; for every step but the reload it keeps everything.
pub proof fn lemma_dispatched_keeps(before: ExtcapView, after: ExtcapView)
    requires
        before.dispatched(after),
    ensures
        after.step == before.step,
        after.matches == before.matches,
        after.ws_version == before.ws_version,
        after.flags == before.flags,
        after.controls == before.controls,
        after.version == before.version,
        after.helppage == before.helppage,
        before.reload_target() is None ==> after == before,
{
}

/// Registering an interface is idempotent per name: after an interface of
/// a name was added, adding another of that name changes nothing.
pub proof fn lemma_with_interface_same_name(ex: ExtcapView, first: IFaceView, second: IFaceView)
    requires
        first.interface == second.interface,
    ensures
        ex.with_interface(first).has_interface(first.interface),
        ex.with_interface(first).with_interface(second) == ex.with_interface(first),
{
    let after = ex.with_interface(first);
    if !ex.has_interface(first.interface) {
        assert(after.interfaces[ex.interfaces.len() as int].interface == first.interface);
    }
}

impl<'a> Extcap<'a> {
    /// Starts a run: takes the flags that the run was given, derives the
    /// step and notes the version of the host.
    pub fn enter(&mut self, matches: Matches)
        ensures
            final(self)@ == old(self)@.entered(matches@),
            final(self)@.wf(),
    {
        proof {
            use_type_invariant(&*self);
        }
        self.step = derive_step(&matches);
        self.ws_version = match matches.value_of(OPT_EXTCAP_VERSION) {
            Some(v) => Some(v.to_owned()),
            None => None,
        };
        self.matches = Some(matches);
    }

    /// Puts new values in the place of the values of one argument of one
    /// interface, where new values came, and says the lines of the
    /// argument as it then is.
    pub fn apply_reload(
        &mut self,
        ifidx: usize,
        aidx: usize,
        vals: Option<Vec<IfArgVal>>,
    ) -> (text: String)
        requires
            ifidx < old(self)@.interfaces.len(),
            aidx < old(self)@.interfaces[ifidx as int].args.len(),
        ensures
            final(self)@ == old(self)@.reloaded(ifidx as int, aidx as int, opt_vals_view(vals)),
            final(self)@.wf(),
            text@ == final(self)@.interfaces[ifidx as int].args[aidx as int].text(),
    {
        proof {
            use_type_invariant(&*self);
        }
        match vals {
            Some(nargs) => {
                let mut ifaces: Vec<IFace<'a>> = Vec::new();
                std::mem::swap(&mut ifaces, &mut self.interfaces);
                ifaces[ifidx].reload_arg(aidx, nargs);
                proof {
                    let before = old(self)@.interfaces;
                    let after = ifaces_view(ifaces@);
                    assert(after =~= old(self)@.reloaded(
                        ifidx as int,
                        aidx as int,
                        Some(vals_view(nargs@)),
                    ).interfaces);
                    assert forall|k: int| 0 <= k < after.len() implies (#[trigger] after[k]).wf() by {
                        assert(before[k].wf());
                    }
                    assert forall|k: int, l: int| 0 <= k < l < after.len() implies (
                    #[trigger] after[k]).interface != (#[trigger] after[l]).interface by {
                        assert(before[k].interface == after[k].interface);
                        assert(before[l].interface == after[l].interface);
                    }
                }
                self.interfaces = ifaces;
            },
            None => {},
        }
        self.interfaces[ifidx].get_arg(aidx).render_arg()
    }

    /// Asks the listener for new values of an argument of an interface,
    /// puts them in the place of the old ones where any came, and says the
    /// lines of the argument; says nothing where the interface has no
    /// argument of that name.
    pub fn reload_option<T: ExtcapListener>(
        &mut self,
        listener: &mut T,
        ifidx: usize,
        arg: &str,
    ) -> (text: String)
        requires
            ifidx < old(self)@.interfaces.len(),
        ensures
            final(self)@.wf(),
            match old(self)@.interfaces[ifidx as int].arg_index(arg@) {
                Some(aidx) => (exists|vals: Option<Seq<IfArgValView>>|
                    final(self)@ == old(self)@.reloaded(ifidx as int, aidx, vals)) && text@
                    == final(self)@.interfaces[ifidx as int].args[aidx].text(),
                None => final(self)@ == old(self)@ && text@ == Seq::<char>::empty(),
            },
    {
        proof {
            use_type_invariant(&*self);
        }
        let aidx = match self.interfaces[ifidx].get_arg_idx(arg) {
            Some(aidx) => aidx,
            None => {
                return String::new();
            },
        };
        let nargs = {
            let ifc = &self.interfaces[ifidx];
            listener.reload_option(self, ifc, ifc.get_arg(aidx))
        };
        let ghost given = opt_vals_view(nargs);
        let text = self.apply_reload(ifidx, aidx, nargs);
        assert(self@ == old(self)@.reloaded(ifidx as int, aidx as int, given));
        text
    }

    /// Runs the steps before the capture. The listener is told how to log
    /// and may then change the registries; what the step has to say is
    /// handed back, or the place of the interface to capture on, or the
    /// error that ends the run.
    pub fn run_till_capture<T: ExtcapListener>(
        &mut self,
        listener: &mut T,
        matches: Matches,
    ) -> (res: Result<TillCaptureOutcome, ExtcapError>)
        ensures
            final(self)@.step == spec_derive_step(matches@),
            final(self)@.matches == Some(matches@),
            final(self)@.ws_version == value_of(matches@, OPT_EXTCAP_VERSION@),
            final(self)@.wf(),
            exists|listened: ExtcapView|
                listened.wf() && listened == listened.entered(matches@) && listened.dispatched(
                    final(self)@,
                ),
            outcome_view(res) == final(self)@.outcome(),
    {
        let given = matches.clone();
        self.enter(matches);
        let debug = self.get_matches().is_present(OPT_DEBUG);
        listener.init_log(self, debug, debug_file(self.get_matches()));
        listener.update_interfaces(self);
        // The listener had the provider to itself: the flags of the run are
        // put back, so that the step is carried out on what the run was given.
        self.enter(given);
        let ghost listened = self@;
        let res = self.dispatch(listener);
        proof {
            assert(listened == listened.entered(matches@));
            assert(listened.dispatched(self@));
        }
        res
    }

    /// Carries out the step of a provider that is in a run. Nothing of the
    /// provider changes but the values of the argument that the run asks
    /// for again, where the listener has new ones; what the step has to say
    /// is handed back, or the place of the interface to capture on, or the
    /// error that ends the run.
    pub fn dispatch<T: ExtcapListener>(&mut self, listener: &mut T) -> (res: Result<
        TillCaptureOutcome,
        ExtcapError,
    >)
        requires
            old(self)@.matches is Some,
        ensures
            final(self)@.wf(),
            old(self)@.dispatched(final(self)@),
            outcome_view(res) == final(self)@.outcome(),
    {
        proof {
            use_type_invariant(&*self);
        }
        let step = self.step;
        if let ExtcapStep::QueryIfaces = step {
            return Ok(TillCaptureOutcome::Finish(self.render_listing()));
        }
        let ifidx = match self.get_matches().value_of(OPT_EXTCAP_INTERFACE) {
            None => {
                return Err(ExtcapError::missing_interface());
            },
            Some(ifnm) => match self.get_if_idx(ifnm) {
                None => {
                    return Err(ExtcapError::invalid_interface(ifnm));
                },
                Some(ifidx) => ifidx,
            },
        };
        match step {
            ExtcapStep::QueryDlts => Ok(
                TillCaptureOutcome::Finish(self.get_if(ifidx).render_dlt_list()),
            ),
            ExtcapStep::ConfigIface { .. } => {
                let reload = match self.get_matches().value_of(OPT_EXTCAP_RELOAD_OPTION) {
                    Some(arg) => Some(arg.to_owned()),
                    None => None,
                };
                match reload {
                    Some(arg) => {
                        let text = self.reload_option(listener, ifidx, arg.as_str());
                        proof {
                            lemma_reload_keeps_names(old(self)@, self@, ifidx as int, arg@);
                        }
                        Ok(TillCaptureOutcome::Finish(text))
                    },
                    None => Ok(TillCaptureOutcome::Finish(self.get_if(ifidx).render_arg_list())),
                }
            },
            ExtcapStep::Capture { .. } => Ok(TillCaptureOutcome::Capture { ifidx }),
            _ => Err(ExtcapError::unknown_step()),
        }
    }
}

/// New values for an argument change no name: the interfaces and the
/// arguments are found at the same places as before.
proof fn lemma_reload_keeps_names(before: ExtcapView, after: ExtcapView, ifidx: int, arg: Seq<char>)
    requires
        before.wf(),
        0 <= ifidx < before.interfaces.len(),
        match before.interfaces[ifidx].arg_index(arg) {
            Some(aidx) => exists|vals: Option<Seq<IfArgValView>>|
                after == before.reloaded(ifidx, aidx, vals),
            None => after == before,
        },
    ensures
        forall|name: Seq<char>| after.interface_index(name) == before.interface_index(name),
        after.interfaces[ifidx].arg_index(arg) == before.interfaces[ifidx].arg_index(arg),
        after.interfaces.len() == before.interfaces.len(),
{
    match before.interfaces[ifidx].arg_index(arg) {
        Some(aidx) => {
            let vals = choose|vals: Option<Seq<IfArgValView>>|
                after == before.reloaded(ifidx, aidx, vals);
            let bi = before.interfaces[ifidx];
            let ai = after.interfaces[ifidx];
            assert(0 <= aidx < bi.args.len());
            assert forall|k: int| 0 <= k < before.interfaces.len() implies (
            #[trigger] after.interfaces[k]).interface == before.interfaces[k].interface by {}
            assert forall|name: Seq<char>| after.has_interface(name) == before.has_interface(
                name,
            ) by {
                if before.has_interface(name) {
                    let k = choose|k: int|
                        0 <= k < before.interfaces.len() && (#[trigger] before.interfaces[k]).interface
                            == name;
                    assert(after.interfaces[k].interface == name);
                }
                if after.has_interface(name) {
                    let k = choose|k: int|
                        0 <= k < after.interfaces.len() && (#[trigger] after.interfaces[k]).interface
                            == name;
                    assert(before.interfaces[k].interface == name);
                }
            }
            assert forall|name: Seq<char>| after.interface_index(name) == before.interface_index(
                name,
            ) by {
                if before.has_interface(name) {
                    let kb = before.interface_index(name)->0;
                    let ka = after.interface_index(name)->0;
                    assert(before.interfaces[kb].interface == name);
                    assert(after.interfaces[ka].interface == name);
                    assert(before.interfaces[ka].interface == name);
                    if ka < kb {
                        assert(before.interfaces[ka].interface != before.interfaces[kb].interface);
                    }
                    if kb < ka {
                        assert(before.interfaces[kb].interface != before.interfaces[ka].interface);
                    }
                }
            }
            assert forall|k: int| 0 <= k < bi.args.len() implies (#[trigger] ai.args[k]).name
                == bi.args[k].name by {}
            assert(ai.has_arg(arg)) by {
                assert(ai.args[aidx].name == arg);
            }
            let ka = ai.arg_index(arg)->0;
            assert(bi.args[ka].name == arg);
            assert(bi.wf());
            if ka < aidx {
                assert(bi.args[ka].name != bi.args[aidx].name);
            }
            if aidx < ka {
                assert(bi.args[aidx].name != bi.args[ka].name);
            }
        },
        None => {},
    }
}

/// Extcap specific result.
pub type ExtcapResult<T> = Result<T, ExtcapError>;

/// What a capture is to work with, as plain values.
pub struct CapturePlanView {
    /// The sink of the capture: a path, or `-` for standard output.
    pub fifo: Seq<char>,
    /// The capture filter.
    pub capture_filter: Option<Seq<char>>,
    /// The paths of the pipes for control messages from and to the host,
    /// where both were given.
    pub ctrl_pipes: Option<(Seq<char>, Seq<char>)>,
}

impl CapturePlanView {
    /// Whether the capture goes to standard output.
    pub open spec fn to_stdout(self) -> bool {
        self.fifo == "-"@
    }
}

/// What a capture is to work with.
#[derive(Debug)]
pub struct CapturePlan {
    /// The sink of the capture: a path, or `-` for standard output.
    pub fifo: String,
    /// The capture filter.
    pub capture_filter: Option<String>,
    /// The paths of the pipes for control messages from and to the host,
    /// where both were given.
    pub ctrl_pipes: Option<(String, String)>,
}

impl View for CapturePlan {
    type V = CapturePlanView;

    open spec fn view(&self) -> CapturePlanView {
        CapturePlanView {
            fifo: self.fifo@,
            capture_filter: opt_view(self.capture_filter),
            ctrl_pipes: match self.ctrl_pipes {
                Some((i, o)) => Some((i@, o@)),
                None => None,
            },
        }
    }
}

impl CapturePlan {
    /// Whether the capture goes to standard output.
    pub fn to_stdout(&self) -> (stdout: bool)
        ensures
            stdout == self@.to_stdout(),
    {
        str_eq(self.fifo.as_str(), "-")
    }
}

/// The view of the result of planning a capture.
pub open spec fn plan_view(res: Result<CapturePlan, ExtcapError>) -> Result<
    CapturePlanView,
    ExtcapErrorView,
> {
    match res {
        Ok(plan) => Ok(plan@),
        Err(err) => Err(err@),
    }
}

/// What a capture is to work with, going by the flags of a run: the sink,
/// without which there is no capture, the filter, and the control pipes
/// where both were named.
pub open spec fn spec_capture_plan(matches: Map<Seq<char>, Option<Seq<char>>>) -> Result<
    CapturePlanView,
    ExtcapErrorView,
> {
    match value_of(matches, OPT_FIFO@) {
        None => Err(ExtcapErrorView::missing_fifo()),
        Some(fifo) => Ok(
            CapturePlanView {
                fifo,
                capture_filter: value_of(matches, OPT_EXTCAP_CAPTURE_FILTER@),
                ctrl_pipes: match (
                    value_of(matches, OPT_EXTCAP_CONTROL_IN@),
                    value_of(matches, OPT_EXTCAP_CONTROL_OUT@),
                ) {
                    (Some(ctrl_in), Some(ctrl_out)) => Some((ctrl_in, ctrl_out)),
                    _ => None,
                },
            },
        ),
    }
}

/// What a capture is to work with, going by the flags of a run.
pub fn capture_plan(matches: &Matches) -> (res: Result<CapturePlan, ExtcapError>)
    ensures
        plan_view(res) == spec_capture_plan(matches@),
{
    let fifo = match matches.value_of(OPT_FIFO) {
        Some(fifo) => fifo.to_owned(),
        None => {
            return Err(ExtcapError::missing_fifo());
        },
    };
    let capture_filter = match matches.value_of(OPT_EXTCAP_CAPTURE_FILTER) {
        Some(filter) => Some(filter.to_owned()),
        None => None,
    };
    let control_in = matches.value_of(OPT_EXTCAP_CONTROL_IN);
    let control_out = matches.value_of(OPT_EXTCAP_CONTROL_OUT);
    let ctrl_pipes = match (control_in, control_out) {
        (Some(ctrl_in), Some(ctrl_out)) => Some((ctrl_in.to_owned(), ctrl_out.to_owned())),
        _ => None,
    };
    Ok(CapturePlan { fifo, capture_filter, ctrl_pipes })
}

} // verus!
