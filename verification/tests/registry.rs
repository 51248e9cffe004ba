use extcap::{
    ButtonRole, Control, ControlType, ControlVal, ExtcapError, ExtcapErrorKind, IFace, IfArg,
    IfArgType, IfArgVal,
};

#[test]
fn unregistered_argument_renders_with_the_unset_ordinal() {
    let arg = IfArg::new_integer("port");
    assert_eq!(
        arg.render_arg(),
        format!("arg {{number={}}}{{call=--port}}{{display=port}}{{type=integer}}\n", usize::MAX)
    );
}

#[test]
fn argument_line_has_every_field_in_order() {
    let mut ifc = IFace::new("if1");
    ifc.add_arg(
        IfArg::new_fileselect("file")
            .display("File")
            .default(&"a.txt")
            .range(&"r")
            .validation(&"^a")
            .mustexist(true)
            .reload(false)
            .placeholder("p")
            .tooltip("t")
            .group("g"),
    );
    assert_eq!(
        ifc.render_arg_list(),
        "arg {number=0}{call=--file}{display=File}{type=fileselect}{default=a.txt}{range=r}\
         {validation=^a}{mustexist=true}{reload=false}{placeholder=p}{tooltip=t}{group=g}\n"
    );
}

#[test]
fn argument_default_takes_any_displayable_value() {
    let mut ifc = IFace::new("if1");
    ifc.add_arg(IfArg::new_unsigned("port").default(&5555u16).range(&"1,65535"));
    assert_eq!(
        ifc.render_arg_list(),
        "arg {number=0}{call=--port}{display=port}{type=unsigned}{default=5555}{range=1,65535}\n"
    );
}

#[test]
fn every_argument_type_has_its_word() {
    let cases: Vec<(IfArg, IfArgType, &str)> = vec![
        (IfArg::new_integer("a"), IfArgType::Integer, "integer"),
        (IfArg::new_unsigned("a"), IfArgType::Unsigned, "unsigned"),
        (IfArg::new_long("a"), IfArgType::Long, "long"),
        (IfArg::new_double("a"), IfArgType::Double, "double"),
        (IfArg::new_string("a"), IfArgType::String, "string"),
        (IfArg::new_password("a"), IfArgType::Password, "password"),
        (IfArg::new_boolean("a"), IfArgType::Boolean, "boolean"),
        (IfArg::new_boolflag("a"), IfArgType::Boolflag, "boolflag"),
        (IfArg::new_fileselect("a"), IfArgType::Fileselect, "fileselect"),
        (IfArg::new_selector("a"), IfArgType::Selector, "selector"),
        (IfArg::new_radio("a"), IfArgType::Radio, "radio"),
        (IfArg::new_multicheck("a"), IfArgType::Multicheck, "multicheck"),
        (IfArg::new_timestamp("a"), IfArgType::Timestamp, "timestamp"),
    ];
    for (arg, atype, word) in cases {
        assert_eq!(*arg.get_type(), atype);
        assert_eq!(atype.type_str(), word);
        assert!(arg.render_arg().contains(&format!("{{type={}}}", word)));
    }
    assert_eq!(IfArgType::default(), IfArgType::Unset);
    assert_eq!(IfArgType::Unset.type_str(), "none");
}

#[test]
fn argument_getters_return_what_was_set() {
    let arg = IfArg::new_boolflag("verbose").display("Verbose").reload(true);
    assert_eq!(arg.get_name(), "verbose");
    assert_eq!(arg.get_display(), Some("Verbose"));
    assert_eq!(*arg.get_type(), IfArgType::Boolflag);
    assert!(arg.has_reload());
    assert_eq!(arg.get_number(), usize::MAX);
    assert!(!IfArg::new_string("x").has_reload());
    assert!(!IfArg::new_string("x").reload(false).has_reload());
    assert_eq!(IfArg::new_string("x").get_display(), None);
}

#[test]
fn values_follow_their_argument_and_refer_to_its_ordinal() {
    let mut ifc = IFace::new("if1");
    ifc.add_arg(IfArg::new_string("first"));
    let mut sel = IfArg::new_selector("sel").display("Select");
    sel.add_val(IfArgVal::new("a").display("A").default(true));
    sel.add_val(IfArgVal::new("b"));
    sel.add_val(IfArgVal::new(3).default(false));
    ifc.add_arg(sel);
    assert_eq!(
        ifc.render_arg_list(),
        "arg {number=0}{call=--first}{display=first}{type=string}\n\
         arg {number=1}{call=--sel}{display=Select}{type=selector}\n\
         value {arg=1}{value=a}{display=A}{default=true}\n\
         value {arg=1}{value=b}{display=b}\n\
         value {arg=1}{value=3}{display=3}{default=false}\n"
    );
}

#[test]
fn unowned_value_renders_with_the_unset_ordinal() {
    assert_eq!(
        IfArgVal::new("v").render_value(),
        format!("value {{arg={}}}{{value=v}}{{display=v}}\n", usize::MAX)
    );
}

#[test]
fn reload_option_replaces_the_values_under_the_same_owner() {
    let mut ifc = IFace::new("if1");
    let mut sel = IfArg::new_selector("sel");
    sel.add_val(IfArgVal::new("old"));
    ifc.add_arg(IfArg::new_string("zero"));
    ifc.add_arg(sel);
    ifc.reload_arg(1, vec![IfArgVal::new("n1"), IfArgVal::new("n2").display("N2")]);
    assert_eq!(
        ifc.get_arg(1).render_arg(),
        "arg {number=1}{call=--sel}{display=sel}{type=selector}\n\
         value {arg=1}{value=n1}{display=n1}\n\
         value {arg=1}{value=n2}{display=N2}\n"
    );
    let mut arg = IfArg::new_radio("r");
    arg.add_val(IfArgVal::new("x"));
    arg.reload_option(Vec::new());
    assert_eq!(
        arg.render_arg(),
        format!("arg {{number={}}}{{call=--r}}{{display=r}}{{type=radio}}\n", usize::MAX)
    );
}

#[test]
fn cloned_argument_renders_the_same() {
    let mut sel = IfArg::new_selector("sel").default(&"a").group("G");
    sel.add_val(IfArgVal::new("a").display("A"));
    let copy = sel.clone();
    assert_eq!(copy.render_arg(), sel.render_arg());
    let val = IfArgVal::new("v").display("V").default(true);
    assert_eq!(val.clone().render_value(), val.render_value());
}

#[test]
fn registering_port_twice_keeps_one_argument_with_ordinal_zero() {
    let mut ifc = IFace::new("if1");
    ifc.add_arg(IfArg::new_integer("port").display("First"));
    ifc.add_arg(IfArg::new_unsigned("port").display("Second"));
    assert_eq!(ifc.get_args().len(), 1);
    assert_eq!(ifc.get_arg_idx("port"), Some(0));
    assert_eq!(
        ifc.render_arg_list(),
        "arg {number=0}{call=--port}{display=First}{type=integer}\n"
    );
}

#[test]
fn arguments_are_found_by_name() {
    let mut ifc = IFace::new("if1");
    ifc.add_arg(IfArg::new_integer("a"));
    ifc.add_arg(IfArg::new_integer("b").reload(true));
    assert_eq!(ifc.get_arg_idx("a"), Some(0));
    assert_eq!(ifc.get_arg_idx("b"), Some(1));
    assert_eq!(ifc.get_arg_idx("c"), None);
    assert_eq!(ifc.get_arg(1).get_name(), "b");
    assert_eq!(ifc.get_arg(1).get_number(), 1);
    assert!(ifc.has_reloadable_arg());
    assert!(!IFace::new("x").has_reloadable_arg());
}

#[test]
fn interface_lines() {
    let plain = IFace::new("if1");
    assert_eq!(plain.get_interface(), "if1");
    assert_eq!(plain.render_iface(), "interface {value=if1}\n");
    assert_eq!(plain.render_dlt_list(), "dlt {number=147}{name=if1}\n");
    assert_eq!(plain.render_arg_list(), "");
    let full = IFace::new("if2")
        .description("Second")
        .dlt(150)
        .dltname("USER3")
        .dltdescription("User 3");
    assert_eq!(full.render_iface(), "interface {value=if2}{display=Second}\n");
    assert_eq!(full.render_dlt_list(), "dlt {number=150}{name=USER3}{display=User 3}\n");
    assert_eq!(
        IFace::new("z").dlt(u32::MAX).render_dlt_list(),
        "dlt {number=4294967295}{name=z}\n"
    );
    assert_eq!(IFace::new("z").dlt(0).render_dlt_list(), "dlt {number=0}{name=z}\n");
}

#[test]
fn config_debug_adds_its_two_arguments_once() {
    let mut ifc = IFace::new("if1");
    assert!(!ifc.has_debug());
    ifc.add_arg(IfArg::new_integer("port"));
    ifc.config_debug();
    ifc.config_debug();
    assert!(ifc.has_debug());
    assert_eq!(
        ifc.render_arg_list(),
        "arg {number=0}{call=--port}{display=port}{type=integer}\n\
         arg {number=1}{call=--debug}{display=Run in debug mode}{type=boolflag}{default=false}\
         {tooltip=Print debug messages}{group=Debug}\n\
         arg {number=2}{call=--debug-file}{display=Use a file for debug}{type=string}\
         {tooltip=Set a file where the debug messages are written}{group=Debug}\n"
    );
}

#[test]
fn control_lines() {
    let mut sel = Control::new_selector()
        .display("Select 2")
        .default(&"V1")
        .range(&"r")
        .validation(&"v")
        .tooltip("t")
        .placeholder("p");
    sel.add_val(ControlVal::new("V1"));
    sel.add_val(ControlVal::new("V2").display("Val2").default(true));
    assert_eq!(
        sel.render_control(),
        format!(
            "control {{number={n}}}{{type=selector}}{{display=Select 2}}{{default=V1}}{{range=r}}\
             {{validation=v}}{{tooltip=t}}{{placeholder=p}}\n\
             value {{control={n}}}{{value=V1}}{{display=V1}}\n\
             value {{control={n}}}{{value=V2}}{{display=Val2}}{{default=true}}\n",
            n = usize::MAX
        )
    );
    assert_eq!(
        Control::new_boolean().render_control(),
        format!("control {{number={}}}{{type=boolean}}{{display=boolean}}\n", usize::MAX)
    );
    assert_eq!(
        Control::new_string().display("S").render_control(),
        format!("control {{number={}}}{{type=string}}{{display=S}}\n", usize::MAX)
    );
    assert_eq!(
        ControlVal::new(7).display("seven").render_value(),
        format!("value {{control={}}}{{value=7}}{{display=seven}}\n", usize::MAX)
    );
}

#[test]
fn every_button_role_has_its_word() {
    for (role, word) in [
        (ButtonRole::Control, "control"),
        (ButtonRole::Logger, "logger"),
        (ButtonRole::Help, "help"),
        (ButtonRole::Restore, "restore"),
    ] {
        assert_eq!(role.role_str(), word);
        assert_eq!(
            Control::new_button(role).display("B").render_control(),
            format!(
                "control {{number={}}}{{type=button}}{{role={}}}{{display=B}}\n",
                usize::MAX,
                word
            )
        );
    }
    assert_eq!(ControlType::default(), ControlType::Unset);
    assert_eq!(ControlType::Unset.type_str(), "none");
    assert_eq!(ControlType::Button(ButtonRole::Help).type_str(), "button");
    assert_eq!(ControlType::Boolean.type_str(), "boolean");
    assert_eq!(ControlType::Selector.type_str(), "selector");
    assert_eq!(ControlType::String.type_str(), "string");
}

#[test]
fn errors_have_their_kinds_and_texts() {
    let e = ExtcapError::missing_interface();
    assert_eq!(e.kind(), ExtcapErrorKind::MissingInterface);
    assert_eq!(e.to_text(), "MissingInterface:Missing interface");
    let e = ExtcapError::invalid_interface("bogus");
    assert_eq!(e.kind(), ExtcapErrorKind::InvalidInterface);
    assert_eq!(e.message(), "Invalid interface: bogus");
    assert_eq!(e.to_text(), "InvalidInterface:Invalid interface: bogus");
    let e = ExtcapError::unknown_step();
    assert_eq!(e.kind(), ExtcapErrorKind::UnknownStepRequested);
    assert_eq!(e.to_text(), "UnknownStepRequested:Unknown step requested");
    let e = ExtcapError::user_error(42);
    assert_eq!(e.kind(), ExtcapErrorKind::UserError);
    assert_eq!(e.to_text(), "UserError:42");
    let e = ExtcapError::missing_fifo();
    assert_eq!(e.kind(), ExtcapErrorKind::Clap);
    assert_eq!(e.to_text(), "Clap:Missing fifo");
    assert_eq!(ExtcapError::new(ExtcapErrorKind::Io, "gone").to_text(), "Io:gone");
    assert_eq!(ExtcapError::new(ExtcapErrorKind::Pcap, "bad").to_text(), "Pcap:bad");
}

#[test]
fn outside_errors_become_provider_errors() {
    let io = std::io::Error::new(std::io::ErrorKind::NotFound, "no such pipe");
    let e = ExtcapError::from(io);
    assert_eq!(e.kind(), ExtcapErrorKind::Io);
    assert_eq!(e.message(), "no such pipe");
    assert_eq!(e.to_text(), "Io:no such pipe");
    let pcap = pcap_file::PcapError::IncompleteBuffer(3);
    let e = ExtcapError::from(pcap);
    assert_eq!(e.kind(), ExtcapErrorKind::Pcap);
    assert_eq!(e.message(), "Need at least 3 more bytes");
    let clap = clap::Error::with_description("bad flag", clap::ErrorKind::UnknownArgument);
    let e = ExtcapError::from(clap);
    assert_eq!(e.kind(), ExtcapErrorKind::Clap);
    assert!(e.message().starts_with("UnknownArgument: "));
    assert!(e.message().contains("bad flag"));
}

#[test]
fn question_mark_converts_an_io_error() {
    fn failing() -> Result<(), ExtcapError> {
        Err(std::io::Error::new(std::io::ErrorKind::Other, "boom"))?;
        Ok(())
    }
    assert_eq!(failing().unwrap_err().to_text(), "Io:boom");
}

#[test]
fn default_values_are_empty() {
    assert_eq!(IFace::default().render_iface(), "interface {value=}\n");
    assert_eq!(IFace::default().render_arg_list(), "");
    assert_eq!(
        <IfArg as Default>::default().render_arg(),
        "arg {number=0}{call=--}{display=}{type=none}\n"
    );
    assert_eq!(
        <Control as Default>::default().render_control(),
        "control {number=0}{type=none}{display=none}\n"
    );
    assert_eq!(
        <IfArgVal as Default>::default().render_value(),
        "value {arg=0}{value=}{display=}\n"
    );
    assert_eq!(
        <ControlVal as Default>::default().render_value(),
        "value {control=0}{value=}{display=}\n"
    );
}

#[test]
fn values_made_from_strings_hold_them() {
    assert_eq!(
        IfArgVal::with_value("a b").render_value(),
        format!("value {{arg={}}}{{value=a b}}{{display=a b}}\n", usize::MAX)
    );
    assert_eq!(
        ControlVal::with_value("c").display("C").render_value(),
        format!("value {{control={}}}{{value=c}}{{display=C}}\n", usize::MAX)
    );
    let e = ExtcapError::user_message("no device");
    assert_eq!(e.kind(), ExtcapErrorKind::UserError);
    assert_eq!(e.to_text(), "UserError:no device");
    assert_eq!(ExtcapError::user_error("no device").to_text(), e.to_text());
}

#[test]
fn every_control_line_has_a_display_field() {
    let mut ex = extcap::Extcap::new("x");
    ex.add_control(Control::new_boolean());
    ex.add_control(Control::new_button(ButtonRole::Help));
    ex.add_control(Control::new_selector().tooltip("t"));
    ex.add_control(Control::new_string().display("Shown"));
    assert_eq!(
        ex.render_control_list(),
        "control {number=0}{type=boolean}{display=boolean}\n\
         control {number=1}{type=button}{role=help}{display=button}\n\
         control {number=2}{type=selector}{display=selector}{tooltip=t}\n\
         control {number=3}{type=string}{display=Shown}\n"
    );
}
