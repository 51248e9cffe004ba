use extcap::{capture_plan, debug_file, derive_step};
use extcap::{
    ButtonRole, Control, ControlVal, Extcap, ExtcapErrorKind, ExtcapListener, ExtcapStep, IFace,
    IfArg, IfArgVal, Matches, TillCaptureOutcome,
};

struct Quiet;

impl ExtcapListener for Quiet {}

struct Recorder {
    log: Vec<String>,
    new_values: Option<Vec<&'static str>>,
}

impl Recorder {
    fn new(new_values: Option<Vec<&'static str>>) -> Self {
        Recorder { log: Vec::new(), new_values }
    }
}

impl ExtcapListener for Recorder {
    fn init_log(&mut self, extcap: &Extcap, debug: bool, debug_file: Option<&str>) {
        self.log.push(format!("init_log {:?} {} {:?}", extcap.get_step(), debug, debug_file));
    }

    fn update_interfaces(&mut self, extcap: &mut Extcap) {
        self.log.push(format!("update {}", extcap.get_matches().is_present("capture")));
        extcap.add_interface(IFace::new("late").description("Added late"));
    }

    fn reload_option(
        &mut self,
        _extcap: &Extcap,
        ifc: &IFace,
        arg: &IfArg,
    ) -> Option<Vec<IfArgVal>> {
        self.log.push(format!("reload {} {}", ifc.get_interface(), arg.get_name()));
        self.new_values.as_ref().map(|vals| vals.iter().map(|v| IfArgVal::new(*v)).collect())
    }
}

fn flags(given: &[(&str, Option<&str>)]) -> Matches {
    let mut m = Matches::new();
    for (name, value) in given {
        m.insert(name, *value);
    }
    m
}

fn provider<'a>() -> Extcap<'a> {
    let mut ex = Extcap::new("testdump");
    let mut if1 = IFace::new("if1").description("First");
    if1.add_arg(IfArg::new_integer("port").display("Port"));
    let mut sel = IfArg::new_selector("sel").reload(true);
    sel.add_val(IfArgVal::new("a"));
    if1.add_arg(sel);
    ex.add_interface(if1);
    ex.add_interface(IFace::new("if2").dlt(150).dltname("USER3"));
    ex
}

fn finish(res: Result<TillCaptureOutcome, extcap::ExtcapError>) -> String {
    match res {
        Ok(TillCaptureOutcome::Finish(text)) => text,
        other => panic!("not finished: {:?}", other),
    }
}

#[test]
fn matches_hold_the_last_value_given_for_a_flag() {
    let mut m = Matches::new();
    assert!(!m.is_present("fifo"));
    assert_eq!(m.value_of("fifo"), None);
    m.insert("fifo", Some("/tmp/a"));
    m.insert("capture", None);
    m.insert("fifo", Some("/tmp/b"));
    assert!(m.is_present("fifo"));
    assert!(m.is_present("capture"));
    assert_eq!(m.value_of("fifo"), Some("/tmp/b"));
    assert_eq!(m.value_of("capture"), None);
    assert!(!m.is_present("fif"));
    let copy = m.clone();
    assert_eq!(copy.value_of("fifo"), Some("/tmp/b"));
    assert!(copy.is_present("capture"));
    m.insert("fifo", None);
    assert!(m.is_present("fifo"));
    assert_eq!(m.value_of("fifo"), None);
}

#[test]
fn interfaces_flag_wins_over_every_other_step_flag() {
    let others = ["extcap-dlts", "extcap-config", "capture", "extcap-reload-option"];
    for mask in 0..16u32 {
        let mut m = Matches::new();
        for (i, name) in others.iter().enumerate() {
            if mask & (1 << i) != 0 {
                m.insert(name, None);
            }
        }
        m.insert("extcap-interfaces", None);
        assert_eq!(derive_step(&m), ExtcapStep::QueryIfaces);
    }
}

#[test]
fn step_derivation_goes_by_precedence() {
    assert_eq!(derive_step(&flags(&[])), ExtcapStep::NotDetermined);
    assert_eq!(derive_step(&flags(&[("extcap-interface", Some("x"))])), ExtcapStep::NotDetermined);
    assert_eq!(
        derive_step(&flags(&[("capture", None), ("extcap-config", None), ("extcap-dlts", None)])),
        ExtcapStep::QueryDlts
    );
    assert_eq!(
        derive_step(&flags(&[("capture", None), ("extcap-config", None)])),
        ExtcapStep::ConfigIface { reload: false }
    );
    assert_eq!(
        derive_step(&flags(&[("extcap-config", None), ("extcap-reload-option", Some("sel"))])),
        ExtcapStep::ConfigIface { reload: true }
    );
    assert_eq!(ExtcapStep::default(), ExtcapStep::NotDetermined);
}

#[test]
fn capture_without_control_pipes() {
    let m = flags(&[("extcap-interface", Some("X")), ("capture", None)]);
    assert_eq!(derive_step(&m), ExtcapStep::Capture { ctrl_pipe: false });
    let one = flags(&[
        ("extcap-interface", Some("X")),
        ("capture", None),
        ("extcap-control-in", Some("a")),
    ]);
    assert_eq!(derive_step(&one), ExtcapStep::Capture { ctrl_pipe: false });
}

#[test]
fn capture_with_both_control_pipes() {
    let m = flags(&[
        ("extcap-interface", Some("X")),
        ("capture", None),
        ("extcap-control-in", Some("a")),
        ("extcap-control-out", Some("b")),
    ]);
    assert_eq!(derive_step(&m), ExtcapStep::Capture { ctrl_pipe: true });
}

#[test]
fn dlts_without_interface_is_missing_interface() {
    let mut ex = provider();
    let err = ex.run_till_capture(&mut Quiet, flags(&[("extcap-dlts", None)])).unwrap_err();
    assert_eq!(err.kind(), ExtcapErrorKind::MissingInterface);
    assert_eq!(err.message(), "Missing interface");
    assert_eq!(*ex.get_step(), ExtcapStep::QueryDlts);
    for step in ["extcap-config", "capture"] {
        let mut ex = provider();
        let err = ex.run_till_capture(&mut Quiet, flags(&[(step, None)])).unwrap_err();
        assert_eq!(err.kind(), ExtcapErrorKind::MissingInterface);
    }
    let mut ex = provider();
    let err = ex.run_till_capture(&mut Quiet, flags(&[])).unwrap_err();
    assert_eq!(err.kind(), ExtcapErrorKind::MissingInterface);
}

#[test]
fn bogus_interface_is_invalid_interface() {
    let mut ex = provider();
    let err = ex
        .run_till_capture(
            &mut Quiet,
            flags(&[("extcap-interface", Some("bogus")), ("extcap-dlts", None)]),
        )
        .unwrap_err();
    assert_eq!(err.kind(), ExtcapErrorKind::InvalidInterface);
    assert_eq!(err.message(), "Invalid interface: bogus");
}

#[test]
fn interface_without_step_is_unknown_step() {
    let mut ex = provider();
    let err = ex
        .run_till_capture(&mut Quiet, flags(&[("extcap-interface", Some("if1"))]))
        .unwrap_err();
    assert_eq!(err.kind(), ExtcapErrorKind::UnknownStepRequested);
    assert_eq!(*ex.get_step(), ExtcapStep::NotDetermined);
}

#[test]
fn query_interfaces_lists_version_interfaces_and_controls() {
    let mut ex = provider();
    ex.version("0.0.1");
    ex.help("http://abcd");
    ex.add_control(Control::new_boolean().display("Boolean 0").tooltip("Checkbox 0"));
    let mut sel = Control::new_selector().display("Select 1");
    sel.add_val(ControlVal::new("V1"));
    sel.add_val(ControlVal::new("V2").display("Val2"));
    ex.add_control(sel);
    ex.add_control(Control::new_button(ButtonRole::Logger).display("Log 2"));
    let text = finish(ex.run_till_capture(
        &mut Quiet,
        flags(&[("extcap-interfaces", None), ("extcap-version", Some("4.2"))]),
    ));
    assert_eq!(
        text,
        "extcap {version=0.0.1}{help=http://abcd}\n\
         interface {value=if1}{display=First}\n\
         interface {value=if2}\n\
         control {number=0}{type=boolean}{display=Boolean 0}{tooltip=Checkbox 0}\n\
         control {number=1}{type=selector}{display=Select 1}\n\
         value {control=1}{value=V1}{display=V1}\n\
         value {control=1}{value=V2}{display=Val2}\n\
         control {number=2}{type=button}{role=logger}{display=Log 2}\n"
    );
    assert_eq!(ex.get_ws_version(), Some("4.2"));
    assert_eq!(*ex.get_step(), ExtcapStep::QueryIfaces);
    assert!(ex.get_matches().is_present("extcap-interfaces"));
}

#[test]
fn query_interfaces_of_a_bare_provider() {
    let mut ex = Extcap::new("bare");
    let text = finish(ex.run_till_capture(&mut Quiet, flags(&[("extcap-interfaces", None)])));
    assert_eq!(text, "extcap {version=unknown}\n");
    assert_eq!(ex.get_ws_version(), None);
}

#[test]
fn query_dlts_prints_one_line_for_the_selected_interface() {
    let mut ex = provider();
    let text = finish(ex.run_till_capture(
        &mut Quiet,
        flags(&[("extcap-interface", Some("if2")), ("extcap-dlts", None)]),
    ));
    assert_eq!(text, "dlt {number=150}{name=USER3}\n");
}

#[test]
fn config_prints_every_argument_of_the_selected_interface() {
    let mut ex = provider();
    let text = finish(ex.run_till_capture(
        &mut Quiet,
        flags(&[("extcap-interface", Some("if1")), ("extcap-config", None)]),
    ));
    assert_eq!(
        text,
        "arg {number=0}{call=--port}{display=Port}{type=integer}\n\
         arg {number=1}{call=--sel}{display=sel}{type=selector}{reload=true}\n\
         value {arg=1}{value=a}{display=a}\n"
    );
}

#[test]
fn reload_splices_the_new_values_and_prints_that_argument_alone() {
    let mut ex = provider();
    let mut listener = Recorder::new(Some(vec!["x", "y"]));
    let text = finish(ex.run_till_capture(
        &mut listener,
        flags(&[
            ("extcap-interface", Some("if1")),
            ("extcap-config", None),
            ("extcap-reload-option", Some("sel")),
        ]),
    ));
    assert_eq!(
        text,
        "arg {number=1}{call=--sel}{display=sel}{type=selector}{reload=true}\n\
         value {arg=1}{value=x}{display=x}\n\
         value {arg=1}{value=y}{display=y}\n"
    );
    assert_eq!(*ex.get_step(), ExtcapStep::ConfigIface { reload: true });
    assert_eq!(
        listener.log,
        vec![
            "init_log ConfigIface { reload: true } false None".to_string(),
            "update false".to_string(),
            "reload if1 sel".to_string(),
        ]
    );
    assert_eq!(ex.get_if(0).get_arg(1).render_arg(), text);
}

#[test]
fn reload_without_new_values_keeps_the_old_ones() {
    let mut ex = provider();
    let mut listener = Recorder::new(None);
    let text = finish(ex.run_till_capture(
        &mut listener,
        flags(&[
            ("extcap-interface", Some("if1")),
            ("extcap-config", None),
            ("extcap-reload-option", Some("sel")),
        ]),
    ));
    assert_eq!(
        text,
        "arg {number=1}{call=--sel}{display=sel}{type=selector}{reload=true}\n\
         value {arg=1}{value=a}{display=a}\n"
    );
}

#[test]
fn reload_of_an_argument_the_interface_lacks_prints_nothing() {
    let mut ex = provider();
    let mut listener = Recorder::new(Some(vec!["x"]));
    let text = finish(ex.run_till_capture(
        &mut listener,
        flags(&[
            ("extcap-interface", Some("if1")),
            ("extcap-config", None),
            ("extcap-reload-option", Some("nope")),
        ]),
    ));
    assert_eq!(text, "");
    assert_eq!(listener.log.len(), 2);
}

#[test]
fn apply_reload_is_exact_for_both_answers() {
    let mut ex = provider();
    let kept = ex.apply_reload(0, 1, None);
    assert_eq!(
        kept,
        "arg {number=1}{call=--sel}{display=sel}{type=selector}{reload=true}\n\
         value {arg=1}{value=a}{display=a}\n"
    );
    let fresh = ex.apply_reload(0, 1, Some(vec![IfArgVal::new("z").default(true)]));
    assert_eq!(
        fresh,
        "arg {number=1}{call=--sel}{display=sel}{type=selector}{reload=true}\n\
         value {arg=1}{value=z}{display=z}{default=true}\n"
    );
}

#[test]
fn capture_hands_back_the_place_of_the_interface() {
    let mut ex = provider();
    let res = ex.run_till_capture(
        &mut Quiet,
        flags(&[("extcap-interface", Some("if2")), ("capture", None), ("fifo", Some("-"))]),
    );
    assert!(matches!(res, Ok(TillCaptureOutcome::Capture { ifidx: 1 })));
    assert_eq!(*ex.get_step(), ExtcapStep::Capture { ctrl_pipe: false });
}

#[test]
fn listener_may_add_the_interface_that_the_run_selects() {
    let mut ex = provider();
    let mut listener = Recorder::new(None);
    let res = ex.run_till_capture(
        &mut listener,
        flags(&[
            ("extcap-interface", Some("late")),
            ("capture", None),
            ("debug", None),
            ("debug-file", Some(" log.txt ")),
        ]),
    );
    assert!(matches!(res, Ok(TillCaptureOutcome::Capture { ifidx: 2 })));
    assert_eq!(
        listener.log,
        vec![
            "init_log Capture { ctrl_pipe: false } true Some(\" log.txt \")".to_string(),
            "update true".to_string(),
        ]
    );
    assert_eq!(ex.get_if(2).get_interface(), "late");
}

#[test]
fn blank_debug_file_counts_as_none() {
    assert_eq!(debug_file(&flags(&[])), None);
    assert_eq!(debug_file(&flags(&[("debug-file", Some(""))])), None);
    assert_eq!(debug_file(&flags(&[("debug-file", Some(" \t\n"))])), None);
    assert_eq!(debug_file(&flags(&[("debug-file", Some(" a "))])), Some(" a "));
    assert_eq!(debug_file(&flags(&[("debug-file", None)])), None);
    assert_eq!(extcap::extcap::unless_blank("keep", "x"), Some("keep"));
    assert_eq!(extcap::extcap::unless_blank("keep", ""), None);
}

#[test]
fn capture_plan_reads_sink_filter_and_pipes() {
    let err = capture_plan(&flags(&[("capture", None)])).unwrap_err();
    assert_eq!(err.kind(), ExtcapErrorKind::Clap);
    assert_eq!(err.message(), "Missing fifo");
    let plan = capture_plan(&flags(&[("fifo", Some("-"))])).unwrap();
    assert!(plan.to_stdout());
    assert_eq!(plan.capture_filter, None);
    assert_eq!(plan.ctrl_pipes, None);
    let plan = capture_plan(&flags(&[
        ("fifo", Some("/tmp/fifo")),
        ("extcap-capture-filter", Some("udp")),
        ("extcap-control-in", Some("in")),
        ("extcap-control-out", Some("out")),
    ]))
    .unwrap();
    assert!(!plan.to_stdout());
    assert_eq!(plan.fifo, "/tmp/fifo");
    assert_eq!(plan.capture_filter.as_deref(), Some("udp"));
    assert_eq!(plan.ctrl_pipes, Some(("in".to_string(), "out".to_string())));
    let plan = capture_plan(&flags(&[("fifo", Some("f")), ("extcap-control-out", Some("out"))]))
        .unwrap();
    assert_eq!(plan.ctrl_pipes, None);
}

fn flag_names(ex: &Extcap) -> Vec<String> {
    ex.get_flags().iter().map(|f| f.get_name().to_string()).collect()
}

const BASE: [&str; 8] = [
    "extcap-version",
    "extcap-interfaces",
    "extcap-interface",
    "extcap-dlts",
    "extcap-config",
    "capture",
    "extcap-capture-filter",
    "fifo",
];

#[test]
fn new_provider_declares_the_base_flags() {
    let ex = Extcap::new("p");
    assert_eq!(ex.get_name(), "p");
    assert_eq!(flag_names(&ex), BASE.to_vec());
    let flags = ex.get_flags();
    assert_eq!(flags[0].get_help(), Some("Wireshark version"));
    assert!(flags[0].get_takes_value());
    assert_eq!(flags[0].get_value_name(), Some("ver"));
    assert!(!flags[1].get_takes_value());
    assert_eq!(flags[2].get_conflicts_with(), Some("extcap-interfaces"));
    assert_eq!(flags[2].get_value_name(), Some("iface"));
    assert_eq!(flags[5].get_needs(), &["fifo"][..]);
    assert_eq!(flags[6].get_needs(), &["capture"][..]);
    assert_eq!(flags[7].get_needs(), &["capture"][..]);
    assert_eq!(flags[7].get_value_name(), Some("file"));
    let groups = ex.get_groups();
    assert_eq!(groups.len(), 1);
    assert_eq!(groups[0].get_name(), "if_action");
    assert_eq!(groups[0].get_args(), &["extcap-dlts", "extcap-config", "capture"][..]);
    assert!(!groups[0].get_multiple());
    assert_eq!(groups[0].get_needs(), &["extcap-interface"][..]);
    assert_eq!(*ex.get_step(), ExtcapStep::NotDetermined);
    assert_eq!(ex.interface_count(), 0);
}

#[test]
fn port_registered_twice_gives_one_flag_and_one_line() {
    let mut ex = Extcap::new("p");
    let mut ifc = IFace::new("if1");
    ifc.add_arg(IfArg::new_integer("port"));
    ifc.add_arg(IfArg::new_integer("port"));
    ex.add_interface(ifc);
    let mut other = IFace::new("if2");
    other.add_arg(IfArg::new_string("port"));
    ex.add_interface(other);
    let names = flag_names(&ex);
    assert_eq!(names.iter().filter(|n| n.as_str() == "port").count(), 1);
    let text = finish(ex.run_till_capture(
        &mut Quiet,
        flags(&[("extcap-interface", Some("if1")), ("extcap-config", None)]),
    ));
    assert_eq!(text, "arg {number=0}{call=--port}{display=port}{type=integer}\n");
}

#[test]
fn interface_flags_are_declared_once_in_order() {
    let mut ex = Extcap::new("p");
    let mut if1 = IFace::new("if1");
    if1.add_arg(IfArg::new_boolflag("verbose").display("Be verbose"));
    if1.add_arg(IfArg::new_selector("sel").reload(true));
    if1.config_debug();
    ex.add_interface(if1);
    let mut if2 = IFace::new("if2");
    if2.add_arg(IfArg::new_selector("other").reload(true));
    if2.config_debug();
    ex.add_interface(if2);
    let mut expected: Vec<&str> = BASE.to_vec();
    expected.extend(["extcap-reload-option", "debug", "debug-file", "verbose", "sel", "other"]);
    assert_eq!(flag_names(&ex), expected);
    let flags = ex.get_flags();
    assert_eq!(flags[8].get_needs(), &["extcap-interface", "extcap-config"][..]);
    assert_eq!(flags[8].get_value_name(), Some("option"));
    assert!(!flags[9].get_takes_value());
    assert_eq!(flags[9].get_help(), Some("Print additional messages"));
    assert!(flags[10].get_takes_value());
    assert!(!flags[11].get_takes_value());
    assert_eq!(flags[11].get_help(), Some("Be verbose"));
    assert!(flags[12].get_takes_value());
    assert_eq!(flags[12].get_help(), None);
}

#[test]
fn controls_declare_the_pipe_flags_once() {
    let mut ex = Extcap::new("p");
    ex.add_control(Control::new_boolean());
    ex.add_control(Control::new_string());
    let mut expected: Vec<&str> = BASE.to_vec();
    expected.extend(["extcap-control-in", "extcap-control-out"]);
    assert_eq!(flag_names(&ex), expected);
    let flags = ex.get_flags();
    assert_eq!(flags[8].get_value_name(), Some("in-pipe"));
    assert_eq!(flags[9].get_value_name(), Some("out-pipe"));
    assert_eq!(flags[9].get_needs(), &["capture"][..]);
    assert_eq!(
        ex.render_control_list(),
        "control {number=0}{type=boolean}{display=boolean}\n\
         control {number=1}{type=string}{display=string}\n"
    );
}

#[test]
fn second_interface_of_a_name_is_left_out() {
    let mut ex = Extcap::new("p");
    ex.add_interface(IFace::new("if1").description("one"));
    let mut again = IFace::new("if1").description("two");
    again.add_arg(IfArg::new_integer("extra"));
    ex.add_interface(again);
    assert_eq!(ex.interface_count(), 1);
    assert_eq!(ex.get_if_idx("if1"), Some(0));
    assert_eq!(ex.get_if_idx("if2"), None);
    assert_eq!(ex.render_iface_list(), "interface {value=if1}{display=one}\n");
    assert_eq!(flag_names(&ex), BASE.to_vec());
}

#[test]
fn program_texts_are_kept() {
    let mut ex = Extcap::new("p");
    assert_eq!(ex.render_version(), "extcap {version=unknown}\n");
    ex.version("1.2");
    ex.author("me");
    ex.about("about");
    ex.usage("usage");
    ex.after_help("after");
    assert_eq!(ex.get_version(), Some("1.2"));
    assert_eq!(ex.get_author(), Some("me"));
    assert_eq!(ex.get_about(), Some("about"));
    assert_eq!(ex.get_usage(), Some("usage"));
    assert_eq!(ex.get_after_help(), Some("after"));
    assert_eq!(ex.render_version(), "extcap {version=1.2}\n");
    ex.help("h");
    assert_eq!(ex.render_version(), "extcap {version=1.2}{help=h}\n");
}

fn entered<'a>(given: &[(&str, Option<&str>)]) -> Extcap<'a> {
    let mut ex = Extcap::new("x");
    ex.add_interface(IFace::new("if1"));
    ex.add_control(Control::new_boolean());
    ex.enter(flags(given));
    ex
}

#[test]
fn dispatch_of_a_capture_gives_the_place_of_the_registered_interface() {
    let mut ex = entered(&[("extcap-interface", Some("if1")), ("capture", None), ("fifo", Some("-"))]);
    assert_eq!(*ex.get_step(), ExtcapStep::Capture { ctrl_pipe: false });
    assert!(matches!(ex.dispatch(&mut Quiet), Ok(TillCaptureOutcome::Capture { ifidx: 0 })));
    let mut ex = entered(&[
        ("extcap-interface", Some("if1")),
        ("capture", None),
        ("fifo", Some("-")),
        ("extcap-control-in", Some("a")),
        ("extcap-control-out", Some("b")),
    ]);
    assert_eq!(*ex.get_step(), ExtcapStep::Capture { ctrl_pipe: true });
    assert!(matches!(ex.dispatch(&mut Quiet), Ok(TillCaptureOutcome::Capture { ifidx: 0 })));
    let mut ex = entered(&[
        ("extcap-interface", Some("if1")),
        ("capture", None),
        ("fifo", Some("-")),
        ("extcap-control-in", Some("a")),
    ]);
    assert_eq!(*ex.get_step(), ExtcapStep::Capture { ctrl_pipe: false });
    assert!(matches!(ex.dispatch(&mut Quiet), Ok(TillCaptureOutcome::Capture { ifidx: 0 })));
    assert_eq!(ex.interface_count(), 1);
}

#[test]
fn dispatch_fails_on_a_bogus_interface_and_on_no_step() {
    let mut ex = entered(&[("extcap-interface", Some("bogus")), ("extcap-dlts", None)]);
    let err = ex.dispatch(&mut Quiet).unwrap_err();
    assert_eq!(err.to_text(), "InvalidInterface:Invalid interface: bogus");
    let mut ex = entered(&[("extcap-interface", Some("if1"))]);
    assert_eq!(*ex.get_step(), ExtcapStep::NotDetermined);
    let err = ex.dispatch(&mut Quiet).unwrap_err();
    assert_eq!(err.kind(), ExtcapErrorKind::UnknownStepRequested);
    assert_eq!(ex.interface_count(), 1);
}

#[test]
fn dispatch_lists_what_was_registered_and_changes_nothing() {
    let mut ex = entered(&[("extcap-interfaces", None)]);
    let before = ex.render_listing();
    let text = finish(ex.dispatch(&mut Quiet));
    assert_eq!(
        text,
        "extcap {version=unknown}\n\
         interface {value=if1}\n\
         control {number=0}{type=boolean}{display=boolean}\n"
    );
    assert_eq!(text, before);
    assert_eq!(ex.render_listing(), before);
    assert_eq!(ex.get_flags().len(), 10);
}

#[test]
fn dispatch_of_a_reload_changes_the_values_of_that_argument_alone() {
    let mut ex = provider();
    ex.enter(flags(&[
        ("extcap-interface", Some("if1")),
        ("extcap-config", None),
        ("extcap-reload-option", Some("sel")),
    ]));
    let port = ex.get_if(0).get_arg(0).render_arg();
    let other = ex.get_if(1).render_dlt_list();
    let text = finish(ex.dispatch(&mut Recorder::new(Some(vec!["n"]))));
    assert_eq!(
        text,
        "arg {number=1}{call=--sel}{display=sel}{type=selector}{reload=true}\n\
         value {arg=1}{value=n}{display=n}\n"
    );
    assert_eq!(ex.get_if(0).get_arg(0).render_arg(), port);
    assert_eq!(ex.get_if(1).render_dlt_list(), other);
    assert_eq!(ex.interface_count(), 2);
}
