use jdk_selector::registry::{add_jdk_info, position_of, remove_jdk_info, use_jdk, Config, JdkInfo, RegistryError};

fn s(text: &str) -> String {
    text.to_string()
}

fn names(c: &Config) -> Vec<String> {
    c.jdk_info_list.iter().map(|e| e.name.clone()).collect()
}

fn two_jdks() -> Config {
    let c = add_jdk_info(&Config::new(), &s("jdk17"), &s("/opt/jdk17")).unwrap();
    add_jdk_info(&c, &s("jdk21"), &s("/opt/jdk21")).unwrap()
}

#[test]
fn example_scenario_walkthrough() {
    let c0 = Config::new();
    assert_eq!(c0.selected_jdk, None);
    assert!(c0.jdk_info_list.is_empty());

    let c1 = add_jdk_info(&c0, &s("jdk17"), &s("/opt/jdk17")).unwrap();
    assert_eq!(c1.selected_jdk, Some(0));
    assert_eq!(names(&c1), vec![s("jdk17")]);
    assert_eq!(c1.jdk_info_list[0].path, "/opt/jdk17");

    let c2 = add_jdk_info(&c1, &s("jdk21"), &s("/opt/jdk21")).unwrap();
    assert_eq!(c2.selected_jdk, Some(0));
    assert_eq!(names(&c2), vec![s("jdk17"), s("jdk21")]);

    let c3 = use_jdk(&c2, &s("jdk21")).unwrap();
    assert_eq!(c3.selected_jdk, Some(1));
    assert_eq!(names(&c3), vec![s("jdk17"), s("jdk21")]);

    let c4 = remove_jdk_info(&c3, &s("jdk17")).unwrap();
    assert_eq!(c4.selected_jdk, Some(1));
    assert_eq!(names(&c4), vec![s("jdk21")]);
    assert_eq!(c4.jdk_info_list[0].path, "/opt/jdk21");
}

#[test]
fn add_rejects_duplicate_name() {
    let c = two_jdks();
    let r = add_jdk_info(&c, &s("jdk17"), &s("/elsewhere"));
    assert_eq!(r.err(), Some(RegistryError::DuplicateName));
    assert_eq!(names(&c), vec![s("jdk17"), s("jdk21")]);
    assert_eq!(c.jdk_info_list[0].path, "/opt/jdk17");
}

#[test]
fn add_name_match_is_case_sensitive() {
    let c = two_jdks();
    let r = add_jdk_info(&c, &s("JDK17"), &s("/opt/other")).unwrap();
    assert_eq!(names(&r), vec![s("jdk17"), s("jdk21"), s("JDK17")]);
    assert_eq!(r.jdk_info_list[2].path, "/opt/other");
}

#[test]
fn add_keeps_prior_selection() {
    let c = use_jdk(&two_jdks(), &s("jdk21")).unwrap();
    let r = add_jdk_info(&c, &s("jdk8"), &s("/opt/jdk8")).unwrap();
    assert_eq!(r.selected_jdk, Some(1));
    assert_eq!(r.jdk_info_list[1].name, "jdk21");
}

#[test]
fn add_selects_new_entry_when_none_selected() {
    let c = Config {
        selected_jdk: None,
        jdk_info_list: vec![JdkInfo::new("a", "/a"), JdkInfo::new("b", "/b")],
    };
    let r = add_jdk_info(&c, &s("c"), &s("/c")).unwrap();
    assert_eq!(r.selected_jdk, Some(2));
}

#[test]
fn remove_rejects_unknown_name() {
    let c = two_jdks();
    assert_eq!(remove_jdk_info(&c, &s("jdk11")).err(), Some(RegistryError::NotFound));
    assert_eq!(remove_jdk_info(&Config::new(), &s("x")).err(), Some(RegistryError::NotFound));
}

#[test]
fn remove_keeps_order_of_the_rest() {
    let c = add_jdk_info(&two_jdks(), &s("jdk8"), &s("/opt/jdk8")).unwrap();
    let r = remove_jdk_info(&c, &s("jdk21")).unwrap();
    assert_eq!(names(&r), vec![s("jdk17"), s("jdk8")]);
    assert_eq!(r.jdk_info_list[1].path, "/opt/jdk8");
    assert_eq!(r.selected_jdk, Some(0));
    assert_eq!(position_of(&r.jdk_info_list, &s("jdk21")), None);
}

#[test]
fn remove_drops_every_entry_of_that_name() {
    let c = Config {
        selected_jdk: None,
        jdk_info_list: vec![JdkInfo::new("a", "/1"), JdkInfo::new("b", "/2"), JdkInfo::new("a", "/3")],
    };
    let r = remove_jdk_info(&c, &s("a")).unwrap();
    assert_eq!(names(&r), vec![s("b")]);
}

#[test]
fn select_rejects_unknown_name() {
    assert_eq!(use_jdk(&two_jdks(), &s("Jdk21")).err(), Some(RegistryError::NotFound));
}

#[test]
fn select_sets_position_of_match() {
    let c = two_jdks();
    assert_eq!(use_jdk(&c, &s("jdk21")).unwrap().selected_jdk, Some(1));
    assert_eq!(use_jdk(&c, &s("jdk17")).unwrap().selected_jdk, Some(0));
    assert_eq!(names(&use_jdk(&c, &s("jdk17")).unwrap()), vec![s("jdk17"), s("jdk21")]);
}

#[test]
fn position_of_finds_first_match() {
    let list = vec![JdkInfo::new("a", "/1"), JdkInfo::new("b", "/2"), JdkInfo::new("b", "/3")];
    assert_eq!(position_of(&list, &s("b")), Some(1));
    assert_eq!(position_of(&list, &s("c")), None);
}

#[test]
fn list_marks_only_the_selected_entry() {
    let c = use_jdk(&two_jdks(), &s("jdk21")).unwrap();
    let l = c.jdk_list();
    assert_eq!(l.len(), 2);
    assert_eq!(l[0].0.name, "jdk17");
    assert!(!l[0].1);
    assert_eq!(l[1].0.path, "/opt/jdk21");
    assert!(l[1].1);
    let none = Config::new().jdk_list();
    assert!(none.is_empty());
}

#[test]
fn list_with_no_selection_marks_nothing() {
    let c = Config {
        selected_jdk: None,
        jdk_info_list: vec![JdkInfo::new("a", "/1")],
    };
    assert!(!c.jdk_list()[0].1);
}

#[test]
fn entry_text_form() {
    let e = JdkInfo::new("jdk17", "/opt/jdk17");
    assert_eq!(e.to_string(), "{Name: \"jdk17\", Path: \"/opt/jdk17\"}");
    assert_eq!(e.duplicate().path, "/opt/jdk17");
}

#[test]
fn registry_text_form() {
    let c = two_jdks();
    assert_eq!(
        c.to_string(),
        "Selected JDK name: jdk17 JDK info list: [{Name: \"jdk17\", Path: \"/opt/jdk17\"}{Name: \"jdk21\", Path: \"/opt/jdk21\"}]"
    );
    assert_eq!(Config::new().to_string(), "Selected JDK name: Undefined JDK info list: []");
    let stale = Config { selected_jdk: Some(3), jdk_info_list: vec![JdkInfo::new("a", "/a")] };
    assert_eq!(
        stale.to_string(),
        "Selected JDK name: Undefined JDK info list: [{Name: \"a\", Path: \"/a\"}]"
    );
}
