use rainbow_dao::dao_base::DaoBase;

#[test]
fn lib_init_works() {
    let mut dao_base = DaoBase::new(String::from("alice.near"));
    dao_base.init_base(String::from("test"), String::from("test"), String::from("test"));
    assert!(dao_base.get_name() == String::from("test"));
    assert!(dao_base.get_logo() == String::from("test"));
    assert!(dao_base.get_desc() == String::from("test"));
}

#[test]
fn new_dao_base_is_blank() {
    let dao_base = DaoBase::new(String::from("alice.near"));
    assert_eq!(dao_base.get_name(), "");
    assert_eq!(dao_base.get_logo(), "");
    assert_eq!(dao_base.get_desc(), "");
    let info = dao_base.get_base_info();
    assert_eq!(info.owner, "alice.near");
}

#[test]
fn setters_change_one_field_each() {
    let mut dao_base = DaoBase::new(String::from("alice.near"));
    dao_base.init_base(String::from("n"), String::from("l"), String::from("d"));
    dao_base.set_name(String::from("rainbow"));
    assert_eq!(dao_base.get_name(), "rainbow");
    assert_eq!(dao_base.get_logo(), "l");
    assert_eq!(dao_base.get_desc(), "d");
    dao_base.set_logo(String::from("logo.png"));
    dao_base.set_desc(String::from("a dao"));
    let info = dao_base.get_base_info();
    assert_eq!(info.owner, "alice.near");
    assert_eq!(info.name, "rainbow");
    assert_eq!(info.logo, "logo.png");
    assert_eq!(info.desc, "a dao");
}
