use pci_info::PciInfoErrorString;

#[test]
fn pciinfoerrorstring_staticstr() {
    let errs: PciInfoErrorString = "test".into();

    let s: String = errs.to_string();
    assert_eq!(s, "test");

    let errs2 = errs.clone();
    let s: String = errs2.into();
    assert_eq!(s, "test");

    let s: &str = (&errs).into();
    assert_eq!(s, "test");

    let s: &str = errs.as_str();
    assert_eq!(s, "test");

    let s = format!("{errs}");
    assert_eq!(s, "test");

    let s = format!("{errs:?}");
    assert_eq!(s, "\"test\"");
}

#[test]
fn pciinfoerrorstring_string() {
    let errs: PciInfoErrorString = format!("test").into();

    let s: String = errs.to_string();
    assert_eq!(s, "test");

    let errs2 = errs.clone();
    let s: String = errs2.into();
    assert_eq!(s, "test");

    let s: &str = (&errs).into();
    assert_eq!(s, "test");

    let s: &str = errs.as_str();
    assert_eq!(s, "test");

    let s = format!("{errs}");
    assert_eq!(s, "test");

    let s = format!("{errs:?}");
    assert_eq!(s, "\"test\"");
}
