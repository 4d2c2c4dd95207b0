use pyembed::ExtensionModule;
use pyembed::InitFunc;
use pyembed::NameEncodingError;

#[test]
fn init_func_keeps_its_address() {
    assert_eq!(InitFunc::from_address(0x1000).address(), 0x1000);
    assert_eq!(InitFunc::from_address(usize::MAX).address(), usize::MAX);
    assert_eq!(InitFunc::from_address(7), InitFunc::from_address(7));
    assert_ne!(InitFunc::from_address(7), InitFunc::from_address(8));
}

#[test]
fn new_binds_name_to_init_func() {
    let init = InitFunc::from_address(0xBEEF);
    let module = ExtensionModule::new("_speedups", init).unwrap();
    assert_eq!(module.name.as_bytes_with_nul(), b"_speedups\0");
    assert_eq!(module.init_func, init);
    assert_eq!(module.name_text(), Some("_speedups"));
}

#[test]
fn new_rejects_name_with_nul() {
    let init = InitFunc::from_address(1);
    let made = ExtensionModule::new("bad\0name", init);
    assert_eq!(made.unwrap_err(), NameEncodingError { nul_position: 3 });
}

#[test]
fn same_name_goes_by_name_alone() {
    let a = ExtensionModule::new("ext", InitFunc::from_address(1)).unwrap();
    let b = ExtensionModule::new("ext", InitFunc::from_address(2)).unwrap();
    let c = ExtensionModule::new("ext2", InitFunc::from_address(1)).unwrap();
    assert!(a.same_name(&b));
    assert!(b.same_name(&a));
    assert!(!a.same_name(&c));
}
