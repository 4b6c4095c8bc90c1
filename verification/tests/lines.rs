use bridge_demo::{callback_line, decimal_string, name_line, Demo, SharedThing, ThingR};

#[test]
fn decimal_zero() {
    assert_eq!(decimal_string(0), "0");
}

#[test]
fn decimal_single_digit() {
    assert_eq!(decimal_string(7), "7");
}

#[test]
fn decimal_multi_digit() {
    assert_eq!(decimal_string(333), "333");
    assert_eq!(decimal_string(1024), "1024");
    assert_eq!(decimal_string(1000000), "1000000");
}

#[test]
fn decimal_largest() {
    assert_eq!(decimal_string(usize::MAX), usize::MAX.to_string());
}

#[test]
fn wrapper_keeps_its_value() {
    assert_eq!(ThingR::new(0).value(), 0);
    assert_eq!(ThingR::new(333).value(), 333);
}

#[test]
fn handle_keeps_its_label() {
    let d = Demo::make_demo("demo of cxx::bridge");
    assert_eq!(d.get_name(), "demo of cxx::bridge");
}

#[test]
fn name_line_has_fixed_prefix() {
    let d = Demo::make_demo("demo of cxx::bridge");
    assert_eq!(name_line(d.get_name()), "this is a demo of cxx::bridge");
}

#[test]
fn callback_line_renders_value() {
    let r = ThingR::new(333);
    assert_eq!(callback_line(&r), "called back with r=333");
}

#[test]
fn composite_keeps_fields() {
    let t = SharedThing::new(
        222,
        Box::new(ThingR::new(333)),
        Demo::make_demo("demo of cxx::bridge"),
    );
    assert_eq!(t.z, 222);
    assert_eq!(t.y.value(), 333);
    assert_eq!(t.x.get_name(), "demo of cxx::bridge");
}

#[test]
fn demo_prints_two_deterministic_lines() {
    let handle = Demo::make_demo("demo of cxx::bridge");
    let first = name_line(handle.get_name());
    let thing = SharedThing::new(222, Box::new(ThingR::new(333)), handle);
    let second = callback_line(&thing.y);
    assert_eq!(first, "this is a demo of cxx::bridge");
    assert_eq!(second, "called back with r=333");
}
