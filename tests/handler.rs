use rust_dev::handler::Handler;

#[test]
fn handler_keeps_its_text() {
    let h = Handler::new("We got that too!");
    assert_eq!(h.content, "We got that too!");
}

#[test]
fn handler_debug_names_its_field() {
    let h = Handler::new("hi");
    assert_eq!(format!("{:?}", h), "Handler { content: \"hi\" }");
}
