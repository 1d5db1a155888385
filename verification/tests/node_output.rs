use node_flow::node::NodeOutput;

#[test]
fn ok_drops_the_soft_fail() {
    assert_eq!(NodeOutput::Success(5u8).ok(), Some(5));
    assert_eq!(NodeOutput::<u8>::SoftFail.ok(), None);
}

#[test]
fn ok_or_puts_the_error_in_place_of_the_soft_fail() {
    assert_eq!(NodeOutput::Success(5u8).ok_or("none"), Ok(5));
    assert_eq!(NodeOutput::<u8>::SoftFail.ok_or("none"), Err("none"));
}

#[test]
fn ok_or_else_asks_for_the_error_only_on_a_soft_fail() {
    let unreachable = || -> &'static str { panic!("asked for an error") };
    assert_eq!(NodeOutput::Success(5u8).ok_or_else(unreachable), Ok(5));
    assert_eq!(NodeOutput::<u8>::SoftFail.ok_or_else(|| "none"), Err("none"));
}
