use node_flow::context::storage::local_storage::{LocalStorageImpl, Merge, MergeResult};
use node_flow::flows::{OneOfSequentialFlow, SequentialFlow};
use node_flow::internal::internal_node2::InternalNodeStruct2;
use node_flow::node::{Node, NodeOutput};

#[derive(Clone)]
struct Unmerged;

impl Merge for Unmerged {
    fn merge(_parent: Option<&Self>, _others: Vec<Self>) -> MergeResult<Self> {
        MergeResult::KeepParent
    }
}

type Store = LocalStorageImpl<Unmerged>;

#[derive(Clone, Debug)]
struct StringMatcher(&'static str);
struct StringMatcherError;

impl From<StringMatcherError> for String {
    fn from(_value: StringMatcherError) -> Self {
        "matcher".into()
    }
}

impl<C> Node<String, NodeOutput<String>, StringMatcherError, C> for StringMatcher {
    fn run(
        &mut self,
        input: String,
        _context: &mut C,
    ) -> Result<NodeOutput<String>, StringMatcherError> {
        if !input.contains(self.0) {
            return Ok(NodeOutput::SoftFail);
        }
        Ok(NodeOutput::Success(input))
    }
}

#[derive(Clone, Debug)]
struct StringForwarder;
struct StringForwarderError;

impl From<StringForwarderError> for String {
    fn from(_value: StringForwarderError) -> Self {
        "forwarder".into()
    }
}

impl<C> Node<String, NodeOutput<String>, StringForwarderError, C> for StringForwarder {
    fn run(
        &mut self,
        input: String,
        _context: &mut C,
    ) -> Result<NodeOutput<String>, StringForwarderError> {
        Ok(NodeOutput::Success(input))
    }
}

struct WrapString(String);
impl From<String> for WrapString {
    fn from(value: String) -> Self {
        Self(value)
    }
}
impl From<WrapString> for String {
    fn from(value: WrapString) -> Self {
        value.0
    }
}

#[derive(Clone, Debug)]
struct StringToWrapString;

impl<C> Node<String, NodeOutput<WrapString>, String, C> for StringToWrapString {
    fn run(&mut self, input: String, _context: &mut C) -> Result<NodeOutput<WrapString>, String> {
        Ok(NodeOutput::Success(WrapString(input)))
    }
}

#[derive(Clone, Debug)]
struct WrapStringToString;

impl<C> Node<WrapString, NodeOutput<String>, String, C> for WrapStringToString {
    fn run(&mut self, input: WrapString, _context: &mut C) -> Result<NodeOutput<String>, String> {
        Ok(NodeOutput::Success(input.0))
    }
}

#[derive(Clone, Debug)]
struct ForwarderT;

impl<C> Node<WrapString, NodeOutput<WrapString>, String, C> for ForwarderT {
    fn run(
        &mut self,
        input: WrapString,
        _context: &mut C,
    ) -> Result<NodeOutput<WrapString>, String> {
        Ok(NodeOutput::Success(input))
    }
}

/// The nodes of the text tests, each fitted to a flow from `String` to
/// `String` with `String` errors.
#[derive(Clone)]
enum TextNode {
    Matcher(InternalNodeStruct2<StringMatcher, String, String, StringMatcherError>),
    Forwarder(InternalNodeStruct2<StringForwarder, String, String, StringForwarderError>),
    ToWrap(InternalNodeStruct2<StringToWrapString, String, WrapString, String>),
    FromWrap(InternalNodeStruct2<WrapStringToString, WrapString, String, String>),
    Wrapped(InternalNodeStruct2<ForwarderT, WrapString, WrapString, String>),
}

fn matcher(pattern: &'static str) -> TextNode {
    TextNode::Matcher(InternalNodeStruct2::new(StringMatcher(pattern)))
}

fn forwarder() -> TextNode {
    TextNode::Forwarder(InternalNodeStruct2::new(StringForwarder))
}

fn to_wrap() -> TextNode {
    TextNode::ToWrap(InternalNodeStruct2::new(StringToWrapString))
}

fn from_wrap() -> TextNode {
    TextNode::FromWrap(InternalNodeStruct2::new(WrapStringToString))
}

impl Node<String, NodeOutput<String>, String, Store> for TextNode {
    fn run(&mut self, input: String, context: &mut Store) -> Result<NodeOutput<String>, String> {
        match self {
            TextNode::Matcher(node) => node.run(input, context),
            TextNode::Forwarder(node) => node.run(input, context),
            TextNode::ToWrap(node) => node.run(input, context),
            TextNode::FromWrap(node) => node.run(input, context),
            TextNode::Wrapped(node) => node.run(input, context),
        }
    }
}

#[test]
fn sequential_success() {
    let mut sequence = SequentialFlow::builder()
        .add_node(matcher("match"))
        .add_node(forwarder())
        .build();
    let mut storage = Store::new();
    let res = sequence.run("match".into(), &mut storage);
    assert_eq!(res, Ok(NodeOutput::Success("match".to_owned())));
}

#[test]
fn soft_fail() {
    let mut sequence = SequentialFlow::builder()
        .add_node(matcher("match"))
        .add_node(forwarder())
        .build();
    let mut storage = Store::new();
    let res = sequence.run("".into(), &mut storage);
    assert_eq!(res, Ok(NodeOutput::SoftFail));
}

#[test]
fn sequential_io_conversion_success() {
    let mut sequence = SequentialFlow::builder()
        .add_node(from_wrap())
        .add_node(forwarder())
        .add_node(to_wrap())
        .add_node(forwarder())
        .add_node(from_wrap())
        .add_node(forwarder())
        .add_node(to_wrap())
        .build();
    let mut storage = Store::new();
    let res = sequence.run("match".into(), &mut storage);
    assert_eq!(res, Ok(NodeOutput::Success("match".to_owned())));
}

#[test]
fn sequential_flow_success() {
    let mut flow = SequentialFlow::builder()
        .add_node(matcher("match"))
        .add_node(forwarder())
        .build();
    let mut storage = Store::new();
    let res = flow.run("match".into(), &mut storage);
    assert_eq!(res, Ok(NodeOutput::Success("match".to_owned())));
}

#[test]
fn sequential_flow_soft_fail() {
    let mut flow = SequentialFlow::builder()
        .add_node(matcher("match"))
        .add_node(forwarder())
        .build();
    let mut storage = Store::new();
    let res = flow.run("".into(), &mut storage);
    assert_eq!(res, Ok(NodeOutput::SoftFail));
}

#[test]
fn sequential_flow_io_conversion_success() {
    let mut flow = SequentialFlow::builder()
        .add_node(from_wrap())
        .add_node(forwarder())
        .add_node(to_wrap())
        .add_node(forwarder())
        .add_node(from_wrap())
        .add_node(forwarder())
        .add_node(to_wrap())
        .build();
    let mut storage = Store::new();
    let res = flow.run("match".into(), &mut storage);
    assert_eq!(res, Ok(NodeOutput::Success("match".to_owned())));
}

#[test]
fn one_of_sequential_flow_success() {
    let mut flow = OneOfSequentialFlow::builder()
        .add_node(matcher("nope"))
        .add_node(matcher("still no"))
        .add_node(matcher("hmm no"))
        .add_node(forwarder())
        .build();
    let mut storage = Store::new();
    let res = flow.run("match".into(), &mut storage);
    assert_eq!(res, Ok(NodeOutput::Success("match".to_owned())));
}

#[test]
fn one_of_sequential_flow_soft_fail() {
    let mut flow = OneOfSequentialFlow::builder()
        .add_node(matcher("match"))
        .add_node(matcher("match"))
        .add_node(matcher("match"))
        .build();
    let mut storage = Store::new();
    let res = flow.run("".into(), &mut storage);
    assert_eq!(res, Ok(NodeOutput::SoftFail));
}

#[test]
fn one_of_sequential_flow_io_conversion_success() {
    let mut flow = OneOfSequentialFlow::builder()
        .add_node(TextNode::Wrapped(InternalNodeStruct2::new(ForwarderT)))
        .build();
    let mut storage = Store::new();
    let res = flow.run("match".into(), &mut storage);
    assert_eq!(res, Ok(NodeOutput::Success("match".to_owned())));
}

#[test]
fn adapter_converts_the_error_of_its_node() {
    #[derive(Clone)]
    struct Broken;
    impl Node<String, NodeOutput<String>, StringMatcherError, ()> for Broken {
        fn run(
            &mut self,
            _input: String,
            _context: &mut (),
        ) -> Result<NodeOutput<String>, StringMatcherError> {
            Err(StringMatcherError)
        }
    }
    let mut node: InternalNodeStruct2<Broken, String, String, StringMatcherError> =
        InternalNodeStruct2::new(Broken);
    let res: Result<NodeOutput<String>, String> = node.run("x".to_owned(), &mut ());
    assert_eq!(res, Err("matcher".to_owned()));
}
