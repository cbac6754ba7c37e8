//! The visible output of the components: plain text nodes.
//!
//! Every component renders into the fixed shape
//! `"click on me: <field> <counter>"`; that literal shape is part of the
//! observable contract of the library.

use vstd::prelude::*;
use vstd::string::StringExecFns;
use crate::decimal::i32_dec;
use crate::decimal::spec_idec;

verus! {

/// The text a component shows for one displayed string field and one counter.
pub open spec fn spec_text(field: Seq<char>, counter: int) -> Seq<char> {
    "click on me: "@ + field + " "@ + spec_idec(counter)
}

/// One rendered leaf: the text of a single component.
pub struct ViewNode {
    pub text: String,
}

impl View for ViewNode {
    type V = Seq<char>;

    open spec fn view(&self) -> Seq<char> {
        self.text@
    }
}

impl ViewNode {
    /// A second node carrying the same text, handed out so that a cached
    /// node can be reused without giving up the cache's own copy.
    pub fn duplicate(&self) -> (n: ViewNode)
        ensures
            n@ == self@,
    {
        ViewNode { text: self.text.clone() }
    }
}

/// Builds the text node for one displayed string field and one counter.
pub fn render_text(field: &String, counter: i32) -> (n: ViewNode)
    ensures
        n@ == spec_text(field@, counter as int),
{
    let mut text = "click on me: ".to_owned();
    text.append(field.as_str());
    text.append(" ");
    text.append(i32_dec(counter).as_str());
    ViewNode { text }
}

/// The whole painted tree: the three children in their fixed order.
pub struct RootNode {
    pub header: ViewNode,
    pub content: ViewNode,
    pub footer: ViewNode,
}

} // verus!
