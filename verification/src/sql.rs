//! The rendering side of the protocol: the capability to produce a query
//! text fragment, the raw-statement passthrough, and small shared markers.

use vstd::prelude::*;

use crate::binding::BindingModel;
use crate::fragment::SegModel;

verus! {

/// The capability to render a deterministic query text fragment. Every
/// dynamic value in the text is referenced as a `$name` placeholder, never
/// embedded raw; two calls on the same value render identical text.
pub trait Buildable {
    /// The model of the text this value renders to.
    spec fn build_spec(&self) -> Seq<char>;

    /// Renders the text.
    fn build(&self) -> (r: String)
        ensures
            r@ == self.build_spec(),
    ;
}

/// The empty argument marker: no text, no bindings.
pub struct Empty;

/// The query text of a well-formed fragment with every placeholder replaced
/// by its binding's raw text. This is the one sanctioned way to inline
/// values, used when a statement is embedded where placeholders cannot reach.
pub open spec fn render_raw_segs(segs: Seq<SegModel>, binds: Seq<BindingModel>) -> Seq<char>
    decreases segs,
{
    if segs.len() == 0 {
        Seq::empty()
    } else {
        render_raw_segs(segs.drop_last(), binds) + match segs.last() {
            SegModel::Lit(t) => t,
            SegModel::Param(n) => if n < binds.len() {
                binds[n as int].raw
            } else {
                Seq::empty()
            },
        }
    }
}

/// A raw statement: literal query text carried through unchanged.
#[derive(Debug)]
pub struct RawStatement {
    text: String,
}

impl View for RawStatement {
    type V = Seq<char>;

    closed spec fn view(&self) -> Seq<char> {
        self.text@
    }
}

impl RawStatement {
    /// Wraps literal query text.
    pub fn new(text: String) -> (r: RawStatement)
        ensures
            r@ == text@,
    {
        RawStatement { text }
    }

    /// The wrapped text.
    pub fn as_text(&self) -> (r: &String)
        ensures
            r@ == self@,
    {
        &self.text
    }
}

impl Clone for RawStatement {
    /// A structural copy with the same text.
    fn clone(&self) -> (r: Self)
        ensures
            r@ == self@,
    {
        RawStatement { text: self.text.clone() }
    }
}

impl Buildable for RawStatement {
    open spec fn build_spec(&self) -> Seq<char> {
        self@
    }

    fn build(&self) -> (r: String)
        ensures
            r@ == self.build_spec(),
    {
        self.text.clone()
    }
}

/// The capability to lower a statement into a raw statement, with every
/// placeholder replaced by its binding's raw text.
pub trait ToRawStatement: Sized {
    /// The model of the raw text this value lowers to.
    spec fn to_raw_spec(&self) -> Seq<char>;

    /// Lowers this value.
    fn to_raw(self) -> (r: RawStatement)
        ensures
            r@ == self.to_raw_spec(),
    ;
}

} // verus!
