//! The untyped expression tree in which contract code and data travel.

use crate::natural::Natural;
use vstd::prelude::*;

verus! {

/// An arbitrary-precision signed integer, kept as a sign and a magnitude.
/// Zero is never negative.
#[derive(Debug, PartialEq, Eq)]
pub struct Integer {
    negative: bool,
    magnitude: Natural,
}

impl View for Integer {
    type V = int;

    closed spec fn view(&self) -> int {
        if self.negative {
            -(self.magnitude@ as int)
        } else {
            self.magnitude@ as int
        }
    }
}

impl Integer {
    #[verifier::type_invariant]
    closed spec fn well_formed(self) -> bool {
        self.negative ==> self.magnitude@ != 0
    }

    /// The integer of the given magnitude, below zero where `negative` is
    /// set and the magnitude is not zero.
    pub fn new(negative: bool, magnitude: Natural) -> (integer: Integer)
        ensures
            integer@ == (if negative { -(magnitude@ as int) } else { magnitude@ as int }),
    {
        let negative = negative && !magnitude.is_zero();
        Integer { negative, magnitude }
    }

    /// Whether the integer is below zero.
    pub fn negative(&self) -> (negative: bool)
        ensures
            negative == (self@ < 0),
    {
        proof {
            use_type_invariant(self);
        }
        self.negative
    }

    /// The absolute value.
    pub fn magnitude(&self) -> (magnitude: &Natural)
        ensures
            magnitude@ == (if self@ < 0 { -self@ } else { self@ }),
    {
        proof {
            use_type_invariant(self);
        }
        &self.magnitude
    }
}

/// A node of the expression tree.
#[derive(Debug, PartialEq, Eq)]
pub enum Micheline {
    Int(Integer),
    String(String),
    Bytes(Vec<u8>),
    PrimitiveApplication(PrimitiveApplication),
    Sequence(Vec<Micheline>),
}

/// A named node with its arguments and annotations, each of which may be
/// left out.
#[derive(Debug, PartialEq, Eq)]
pub struct PrimitiveApplication {
    pub prim: String,
    pub args: Option<Vec<Micheline>>,
    pub annots: Option<Vec<String>>,
}

impl PrimitiveApplication {
    /// A primitive application of the given parts.
    pub fn new(prim: String, args: Option<Vec<Micheline>>, annots: Option<Vec<String>>) -> (application:
        PrimitiveApplication)
        ensures
            application.prim == prim,
            application.args == args,
            application.annots == annots,
    {
        PrimitiveApplication { prim, args, annots }
    }

    /// The name of the primitive.
    pub fn prim(&self) -> (prim: &str)
        ensures
            prim@ == self.prim@,
    {
        self.prim.as_str()
    }

    /// The arguments, where there are any.
    pub fn to_args(self) -> (args: Option<Vec<Micheline>>)
        ensures
            args == self.args,
    {
        self.args
    }
}

impl Micheline {
    /// Whether the node is a sequence.
    pub fn is_micheline_sequence(&self) -> (sequence: bool)
        ensures
            sequence == (self@ is Sequence),
    {
        match self {
            Micheline::Sequence(_) => true,
            _ => false,
        }
    }

    /// Whether the node is a primitive application.
    pub fn is_micheline_primitive_application(&self) -> (application: bool)
        ensures
            application == (self@ is PrimitiveApplication),
    {
        match self {
            Micheline::PrimitiveApplication(_) => true,
            _ => false,
        }
    }
}

/// What a tree node holds.
pub enum MichelineView {
    Int(int),
    String(Seq<char>),
    Bytes(Seq<u8>),
    PrimitiveApplication(PrimitiveApplicationView),
    Sequence(Seq<MichelineView>),
}

/// What a primitive application holds.
pub struct PrimitiveApplicationView {
    pub prim: Seq<char>,
    pub args: Option<Seq<MichelineView>>,
    pub annots: Option<Seq<Seq<char>>>,
}

/// The views of the trees of a list, in order.
pub open spec fn trees_view(trees: Seq<Micheline>) -> Seq<MichelineView>
    decreases trees,
{
    Seq::new(trees.len(), |i: int| if 0 <= i < trees.len() { trees[i].view() } else { arbitrary() })
}

/// The view of a list of trees has the view of each tree at its place.
pub proof fn lemma_trees_view(trees: Seq<Micheline>)
    ensures
        trees_view(trees).len() == trees.len(),
        forall|i: int| 0 <= i < trees.len() ==> (#[trigger] trees_view(trees)[i]) == trees[i]@,
{
    reveal_with_fuel(trees_view, 2);
}

/// The views of the strings of a list, in order.
pub open spec fn strings_view(strings: Seq<String>) -> Seq<Seq<char>> {
    Seq::new(strings.len(), |i: int| strings[i]@)
}

impl View for Micheline {
    type V = MichelineView;

    open spec fn view(&self) -> MichelineView
        decreases self,
    {
        match self {
            Micheline::Int(value) => MichelineView::Int(value@),
            Micheline::String(value) => MichelineView::String(value@),
            Micheline::Bytes(value) => MichelineView::Bytes(value@),
            Micheline::PrimitiveApplication(value) => MichelineView::PrimitiveApplication(value.view()),
            Micheline::Sequence(values) => MichelineView::Sequence(trees_view(values@)),
        }
    }
}

impl View for PrimitiveApplication {
    type V = PrimitiveApplicationView;

    open spec fn view(&self) -> PrimitiveApplicationView
        decreases self,
    {
        PrimitiveApplicationView {
            prim: self.prim@,
            args: match self.args {
                Some(args) => Some(trees_view(args@)),
                None => None,
            },
            annots: match self.annots {
                Some(annots) => Some(strings_view(annots@)),
                None => None,
            },
        }
    }
}

} // verus!
