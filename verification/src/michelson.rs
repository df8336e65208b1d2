//! Typed values and their mapping to and from the expression tree.
//!
//! A typed value turns into a primitive application that carries, in order,
//! its required fields, its optional field where it has one, and its nested
//! typed values; a primitive application turns back into a typed value by
//! the schema that the registry holds for its name. Both directions stop
//! with an error at a nesting depth that the caller sets.

use crate::error::Error;
use crate::micheline::lemma_trees_view;
use crate::micheline::strings_view;
use crate::micheline::trees_view;
use crate::micheline::Micheline;
use crate::micheline::MichelineView;
use crate::micheline::PrimitiveApplication;
use crate::micheline::PrimitiveApplicationView;
use crate::registry::find_schema;
use crate::registry::has_shape;
use crate::registry::have_shapes;
use crate::registry::Category;
use crate::registry::Registry;
use crate::registry::Schema;
use crate::registry::SchemaView;
use vstd::prelude::*;

verus! {

/// A value of one constructor: its schema and the fields that the schema
/// declares.
#[derive(Debug, PartialEq, Eq)]
pub struct TypedNode {
    pub schema: Schema,
    pub required: Vec<Micheline>,
    pub optional: Option<Micheline>,
    pub boxed: Vec<Michelson>,
    pub annotations: Vec<String>,
}

/// Any typed value: a plain sequence of trees, or a value of a constructor.
#[derive(Debug, PartialEq, Eq)]
pub enum Michelson {
    Sequence(Vec<Micheline>),
    Node(TypedNode),
}

/// What a typed node holds.
pub struct TypedNodeView {
    pub schema: SchemaView,
    pub required: Seq<MichelineView>,
    pub optional: Option<MichelineView>,
    pub boxed: Seq<MichelsonView>,
    pub annotations: Seq<Seq<char>>,
}

/// What a typed value holds.
pub enum MichelsonView {
    Sequence(Seq<MichelineView>),
    Node(TypedNodeView),
}

/// The views of the typed values of a list, in order.
pub open spec fn nodes_view(nodes: Seq<Michelson>) -> Seq<MichelsonView>
    decreases nodes,
{
    Seq::new(nodes.len(), |i: int| if 0 <= i < nodes.len() { nodes[i].view() } else { arbitrary() })
}

/// The view of a list of typed values has the view of each value at its
/// place.
pub proof fn lemma_nodes_view(nodes: Seq<Michelson>)
    ensures
        nodes_view(nodes).len() == nodes.len(),
        forall|i: int| 0 <= i < nodes.len() ==> (#[trigger] nodes_view(nodes)[i]) == nodes[i]@,
{
    reveal_with_fuel(nodes_view, 2);
}

impl View for TypedNode {
    type V = TypedNodeView;

    open spec fn view(&self) -> TypedNodeView
        decreases self,
    {
        TypedNodeView {
            schema: self.schema@,
            required: trees_view(self.required@),
            optional: match self.optional {
                Some(tree) => Some(tree@),
                None => None,
            },
            boxed: nodes_view(self.boxed@),
            annotations: strings_view(self.annotations@),
        }
    }
}

impl View for Michelson {
    type V = MichelsonView;

    open spec fn view(&self) -> MichelsonView
        decreases self,
    {
        match self {
            Michelson::Sequence(trees) => MichelsonView::Sequence(trees_view(trees@)),
            Michelson::Node(node) => MichelsonView::Node(node.view()),
        }
    }
}

/// An optional tree as a list of no tree or one.
pub open spec fn optional_tree(tree: Option<MichelineView>) -> Seq<MichelineView> {
    match tree {
        Some(tree) => seq![tree],
        None => Seq::empty(),
    }
}

/// The tree of a typed value, where the value nests no deeper than `depth`
/// typed nodes; `DepthLimitExceeded` where it does.
pub open spec fn encode(value: MichelsonView, depth: nat) -> Result<MichelineView, Error>
    decreases depth, 1nat, 0nat,
{
    match value {
        MichelsonView::Sequence(trees) => Ok(MichelineView::Sequence(trees)),
        MichelsonView::Node(node) => match encode_node(node, depth) {
            Ok(application) => Ok(MichelineView::PrimitiveApplication(application)),
            Err(error) => Err(error),
        },
    }
}

/// The primitive application of a typed node: the schema's name; as
/// arguments the required fields, the optional field where it is there, and
/// the trees of the nested values; the annotations where the schema carries
/// them.
pub open spec fn encode_node(node: TypedNodeView, depth: nat) -> Result<
    PrimitiveApplicationView,
    Error,
>
    decreases depth, 0nat, 0nat,
{
    if depth == 0 {
        Err(Error::DepthLimitExceeded)
    } else {
        match encode_list(node.boxed, (depth - 1) as nat) {
            Err(error) => Err(error),
            Ok(nested) => Ok(
                PrimitiveApplicationView {
                    prim: node.schema.name,
                    args: Some(node.required + optional_tree(node.optional) + nested),
                    annots: if node.schema.metadata {
                        Some(node.annotations)
                    } else {
                        None
                    },
                },
            ),
        }
    }
}

/// The trees of a list of typed values, or the first error among them.
pub open spec fn encode_list(values: Seq<MichelsonView>, depth: nat) -> Result<
    Seq<MichelineView>,
    Error,
>
    decreases depth, 2nat, values.len(),
{
    if values.len() == 0 {
        Ok(Seq::empty())
    } else {
        match encode(values[0], depth) {
            Err(error) => Err(error),
            Ok(first) => match encode_list(values.skip(1), depth) {
                Err(error) => Err(error),
                Ok(rest) => Ok(seq![first] + rest),
            },
        }
    }
}

/// The typed value of a tree. A sequence is taken as it is. A primitive
/// application is read by the first schema of the registry that has its
/// name. Anything else, and a name that the registry does not know, is an
/// `InvalidPrimitiveApplication`.
pub open spec fn decode(registry: Seq<SchemaView>, tree: MichelineView, depth: nat) -> Result<
    MichelsonView,
    Error,
>
    decreases depth, 1nat, 0nat,
{
    match tree {
        MichelineView::Sequence(trees) => Ok(MichelsonView::Sequence(trees)),
        MichelineView::PrimitiveApplication(application) => match find_schema(
            registry,
            application.prim,
        ) {
            None => Err(Error::InvalidPrimitiveApplication),
            Some(place) => match decode_node(
                registry,
                registry[place as int],
                application,
                depth,
            ) {
                Ok(node) => Ok(MichelsonView::Node(node)),
                Err(error) => Err(error),
            },
        },
        _ => Err(Error::InvalidPrimitiveApplication),
    }
}

/// The arguments of a primitive application; none where they are left out.
pub open spec fn arguments(application: PrimitiveApplicationView) -> Seq<MichelineView> {
    match application.args {
        Some(args) => args,
        None => Seq::empty(),
    }
}

/// The annotations that a node of the schema takes from a primitive
/// application.
pub open spec fn metadata(schema: SchemaView, application: PrimitiveApplicationView) -> Seq<
    Seq<char>,
> {
    match application.annots {
        Some(annots) if schema.metadata => annots,
        _ => Seq::empty(),
    }
}

/// Whether the optional field takes an argument: the schema has one, and an
/// argument is left behind the required fields.
pub open spec fn takes_optional(schema: SchemaView, args: Seq<MichelineView>) -> bool {
    schema.optional.is_some() && args.len() > schema.required.len()
}

/// The typed node that a primitive application is by a schema. The name
/// must be the schema's. The required fields are the first arguments; all
/// of them must be there, each of the shape that the schema asks for. The
/// optional field is the next argument where the schema has one and an
/// argument is left, and must have its shape too. The nested values are
/// read from the arguments that follow, each through the whole registry.
/// Arguments left over are ignored.
pub open spec fn decode_node(
    registry: Seq<SchemaView>,
    schema: SchemaView,
    application: PrimitiveApplicationView,
    depth: nat,
) -> Result<TypedNodeView, Error>
    decreases depth, 0nat, 0nat,
{
    let args = arguments(application);
    if application.prim != schema.name {
        Err(Error::InvalidPrimitiveApplication)
    } else if depth == 0 {
        Err(Error::DepthLimitExceeded)
    } else if args.len() < schema.required.len() {
        Err(Error::InvalidPrimitiveApplication)
    } else if !have_shapes(schema.required, args.take(schema.required.len() as int)) {
        Err(Error::InvalidPrimitiveApplication)
    } else if takes_optional(schema, args) && !has_shape(
        schema.optional.unwrap(),
        args[schema.required.len() as int],
    ) {
        Err(Error::InvalidPrimitiveApplication)
    } else {
        let taken = takes_optional(schema, args);
        let start = schema.required.len() + (if taken { 1nat } else { 0nat });
        match decode_list(registry, args.skip(start as int), schema.boxed, (depth - 1) as nat) {
            Err(error) => Err(error),
            Ok(boxed) => Ok(
                TypedNodeView {
                    schema,
                    required: args.take(schema.required.len() as int),
                    optional: if taken {
                        Some(args[schema.required.len() as int])
                    } else {
                        None
                    },
                    boxed,
                    annotations: metadata(schema, application),
                },
            ),
        }
    }
}

/// The typed values of the first `count` trees of a list, or the first
/// error: that of a tree that does not convert, or
/// `InvalidPrimitiveApplication` where the trees run out.
pub open spec fn decode_list(
    registry: Seq<SchemaView>,
    trees: Seq<MichelineView>,
    count: nat,
    depth: nat,
) -> Result<Seq<MichelsonView>, Error>
    decreases depth, 2nat, count,
{
    if count == 0 {
        Ok(Seq::empty())
    } else if trees.len() == 0 {
        Err(Error::InvalidPrimitiveApplication)
    } else {
        match decode(registry, trees[0], depth) {
            Err(error) => Err(error),
            Ok(first) => match decode_list(registry, trees.skip(1), (count - 1) as nat, depth) {
                Err(error) => Err(error),
                Ok(rest) => Ok(seq![first] + rest),
            },
        }
    }
}

/// Whether a result of trees is the given result of views.
pub open spec fn trees_result(result: Result<Vec<Micheline>, Error>) -> Result<
    Seq<MichelineView>,
    Error,
> {
    match result {
        Ok(trees) => Ok(trees_view(trees@)),
        Err(error) => Err(error),
    }
}

/// The view of a result of typed values.
pub open spec fn nodes_result(result: Result<Vec<Michelson>, Error>) -> Result<
    Seq<MichelsonView>,
    Error,
> {
    match result {
        Ok(nodes) => Ok(nodes_view(nodes@)),
        Err(error) => Err(error),
    }
}

/// The view of a result of one tree.
pub open spec fn tree_result(result: Result<Micheline, Error>) -> Result<MichelineView, Error> {
    match result {
        Ok(tree) => Ok(tree@),
        Err(error) => Err(error),
    }
}

/// The view of a result of one typed value.
pub open spec fn node_result(result: Result<Michelson, Error>) -> Result<MichelsonView, Error> {
    match result {
        Ok(node) => Ok(node@),
        Err(error) => Err(error),
    }
}

impl TypedNode {
    /// The primitive application of this node.
    pub fn to_application(self, depth: usize) -> (application: Result<PrimitiveApplication, Error>)
        ensures
            match application {
                Ok(application) => encode_node(self@, depth as nat) == Ok::<
                    PrimitiveApplicationView,
                    Error,
                >(application@),
                Err(error) => encode_node(self@, depth as nat) == Err::<
                    PrimitiveApplicationView,
                    Error,
                >(error),
            },
        decreases depth, 0nat, 0nat,
    {
        if depth == 0 {
            return Err(Error::DepthLimitExceeded);
        }
        let ghost node = self@;
        let TypedNode { schema, required, optional, boxed, annotations } = self;
        let mut nested = match list_to_micheline(boxed, depth - 1) {
            Ok(nested) => nested,
            Err(error) => {
                return Err(error);
            },
        };
        let mut args: Vec<Micheline> = required;
        proof {
            lemma_trees_view(args@);
        }
        if let Some(tree) = optional {
            args.push(tree);
        }
        proof {
            lemma_trees_view(args@);
        }
        assert(trees_view(args@) =~= node.required + optional_tree(node.optional));
        let ghost front = args@;
        let ghost back = nested@;
        args.append(&mut nested);
        proof {
            lemma_trees_view(args@);
            lemma_trees_view(back);
        }
        assert(trees_view(args@) =~= trees_view(front) + trees_view(back));
        let annots = if schema.metadata {
            Some(annotations)
        } else {
            None
        };
        Ok(PrimitiveApplication { prim: schema.name, args: Some(args), annots })
    }

    /// The node that `value` is by `schema`; its nested values are read
    /// through `registry`.
    pub fn from_application(
        schema: &Schema,
        registry: &Registry,
        value: PrimitiveApplication,
        depth: usize,
    ) -> (node: Result<TypedNode, Error>)
        ensures
            match node {
                Ok(node) => decode_node(registry@, schema@, value@, depth as nat) == Ok::<
                    TypedNodeView,
                    Error,
                >(node@),
                Err(error) => decode_node(registry@, schema@, value@, depth as nat) == Err::<
                    TypedNodeView,
                    Error,
                >(error),
            },
        decreases depth, 0nat, 0nat,
    {
        if value.prim != schema.name {
            return Err(Error::InvalidPrimitiveApplication);
        }
        if depth == 0 {
            return Err(Error::DepthLimitExceeded);
        }
        let ghost application = value@;
        let PrimitiveApplication { prim, args, annots } = value;
        let mut args = match args {
            Some(args) => args,
            None => Vec::new(),
        };
        proof {
            lemma_trees_view(args@);
        }
        assert(trees_view(args@) =~= arguments(application));
        let count = schema.required.len();
        if args.len() < count {
            return Err(Error::InvalidPrimitiveApplication);
        }
        let mut rest = args.split_off(count);
        let required = args;
        proof {
            lemma_trees_view(required@);
            lemma_trees_view(rest@);
        }
        assert(trees_view(required@) =~= arguments(application).take(count as int));
        assert(trees_view(rest@) =~= arguments(application).skip(count as int));
        let ghost fields = arguments(application).take(count as int);
        let mut i: usize = 0;
        while i < count
            invariant
                i <= count,
                count == schema.required@.len(),
                count == required@.len(),
                fields == trees_view(required@),
                fields == arguments(application).take(count as int),
                fields.len() == count,
                application == value@,
                application.prim == schema@.name,
                depth > 0,
                arguments(application).len() >= count,
                forall|j: int| 0 <= j < i ==> has_shape(schema.required@[j], #[trigger] fields[j]),
            decreases count - i,
        {
            proof {
                lemma_trees_view(required@);
            }
            if !schema.required[i].admits(&required[i]) {
                assert(!has_shape(schema@.required[i as int], fields[i as int]));
                return Err(Error::InvalidPrimitiveApplication);
            }
            i += 1;
        }
        let optional = match schema.optional {
            Some(kind) if !rest.is_empty() => {
                let tree = rest.remove(0);
                if !kind.admits(&tree) {
                    return Err(Error::InvalidPrimitiveApplication);
                }
                Some(tree)
            },
            _ => None,
        };
        let ghost start = count as nat + (if optional.is_some() { 1nat } else { 0nat });
        proof {
            lemma_trees_view(rest@);
        }
        assert(trees_view(rest@) =~= arguments(application).skip(start as int));
        let boxed = match list_from_micheline(registry, rest, schema.boxed, depth - 1) {
            Ok(boxed) => boxed,
            Err(error) => {
                return Err(error);
            },
        };
        let annotations = match annots {
            Some(annots) if schema.metadata => annots,
            _ => Vec::new(),
        };
        assert(strings_view(annotations@) =~= metadata(schema@, application));
        Ok(TypedNode { schema: schema.duplicate(), required, optional, boxed, annotations })
    }
}

/// The trees of the typed values of a list, in order.
pub fn list_to_micheline(values: Vec<Michelson>, depth: usize) -> (trees: Result<
    Vec<Micheline>,
    Error,
>)
    ensures
        trees_result(trees) == encode_list(nodes_view(values@), depth as nat),
    decreases depth, 2nat, values@.len(),
{
    let mut values = values;
    let ghost all = values@;
    proof {
        lemma_nodes_view(all);
        lemma_trees_view(Seq::empty());
    }
    if values.len() == 0 {
        let none: Vec<Micheline> = Vec::new();
        assert(trees_view(none@) =~= Seq::<MichelineView>::empty());
        return Ok(none);
    }
    let first = values.remove(0);
    proof {
        lemma_nodes_view(all);
        lemma_nodes_view(values@);
    }
    assert(nodes_view(values@) =~= nodes_view(all).skip(1));
    let first = match first.to_micheline(depth) {
        Ok(first) => first,
        Err(error) => {
            return Err(error);
        },
    };
    let mut rest = match list_to_micheline(values, depth) {
        Ok(rest) => rest,
        Err(error) => {
            return Err(error);
        },
    };
    let ghost before = rest@;
    rest.insert(0, first);
    proof {
        lemma_trees_view(before);
        lemma_trees_view(rest@);
    }
    assert(trees_view(rest@) =~= seq![first@] + trees_view(before));
    Ok(rest)
}

/// The typed values of the first `count` trees of a list.
pub fn list_from_micheline(
    registry: &Registry,
    trees: Vec<Micheline>,
    count: usize,
    depth: usize,
) -> (values: Result<Vec<Michelson>, Error>)
    ensures
        nodes_result(values) == decode_list(
            registry@,
            trees_view(trees@),
            count as nat,
            depth as nat,
        ),
    decreases depth, 2nat, count,
{
    let mut trees = trees;
    let ghost all = trees@;
    proof {
        lemma_trees_view(all);
        lemma_nodes_view(Seq::empty());
    }
    if count == 0 {
        let none: Vec<Michelson> = Vec::new();
        assert(nodes_view(none@) =~= Seq::<MichelsonView>::empty());
        return Ok(none);
    }
    if trees.is_empty() {
        return Err(Error::InvalidPrimitiveApplication);
    }
    let first = trees.remove(0);
    proof {
        lemma_trees_view(trees@);
    }
    assert(trees_view(trees@) =~= trees_view(all).skip(1));
    let first = match Michelson::from_micheline(registry, first, depth) {
        Ok(first) => first,
        Err(error) => {
            return Err(error);
        },
    };
    let mut rest = match list_from_micheline(registry, trees, count - 1, depth) {
        Ok(rest) => rest,
        Err(error) => {
            return Err(error);
        },
    };
    let ghost before = rest@;
    rest.insert(0, first);
    proof {
        lemma_nodes_view(before);
        lemma_nodes_view(rest@);
    }
    assert(nodes_view(rest@) =~= seq![first@] + nodes_view(before));
    Ok(rest)
}

impl Michelson {
    /// The tree of this value: a sequence as it is, a node as its primitive
    /// application.
    pub fn to_micheline(self, depth: usize) -> (tree: Result<Micheline, Error>)
        ensures
            tree_result(tree) == encode(self@, depth as nat),
        decreases depth, 1nat, 0nat,
    {
        match self {
            Michelson::Sequence(trees) => Ok(Micheline::Sequence(trees)),
            Michelson::Node(node) => match node.to_application(depth) {
                Ok(application) => Ok(Micheline::PrimitiveApplication(application)),
                Err(error) => Err(error),
            },
        }
    }

    /// The typed value of a tree: a sequence as it is, without a look at
    /// the registry; a primitive application by the first schema of its
    /// name.
    pub fn from_micheline(registry: &Registry, tree: Micheline, depth: usize) -> (value: Result<
        Michelson,
        Error,
    >)
        ensures
            node_result(value) == decode(registry@, tree@, depth as nat),
        decreases depth, 1nat, 0nat,
    {
        match tree {
            Micheline::Sequence(trees) => Ok(Michelson::Sequence(trees)),
            Micheline::PrimitiveApplication(application) => match registry.find(
                &application.prim,
            ) {
                None => Err(Error::InvalidPrimitiveApplication),
                Some(place) => match TypedNode::from_application(
                    &registry.entries[place],
                    registry,
                    application,
                    depth,
                ) {
                    Ok(node) => Ok(Michelson::Node(node)),
                    Err(error) => Err(error),
                },
            },
            _ => Err(Error::InvalidPrimitiveApplication),
        }
    }
}

/// Whether a typed value is an instruction: a sequence, or a node of a
/// constructor of that category.
pub open spec fn is_instruction(value: MichelsonView) -> bool {
    match value {
        MichelsonView::Sequence(_) => true,
        MichelsonView::Node(node) => node.schema.category == Category::Instruction,
    }
}

/// Whether a typed value is plain data: a node of a constructor of that
/// category.
pub open spec fn is_data(value: MichelsonView) -> bool {
    match value {
        MichelsonView::Sequence(_) => false,
        MichelsonView::Node(node) => node.schema.category == Category::Data,
    }
}

/// A typed value that was found to be an instruction.
#[derive(Debug, PartialEq, Eq)]
pub enum Instruction {
    Sequence(Vec<Micheline>),
    Node(TypedNode),
}

impl View for Instruction {
    type V = MichelsonView;

    open spec fn view(&self) -> MichelsonView {
        match self {
            Instruction::Sequence(trees) => MichelsonView::Sequence(trees_view(trees@)),
            Instruction::Node(node) => MichelsonView::Node(node@),
        }
    }
}

impl Instruction {
    /// The instruction that `value` is; `InvalidMichelsonInstruction` where
    /// it is none.
    pub fn from_michelson(value: Michelson) -> (instruction: Result<Instruction, Error>)
        ensures
            match instruction {
                Ok(instruction) => is_instruction(value@) && instruction@ == value@,
                Err(error) => !is_instruction(value@) && error
                    == Error::InvalidMichelsonInstruction,
            },
    {
        match value {
            Michelson::Sequence(trees) => Ok(Instruction::Sequence(trees)),
            Michelson::Node(node) => match node.schema.category {
                Category::Instruction => Ok(Instruction::Node(node)),
                Category::Data => Err(Error::InvalidMichelsonInstruction),
            },
        }
    }

    /// The same value in the wide union.
    pub fn into_michelson(self) -> (value: Michelson)
        ensures
            value@ == self@,
    {
        match self {
            Instruction::Sequence(trees) => Michelson::Sequence(trees),
            Instruction::Node(node) => Michelson::Node(node),
        }
    }
}

/// A typed value that was found to be plain data.
#[derive(Debug, PartialEq, Eq)]
pub struct Data {
    pub node: TypedNode,
}

impl View for Data {
    type V = MichelsonView;

    open spec fn view(&self) -> MichelsonView {
        MichelsonView::Node(self.node@)
    }
}

impl Data {
    /// The data that `value` is; `InvalidMichelsonInstruction` where it is
    /// none.
    pub fn from_michelson(value: Michelson) -> (data: Result<Data, Error>)
        ensures
            match data {
                Ok(data) => is_data(value@) && data@ == value@,
                Err(error) => !is_data(value@) && error == Error::InvalidMichelsonInstruction,
            },
    {
        match value {
            Michelson::Sequence(_) => Err(Error::InvalidMichelsonInstruction),
            Michelson::Node(node) => match node.schema.category {
                Category::Data => Ok(Data { node }),
                Category::Instruction => Err(Error::InvalidMichelsonInstruction),
            },
        }
    }

    /// The same value in the wide union.
    pub fn into_michelson(self) -> (value: Michelson)
        ensures
            value@ == self@,
    {
        Michelson::Node(self.node)
    }
}

} // verus!
