//! What holds of the conversions between typed values and trees, for every
//! registry and every value.

use crate::error::Error;
use crate::micheline::MichelineView;
use crate::micheline::PrimitiveApplicationView;
use crate::michelson::arguments;
use crate::michelson::decode;
use crate::michelson::decode_list;
use crate::michelson::decode_node;
use crate::michelson::encode;
use crate::michelson::encode_list;
use crate::michelson::encode_node;
use crate::michelson::optional_tree;
use crate::michelson::MichelsonView;
use crate::michelson::TypedNodeView;
use crate::registry::find_schema;
use crate::registry::has_shape;
use crate::registry::have_shapes;
use crate::registry::SchemaView;
use vstd::prelude::*;

verus! {

/// Whether a typed value can be read back from its tree: it nests no deeper
/// than `depth`, and each node in it has the schema that the registry finds
/// under its name, holds the fields which that schema declares, each of
/// the shape declared, and does not leave the optional field out in front
/// of nested values.
pub open spec fn faithful(registry: Seq<SchemaView>, value: MichelsonView, depth: nat) -> bool
    decreases depth, 1nat,
{
    match value {
        MichelsonView::Sequence(_) => true,
        MichelsonView::Node(node) => faithful_node(registry, node, depth),
    }
}

/// Whether a typed node can be read back from its primitive application.
pub open spec fn faithful_node(registry: Seq<SchemaView>, node: TypedNodeView, depth: nat) -> bool
    decreases depth, 0nat,
{
    &&& depth > 0
    &&& match find_schema(registry, node.schema.name) {
        Some(place) => place < registry.len() && registry[place as int] == node.schema,
        None => false,
    }
    &&& node.required.len() == node.schema.required.len()
    &&& have_shapes(node.schema.required, node.required)
    &&& node.optional.is_some() ==> node.schema.optional.is_some() && has_shape(
        node.schema.optional.unwrap(),
        node.optional.unwrap(),
    )
    &&& node.schema.optional.is_some() && node.optional.is_none() ==> node.boxed.len() == 0
    &&& node.boxed.len() == node.schema.boxed
    &&& !node.schema.metadata ==> node.annotations.len() == 0
    &&& forall|i: int|
        0 <= i < node.boxed.len() ==> faithful(registry, #[trigger] node.boxed[i], (depth - 1) as nat)
}

/// A typed value that can be read back has a tree, and the tree converts to
/// the value again.
pub proof fn lemma_decode_encode(registry: Seq<SchemaView>, value: MichelsonView, depth: nat)
    requires
        faithful(registry, value, depth),
    ensures
        encode(value, depth).is_ok(),
        decode(registry, encode(value, depth).unwrap(), depth) == Ok::<MichelsonView, Error>(
            value,
        ),
    decreases depth, 1nat, 0nat,
{
    match value {
        MichelsonView::Sequence(_) => {},
        MichelsonView::Node(node) => {
            let below = (depth - 1) as nat;
            lemma_decode_encode_list(registry, node.boxed, below);
            let nested = encode_list(node.boxed, below).unwrap();
            let application = encode_node(node, depth).unwrap();
            let args = node.required + optional_tree(node.optional) + nested;
            assert(arguments(application) == args);
            let taken = node.schema.optional.is_some() && args.len() > node.schema.required.len();
            assert(taken == node.optional.is_some());
            let start = node.schema.required.len() + (if taken { 1nat } else { 0nat });
            assert(args.skip(start as int) =~= nested);
            assert(args.take(node.schema.required.len() as int) =~= node.required);
            let again = decode_node(registry, node.schema, application, depth);
            assert(again.is_ok());
            assert(again.unwrap().annotations =~= node.annotations);
            assert(again.unwrap() == node);
        },
    }
}

/// The same of a list of typed values, read back one for one.
pub proof fn lemma_decode_encode_list(
    registry: Seq<SchemaView>,
    values: Seq<MichelsonView>,
    depth: nat,
)
    requires
        forall|i: int| 0 <= i < values.len() ==> faithful(registry, #[trigger] values[i], depth),
    ensures
        encode_list(values, depth).is_ok(),
        encode_list(values, depth).unwrap().len() == values.len(),
        decode_list(registry, encode_list(values, depth).unwrap(), values.len(), depth) == Ok::<
            Seq<MichelsonView>,
            Error,
        >(values),
    decreases depth, 2nat, values.len(),
{
    if values.len() == 0 {
        assert(values =~= Seq::empty());
    } else {
        lemma_decode_encode(registry, values[0], depth);
        assert forall|i: int| 0 <= i < values.skip(1).len() implies faithful(
            registry,
            #[trigger] values.skip(1)[i],
            depth,
        ) by {
            assert(values.skip(1)[i] == values[i + 1]);
        }
        lemma_decode_encode_list(registry, values.skip(1), depth);
        let first = encode(values[0], depth).unwrap();
        let rest = encode_list(values.skip(1), depth).unwrap();
        let trees = seq![first] + rest;
        assert(trees.skip(1) =~= rest);
        assert(seq![values[0]] + values.skip(1) =~= values);
    }
}

/// A primitive application whose name is not the schema's is refused.
pub proof fn lemma_wrong_name(
    registry: Seq<SchemaView>,
    schema: SchemaView,
    application: PrimitiveApplicationView,
    depth: nat,
)
    requires
        application.prim != schema.name,
    ensures
        decode_node(registry, schema, application, depth) == Err::<TypedNodeView, Error>(
            Error::InvalidPrimitiveApplication,
        ),
{
}

/// A primitive application whose name the registry does not hold is
/// refused.
pub proof fn lemma_unknown_name(
    registry: Seq<SchemaView>,
    application: PrimitiveApplicationView,
    depth: nat,
)
    requires
        forall|i: int| 0 <= i < registry.len() ==> registry[i].name != application.prim,
    ensures
        decode(registry, MichelineView::PrimitiveApplication(application), depth) == Err::<
            MichelsonView,
            Error,
        >(Error::InvalidPrimitiveApplication),
{
    crate::registry::lemma_find_from(registry, application.prim, 0);
}

/// Fewer trees than values asked for give an error.
pub proof fn lemma_too_few_trees(
    registry: Seq<SchemaView>,
    trees: Seq<MichelineView>,
    count: nat,
    depth: nat,
)
    requires
        trees.len() < count,
    ensures
        decode_list(registry, trees, count, depth).is_err(),
    decreases count,
{
    if trees.len() > 0 {
        lemma_too_few_trees(registry, trees.skip(1), (count - 1) as nat, depth);
    }
}

/// A primitive application with fewer arguments than the schema has
/// required fields is refused as invalid; one with too few for the required
/// and the nested fields together is an error as well.
pub proof fn lemma_too_few_arguments(
    registry: Seq<SchemaView>,
    schema: SchemaView,
    application: PrimitiveApplicationView,
    depth: nat,
)
    requires
        application.prim == schema.name,
        depth > 0,
        arguments(application).len() < schema.required.len() + schema.boxed,
    ensures
        decode_node(registry, schema, application, depth).is_err(),
        arguments(application).len() < schema.required.len() ==> decode_node(
            registry,
            schema,
            application,
            depth,
        ) == Err::<TypedNodeView, Error>(Error::InvalidPrimitiveApplication),
{
    let args = arguments(application);
    if args.len() >= schema.required.len() {
        let taken = schema.optional.is_some() && args.len() > schema.required.len();
        let start = schema.required.len() + (if taken { 1nat } else { 0nat });
        lemma_too_few_trees(registry, args.skip(start as int), schema.boxed, (depth - 1) as nat);
    }
}

/// Trees behind the ones asked for change nothing.
pub proof fn lemma_extra_trees(
    registry: Seq<SchemaView>,
    trees: Seq<MichelineView>,
    extra: Seq<MichelineView>,
    count: nat,
    depth: nat,
)
    requires
        trees.len() >= count,
    ensures
        decode_list(registry, trees + extra, count, depth) == decode_list(
            registry,
            trees,
            count,
            depth,
        ),
    decreases count,
{
    if count > 0 {
        assert((trees + extra)[0] == trees[0]);
        assert((trees + extra).skip(1) =~= trees.skip(1) + extra);
        lemma_extra_trees(registry, trees.skip(1), extra, (count - 1) as nat, depth);
    }
}

/// Arguments behind those that the schema's fields take are ignored: with
/// them the primitive application converts to the same node, or fails with
/// the same error, as without them.
pub proof fn lemma_extra_arguments(
    registry: Seq<SchemaView>,
    schema: SchemaView,
    prim: Seq<char>,
    args: Seq<MichelineView>,
    extra: Seq<MichelineView>,
    annots: Option<Seq<Seq<char>>>,
    depth: nat,
)
    requires
        args.len() >= schema.required.len() + (if schema.optional.is_some() {
            1nat
        } else {
            0nat
        }) + schema.boxed,
    ensures
        decode_node(
            registry,
            schema,
            (PrimitiveApplicationView { prim, args: Some(args + extra), annots }),
            depth,
        ) == decode_node(
            registry,
            schema,
            (PrimitiveApplicationView { prim, args: Some(args), annots }),
            depth,
        ),
{
    if prim == schema.name && depth > 0 {
        let start = schema.required.len() + (if schema.optional.is_some() { 1nat } else { 0nat });
        assert((args + extra).skip(start as int) =~= args.skip(start as int) + extra);
        assert((args + extra).take(schema.required.len() as int) =~= args.take(
            schema.required.len() as int,
        ));
        if schema.optional.is_some() {
            assert((args + extra)[schema.required.len() as int] == args[schema.required.len() as int]);
        }
        lemma_extra_trees(
            registry,
            args.skip(start as int),
            extra,
            schema.boxed,
            (depth - 1) as nat,
        );
    }
}

/// A sequence converts to the sequence case whatever the registry holds
/// and whatever the depth allowed.
pub proof fn lemma_sequence_passes(
    registry: Seq<SchemaView>,
    trees: Seq<MichelineView>,
    depth: nat,
)
    ensures
        decode(registry, MichelineView::Sequence(trees), depth) == Ok::<MichelsonView, Error>(
            MichelsonView::Sequence(trees),
        ),
        encode(MichelsonView::Sequence(trees), depth) == Ok::<MichelineView, Error>(
            MichelineView::Sequence(trees),
        ),
{
}

/// Whether a typed value nests no deeper than `depth` typed nodes.
pub open spec fn nests_within(value: MichelsonView, depth: nat) -> bool
    decreases depth,
{
    match value {
        MichelsonView::Sequence(_) => true,
        MichelsonView::Node(node) => depth > 0 && forall|i: int|
            0 <= i < node.boxed.len() ==> nests_within(#[trigger] node.boxed[i], (depth - 1) as nat),
    }
}

/// Every typed value that nests no deeper than the depth allowed has a
/// tree; the only error on the way to a tree is that of the depth.
pub proof fn lemma_encode_outcome(value: MichelsonView, depth: nat)
    ensures
        match encode(value, depth) {
            Ok(_) => nests_within(value, depth),
            Err(error) => !nests_within(value, depth) && error == Error::DepthLimitExceeded,
        },
    decreases depth, 1nat, 0nat,
{
    match value {
        MichelsonView::Sequence(_) => {},
        MichelsonView::Node(node) => {
            if depth > 0 {
                lemma_encode_list_outcome(node.boxed, (depth - 1) as nat);
            }
        },
    }
}

/// The same of a list: it has trees, one for each value, exactly where
/// every value in it nests no deeper than the depth allowed.
pub proof fn lemma_encode_list_outcome(values: Seq<MichelsonView>, depth: nat)
    ensures
        match encode_list(values, depth) {
            Ok(trees) => trees.len() == values.len() && forall|i: int|
                0 <= i < values.len() ==> nests_within(#[trigger] values[i], depth),
            Err(error) => error == Error::DepthLimitExceeded && exists|i: int|
                0 <= i < values.len() && !nests_within(#[trigger] values[i], depth),
        },
    decreases depth, 2nat, values.len(),
{
    if values.len() > 0 {
        lemma_encode_outcome(values[0], depth);
        lemma_encode_list_outcome(values.skip(1), depth);
        let rest = values.skip(1);
        match encode(values[0], depth) {
            Err(_) => {},
            Ok(_) => match encode_list(rest, depth) {
                Ok(_) => {
                    assert forall|i: int| 0 <= i < values.len() implies nests_within(
                        #[trigger] values[i],
                        depth,
                    ) by {
                        if i > 0 {
                            assert(values[i] == rest[i - 1]);
                        }
                    }
                },
                Err(_) => {
                    let j = choose|j: int| 0 <= j < rest.len() && !nests_within(#[trigger] rest[j], depth);
                    assert(values[j + 1] == rest[j]);
                },
            },
        }
    }
}

} // verus!
