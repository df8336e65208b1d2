//! The registry of typed constructors: one schema for each instruction and
//! data constructor, found by its primitive name.

use crate::micheline::Micheline;
use crate::micheline::MichelineView;
use vstd::prelude::*;

verus! {

/// The shape that a schema asks of the tree of a field.
#[derive(Debug, Clone, Copy, PartialEq, Eq, Structural)]
pub enum FieldKind {
    /// Any tree.
    Any,
    /// An integer literal.
    Int,
    /// An integer literal that is not below zero.
    Natural,
    /// A string literal.
    String,
    /// A byte literal.
    Bytes,
    /// A primitive application.
    Application,
    /// A sequence.
    Sequence,
}

/// Whether a tree has the shape that a field asks for.
pub open spec fn has_shape(kind: FieldKind, tree: MichelineView) -> bool {
    match kind {
        FieldKind::Any => true,
        FieldKind::Int => tree is Int,
        FieldKind::Natural => tree is Int && tree->Int_0 >= 0,
        FieldKind::String => tree is String,
        FieldKind::Bytes => tree is Bytes,
        FieldKind::Application => tree is PrimitiveApplication,
        FieldKind::Sequence => tree is Sequence,
    }
}

/// Whether the first trees have, one for one, the shapes that the fields
/// ask for.
pub open spec fn have_shapes(kinds: Seq<FieldKind>, trees: Seq<MichelineView>) -> bool {
    forall|i: int| 0 <= i < kinds.len() && i < trees.len() ==> has_shape(kinds[i], #[trigger] trees[i])
}

impl FieldKind {
    /// Whether `tree` has this shape.
    pub fn admits(&self, tree: &Micheline) -> (fits: bool)
        ensures
            fits == has_shape(*self, tree@),
    {
        match self {
            FieldKind::Any => true,
            FieldKind::Int => match tree {
                Micheline::Int(_) => true,
                _ => false,
            },
            FieldKind::Natural => match tree {
                Micheline::Int(value) => !value.negative(),
                _ => false,
            },
            FieldKind::String => match tree {
                Micheline::String(_) => true,
                _ => false,
            },
            FieldKind::Bytes => match tree {
                Micheline::Bytes(_) => true,
                _ => false,
            },
            FieldKind::Application => match tree {
                Micheline::PrimitiveApplication(_) => true,
                _ => false,
            },
            FieldKind::Sequence => match tree {
                Micheline::Sequence(_) => true,
                _ => false,
            },
        }
    }
}

/// The narrower union to which a constructor belongs.
#[derive(Debug, Clone, Copy, PartialEq, Eq, Structural)]
pub enum Category {
    Instruction,
    Data,
}

/// The shape of one constructor: its tag on the wire, its primitive name,
/// the shapes of its required fields in order, the shape of the one
/// optional field that may follow them, how many nested typed values come
/// last, and whether it carries annotations.
#[derive(Debug, PartialEq, Eq)]
pub struct Schema {
    pub tag: u8,
    pub name: String,
    pub category: Category,
    pub required: Vec<FieldKind>,
    pub optional: Option<FieldKind>,
    pub boxed: usize,
    pub metadata: bool,
}

/// What a schema holds.
pub struct SchemaView {
    pub tag: u8,
    pub name: Seq<char>,
    pub category: Category,
    pub required: Seq<FieldKind>,
    pub optional: Option<FieldKind>,
    pub boxed: nat,
    pub metadata: bool,
}

impl View for Schema {
    type V = SchemaView;

    open spec fn view(&self) -> SchemaView {
        SchemaView {
            tag: self.tag,
            name: self.name@,
            category: self.category,
            required: self.required@,
            optional: self.optional,
            boxed: self.boxed as nat,
            metadata: self.metadata,
        }
    }
}

impl Schema {
    /// A schema with the given parts.
    pub fn new(
        tag: u8,
        name: String,
        category: Category,
        required: Vec<FieldKind>,
        optional: Option<FieldKind>,
        boxed: usize,
        metadata: bool,
    ) -> (schema: Schema)
        ensures
            schema@ == (SchemaView {
                tag,
                name: name@,
                category,
                required: required@,
                optional,
                boxed: boxed as nat,
                metadata,
            }),
    {
        Schema { tag, name, category, required, optional, boxed, metadata }
    }

    /// A second schema with the same parts.
    pub fn duplicate(&self) -> (copy: Schema)
        ensures
            copy@ == self@,
    {
        let mut required: Vec<FieldKind> = Vec::new();
        let mut i: usize = 0;
        while i < self.required.len()
            invariant
                i <= self.required@.len(),
                required@ == self.required@.take(i as int),
            decreases self.required@.len() - i,
        {
            required.push(self.required[i]);
            assert(required@ =~= self.required@.take(i + 1));
            i += 1;
        }
        assert(required@ =~= self.required@);
        Schema {
            tag: self.tag,
            name: self.name.clone(),
            category: self.category,
            required,
            optional: self.optional,
            boxed: self.boxed,
            metadata: self.metadata,
        }
    }
}

/// The views of the schemas of a list, in order.
pub open spec fn schemas_view(schemas: Seq<Schema>) -> Seq<SchemaView> {
    Seq::new(schemas.len(), |i: int| schemas[i]@)
}

/// The place of the first schema at or behind `start` that has the name
/// `name`, if there is one.
pub open spec fn find_from(schemas: Seq<SchemaView>, name: Seq<char>, start: nat) -> Option<nat>
    decreases schemas.len() - start,
{
    if start >= schemas.len() {
        None
    } else if schemas[start as int].name == name {
        Some(start)
    } else {
        find_from(schemas, name, start + 1)
    }
}

/// The place of the first schema with the name `name`, if there is one.
pub open spec fn find_schema(schemas: Seq<SchemaView>, name: Seq<char>) -> Option<nat> {
    find_from(schemas, name, 0)
}

/// What is found is in the list, has the name, and is the first to have it;
/// where nothing is found, no schema has the name.
pub proof fn lemma_find_from(schemas: Seq<SchemaView>, name: Seq<char>, start: nat)
    ensures
        match find_from(schemas, name, start) {
            Some(place) => start <= place < schemas.len() && schemas[place as int].name == name
                && forall|j: int| start <= j < place ==> schemas[j].name != name,
            None => forall|j: int| start <= j < schemas.len() ==> schemas[j].name != name,
        },
    decreases schemas.len() - start,
{
    if start < schemas.len() && schemas[start as int].name != name {
        lemma_find_from(schemas, name, start + 1);
    }
}

/// Whether no two schemas of a list share a name.
pub open spec fn distinct_names(schemas: Seq<SchemaView>) -> bool {
    forall|i: int, j: int|
        0 <= i < j < schemas.len() ==> (#[trigger] schemas[i]).name != (#[trigger] schemas[j]).name
}

/// In a list in which no two schemas share a name, every schema is the one
/// found under its name.
pub proof fn lemma_found_by_name(schemas: Seq<SchemaView>, place: nat)
    requires
        distinct_names(schemas),
        place < schemas.len(),
    ensures
        find_schema(schemas, schemas[place as int].name) == Some(place),
{
    lemma_find_from(schemas, schemas[place as int].name, 0);
}

/// The constructors that a conversion knows, in the order in which their
/// names are tried.
#[derive(Debug, PartialEq, Eq)]
pub struct Registry {
    pub entries: Vec<Schema>,
}

impl View for Registry {
    type V = Seq<SchemaView>;

    open spec fn view(&self) -> Seq<SchemaView> {
        schemas_view(self.entries@)
    }
}

impl Registry {
    /// A registry of the given schemas.
    pub fn new(entries: Vec<Schema>) -> (registry: Registry)
        ensures
            registry@ == schemas_view(entries@),
    {
        Registry { entries }
    }

    /// Whether no two schemas of the registry share a name.
    pub fn has_distinct_names(&self) -> (distinct: bool)
        ensures
            distinct == distinct_names(self@),
    {
        let mut j: usize = 0;
        while j < self.entries.len()
            invariant
                j <= self.entries@.len(),
                forall|a: int, b: int|
                    0 <= a < b < j ==> (#[trigger] self@[a]).name != (#[trigger] self@[b]).name,
            decreases self.entries@.len() - j,
        {
            let mut i: usize = 0;
            while i < j
                invariant
                    i <= j,
                    j < self.entries@.len(),
                    forall|a: int| 0 <= a < i ==> (#[trigger] self@[a]).name != self@[j as int].name,
                decreases j - i,
            {
                if self.entries[i].name == self.entries[j].name {
                    assert(self@[i as int].name == self@[j as int].name);
                    return false;
                }
                i += 1;
            }
            j += 1;
        }
        true
    }

    /// The place of the first schema whose name is `name`; `None` where no
    /// schema has that name.
    pub fn find(&self, name: &String) -> (place: Option<usize>)
        ensures
            match place {
                Some(i) => find_schema(self@, name@) == Some(i as nat) && i < self.entries@.len(),
                None => find_schema(self@, name@).is_none(),
            },
    {
        let mut i: usize = 0;
        while i < self.entries.len()
            invariant
                i <= self.entries@.len(),
                find_schema(self@, name@) == find_from(self@, name@, i as nat),
            decreases self.entries@.len() - i,
        {
            if self.entries[i].name == *name {
                return Some(i);
            }
            i += 1;
        }
        None
    }
}

} // verus!
