//! Graphs: operands and their descriptors, the constants that operands stand for, and the lists of
//! inputs and outputs.

use crate::data_type::{data_type_name, storage_length};
pub use crate::data_type::{
    pack_int4, pack_uint4, pack_uint4_from_i32, unpack_int4, unpack_uint4, DataType,
};
use crate::error::{Error, GraphBuilderError, GraphError};
use crate::operator_options::{MLDimension, MLDynamicDimension};
use crate::operators::Operation;
use crate::text::{
    bracket_list, bracketed, bracketed_text, debug_quoted, decimal, decimal_text, ints32,
    lined_list, lined_list_text, quoted, same_text, say, texts,
};
use std::collections::HashMap;
use vstd::hash_map::StringHashMap;
use vstd::prelude::*;

verus! {

broadcast use vstd::std_specs::hash::group_hash_axioms;

/// A dimension whose size is known only up to a bound.
#[derive(Debug, Clone, PartialEq, Eq, PartialOrd, Ord, Hash)]
pub struct DynamicDimension {
    pub name: String,
    pub max_size: u32,
}

/// One dimension of a tensor.
#[derive(Debug, PartialEq, Eq, PartialOrd, Ord, Hash)]
pub enum Dimension {
    Static(u32),
    Dynamic(DynamicDimension),
}

/// A dimension as contracts see it.
pub enum DimensionView {
    Static(u32),
    Dynamic { name: Seq<char>, max_size: u32 },
}

impl View for Dimension {
    type V = DimensionView;

    open spec fn view(&self) -> DimensionView {
        match *self {
            Dimension::Static(n) => DimensionView::Static(n),
            Dimension::Dynamic(d) => DimensionView::Dynamic { name: d.name@, max_size: d.max_size },
        }
    }
}

impl Clone for Dimension {
    fn clone(&self) -> (d: Dimension)
        ensures
            d@ == self@,
    {
        match self {
            Dimension::Static(n) => Dimension::Static(*n),
            Dimension::Dynamic(d) => Dimension::Dynamic(
                DynamicDimension { name: d.name.clone(), max_size: d.max_size },
            ),
        }
    }
}

/// The size of a dimension, or its bound where the size is not fixed.
pub open spec fn size_of_dim(d: Dimension) -> u32 {
    match d {
        Dimension::Static(n) => n,
        Dimension::Dynamic(d) => d.max_size,
    }
}

/// A shape of fixed sizes.
pub fn to_dimension_vector(shape: &[u32]) -> (v: Vec<Dimension>)
    ensures
        v@ == shape@.map_values(|n: u32| Dimension::Static(n)),
{
    let mut v: Vec<Dimension> = Vec::with_capacity(shape.len());
    let mut i: usize = 0;
    while i < shape.len()
        invariant
            i <= shape.len(),
            v@.len() == i,
            forall|k: int| 0 <= k < i ==> #[trigger] v@[k] == Dimension::Static(shape@[k]),
        decreases shape.len() - i,
    {
        v.push(Dimension::Static(shape[i]));
        i = i + 1;
    }
    assert(v@ =~= shape@.map_values(|n: u32| Dimension::Static(n)));
    v
}

/// The size of a dimension, or its bound where the size is not fixed.
pub fn get_static_or_max_size(dim: &Dimension) -> (n: u32)
    ensures
        n == size_of_dim(*dim),
{
    match dim {
        Dimension::Static(v) => *v,
        Dimension::Dynamic(d) => d.max_size,
    }
}

impl From<MLDimension> for Dimension {
    fn from(m: MLDimension) -> (d: Dimension) {
        match m {
            MLDimension::Static(n) => Dimension::Static(n),
            MLDimension::Dynamic(d) => Dimension::Dynamic(
                DynamicDimension { name: d.name, max_size: d.max_size },
            ),
        }
    }
}

impl vstd::std_specs::convert::FromSpecImpl<MLDimension> for Dimension {
    open spec fn obeys_from_spec() -> bool {
        true
    }

    open spec fn from_spec(m: MLDimension) -> Dimension {
        match m {
            MLDimension::Static(n) => Dimension::Static(n),
            MLDimension::Dynamic(d) => Dimension::Dynamic(
                DynamicDimension { name: d.name, max_size: d.max_size },
            ),
        }
    }
}

impl From<MLDynamicDimension> for DynamicDimension {
    fn from(d: MLDynamicDimension) -> (r: DynamicDimension) {
        DynamicDimension { name: d.name, max_size: d.max_size }
    }
}

impl vstd::std_specs::convert::FromSpecImpl<MLDynamicDimension> for DynamicDimension {
    open spec fn obeys_from_spec() -> bool {
        true
    }

    open spec fn from_spec(d: MLDynamicDimension) -> DynamicDimension {
        DynamicDimension { name: d.name, max_size: d.max_size }
    }
}

impl From<Dimension> for MLDimension {
    fn from(d: Dimension) -> (m: MLDimension) {
        match d {
            Dimension::Static(n) => MLDimension::Static(n),
            Dimension::Dynamic(d) => MLDimension::Dynamic(
                MLDynamicDimension { name: d.name, max_size: d.max_size },
            ),
        }
    }
}

impl vstd::std_specs::convert::FromSpecImpl<Dimension> for MLDimension {
    open spec fn obeys_from_spec() -> bool {
        true
    }

    open spec fn from_spec(d: Dimension) -> MLDimension {
        match d {
            Dimension::Static(n) => MLDimension::Static(n),
            Dimension::Dynamic(d) => MLDimension::Dynamic(
                MLDynamicDimension { name: d.name, max_size: d.max_size },
            ),
        }
    }
}

impl From<DynamicDimension> for MLDynamicDimension {
    fn from(d: DynamicDimension) -> (r: MLDynamicDimension) {
        MLDynamicDimension { name: d.name, max_size: d.max_size }
    }
}

impl vstd::std_specs::convert::FromSpecImpl<DynamicDimension> for MLDynamicDimension {
    open spec fn obeys_from_spec() -> bool {
        true
    }

    open spec fn from_spec(d: DynamicDimension) -> MLDynamicDimension {
        MLDynamicDimension { name: d.name, max_size: d.max_size }
    }
}

/// Converting a dimension to the form that options use and back gives the same dimension, with the
/// same size on the way.
pub proof fn dimension_round_trip(d: Dimension)
    ensures
        <Dimension as vstd::std_specs::convert::FromSpec<MLDimension>>::from_spec(
            <MLDimension as vstd::std_specs::convert::FromSpec<Dimension>>::from_spec(d),
        ) == d,
        crate::operator_options::ml_size(
            <MLDimension as vstd::std_specs::convert::FromSpec<Dimension>>::from_spec(d),
        ) == size_of_dim(d),
{
}

/// Whether graphs may have dimensions whose size is not fixed. The library is built without that.
pub fn dynamic_inputs_enabled() -> (b: bool)
    ensures
        !b,
{
    false
}

/// What is known of a tensor: its element type and its shape.
#[derive(Debug, Hash)]
pub struct OperandDescriptor {
    pub data_type: DataType,
    pub shape: Vec<Dimension>,
    pub pending_permutation: Vec<u32>,
}

/// A descriptor as contracts see it.
pub struct DescriptorView {
    pub data_type: DataType,
    pub shape: Seq<DimensionView>,
    pub pending_permutation: Seq<u32>,
}

impl View for OperandDescriptor {
    type V = DescriptorView;

    open spec fn view(&self) -> DescriptorView {
        DescriptorView {
            data_type: self.data_type,
            shape: self.shape@.map_values(|d: Dimension| d@),
            pending_permutation: self.pending_permutation@,
        }
    }
}

/// The sizes of a shape, each bounded by its maximum where it is not fixed.
pub open spec fn max_sizes(shape: Seq<Dimension>) -> Seq<u32> {
    shape.map_values(|d: Dimension| size_of_dim(d))
}

/// The product of sizes, where it and every product along the way fit in `usize`.
pub open spec fn checked_product(sizes: Seq<u32>) -> Option<nat>
    decreases sizes.len(),
{
    if sizes.len() == 0 {
        Some(1)
    } else {
        match checked_product(sizes.drop_last()) {
            Some(n) => if n * sizes.last() <= usize::MAX {
                Some((n * sizes.last()) as nat)
            } else {
                None
            },
            None => None,
        }
    }
}

/// Whether a shape has a dimension whose size is not fixed.
pub open spec fn is_dynamic(shape: Seq<Dimension>) -> bool {
    exists|i: int| 0 <= i < shape.len() && #[trigger] shape[i] is Dynamic
}

/// The text of one dimension in messages.
pub open spec fn dimension_text(d: Dimension) -> Seq<char> {
    match d {
        Dimension::Static(n) => "Static("@ + decimal(n as nat) + ")"@,
        Dimension::Dynamic(d) => "Dynamic(DynamicDimension { name: "@ + debug_quoted(d.name@)
            + ", max_size: "@ + decimal(d.max_size as nat) + " })"@,
    }
}

/// The text of a descriptor in messages.
pub open spec fn descriptor_text(d: OperandDescriptor) -> Seq<char> {
    "OperandDescriptor { data_type: "@ + data_type_name(d.data_type) + ", shape: "@ + bracketed(
        d.shape@.map_values(|x: Dimension| dimension_text(x)),
    ) + ", pending_permutation: "@ + bracket_list(ints32(d.pending_permutation@)) + " }"@
}

impl Dimension {
    fn debug_text(&self) -> (s: String)
        ensures
            s@ == dimension_text(*self),
    {
        match self {
            Dimension::Static(n) => say("Static(").num32(*n).str(")").text,
            Dimension::Dynamic(d) => say("Dynamic(DynamicDimension { name: ").str(
                quoted(d.name.as_str()).as_str(),
            ).str(", max_size: ").num32(d.max_size).str(" })").text,
        }
    }
}

impl Clone for OperandDescriptor {
    fn clone(&self) -> (d: OperandDescriptor)
        ensures
            d@ == self@,
    {
        let mut shape: Vec<Dimension> = Vec::with_capacity(self.shape.len());
        let mut i: usize = 0;
        while i < self.shape.len()
            invariant
                i <= self.shape.len(),
                shape@.len() == i,
                forall|k: int| 0 <= k < i ==> #[trigger] shape@[k]@ == self.shape@[k]@,
            decreases self.shape.len() - i,
        {
            shape.push(self.shape[i].clone());
            i = i + 1;
        }
        let d = OperandDescriptor {
            data_type: self.data_type,
            shape,
            pending_permutation: self.pending_permutation.clone(),
        };
        proof {
            assert(d@.shape =~= self@.shape);
            assert(d@.pending_permutation =~= self@.pending_permutation);
        }
        d
    }
}

impl OperandDescriptor {
    /// Whether a dimension has no fixed size.
    pub fn has_dynamic_dimensions(&self) -> (b: bool)
        ensures
            b == is_dynamic(self.shape@),
    {
        let mut i: usize = 0;
        while i < self.shape.len()
            invariant
                i <= self.shape.len(),
                forall|k: int| 0 <= k < i ==> #[trigger] self.shape@[k] !is Dynamic,
            decreases self.shape.len() - i,
        {
            match &self.shape[i] {
                Dimension::Dynamic(_) => {
                    assert(self.shape@[i as int] is Dynamic);
                    return true;
                },
                Dimension::Static(_) => {},
            }
            i = i + 1;
        }
        false
    }

    /// The sizes of a shape that has only fixed ones.
    pub fn static_shape(&self) -> (sizes: Option<Vec<u32>>)
        ensures
            sizes is Some <==> !is_dynamic(self.shape@),
            sizes matches Some(v) ==> v@ == max_sizes(self.shape@),
    {
        let mut sizes: Vec<u32> = Vec::with_capacity(self.shape.len());
        let mut i: usize = 0;
        while i < self.shape.len()
            invariant
                i <= self.shape.len(),
                sizes@.len() == i,
                forall|k: int|
                    0 <= k < i ==> #[trigger] self.shape@[k] !is Dynamic && sizes@[k]
                        == size_of_dim(self.shape@[k]),
            decreases self.shape.len() - i,
        {
            match &self.shape[i] {
                Dimension::Static(v) => sizes.push(*v),
                Dimension::Dynamic(_) => {
                    assert(self.shape@[i as int] is Dynamic);
                    return None;
                },
            }
            i = i + 1;
        }
        assert(sizes@ =~= max_sizes(self.shape@));
        Some(sizes)
    }

    /// The sizes of the shape, each bounded by its maximum where it is not fixed.
    pub fn static_or_max_shape(&self) -> (sizes: Vec<u32>)
        ensures
            sizes@ == max_sizes(self.shape@),
    {
        let mut sizes: Vec<u32> = Vec::with_capacity(self.shape.len());
        let mut i: usize = 0;
        while i < self.shape.len()
            invariant
                i <= self.shape.len(),
                sizes@.len() == i,
                forall|k: int| 0 <= k < i ==> #[trigger] sizes@[k] == size_of_dim(self.shape@[k]),
            decreases self.shape.len() - i,
        {
            sizes.push(get_static_or_max_size(&self.shape[i]));
            i = i + 1;
        }
        assert(sizes@ =~= max_sizes(self.shape@));
        sizes
    }

    /// The number of elements, or none where a product along the shape overflows.
    pub fn element_count(&self) -> (count: Option<usize>)
        ensures
            count matches Some(n) ==> checked_product(max_sizes(self.shape@)) == Some(n as nat),
            count is None <==> checked_product(max_sizes(self.shape@)) is None,
    {
        let mut count: usize = 1;
        let mut i: usize = 0;
        let ghost sizes = max_sizes(self.shape@);
        while i < self.shape.len()
            invariant
                i <= self.shape.len(),
                sizes == max_sizes(self.shape@),
                checked_product(sizes.take(i as int)) == Some(count as nat),
            decreases self.shape.len() - i,
        {
            let size: usize = get_static_or_max_size(&self.shape[i]) as usize;
            proof {
                assert(sizes.take(i + 1).drop_last() =~= sizes.take(i as int));
            }
            match count.checked_mul(size) {
                Some(next) => {
                    count = next;
                },
                None => {
                    proof {
                        overflow_stays(sizes, i + 1);
                    }
                    return None;
                },
            }
            i = i + 1;
        }
        proof {
            assert(sizes.take(sizes.len() as int) =~= sizes);
        }
        Some(count)
    }

    /// The bytes that hold the elements, or none where a count overflows.
    pub fn byte_length(&self) -> (length: Option<usize>)
        ensures
            length matches Some(n) ==> byte_length_of(*self) == Some(n as nat),
            length is None <==> byte_length_of(*self) is None,
    {
        let elements: usize = self.element_count()?;
        self.data_type.storage_byte_length(elements)
    }

    /// The descriptor as messages show it.
    pub fn debug_text(&self) -> (s: String)
        ensures
            s@ == descriptor_text(*self),
    {
        let mut parts: Vec<String> = Vec::with_capacity(self.shape.len());
        let mut i: usize = 0;
        while i < self.shape.len()
            invariant
                i <= self.shape.len(),
                parts@.len() == i,
                forall|k: int| 0 <= k < i ==> #[trigger] parts@[k]@ == dimension_text(self.shape@[k]),
            decreases self.shape.len() - i,
        {
            parts.push(self.shape[i].debug_text());
            i = i + 1;
        }
        proof {
            assert(texts(parts@) =~= self.shape@.map_values(|x: Dimension| dimension_text(x)));
        }
        say("OperandDescriptor { data_type: ").str(self.data_type.name()).str(", shape: ").str(
            bracketed_text(&parts).as_str(),
        ).str(", pending_permutation: ").list32(&self.pending_permutation).str(" }").text
    }
}

/// The bytes that hold the elements of a tensor.
pub open spec fn byte_length_of(d: OperandDescriptor) -> Option<nat> {
    match checked_product(max_sizes(d.shape@)) {
        Some(n) => storage_length(d.data_type, n),
        None => None,
    }
}

/// Once a product has overflowed, it stays so.
proof fn overflow_stays(sizes: Seq<u32>, i: int)
    requires
        0 <= i <= sizes.len(),
        checked_product(sizes.take(i)) is None,
    ensures
        checked_product(sizes) is None,
    decreases sizes.len() - i,
{
    if i == sizes.len() {
        assert(sizes.take(i) =~= sizes);
    } else {
        assert(sizes.take(i + 1).drop_last() =~= sizes.take(i));
        overflow_stays(sizes, i + 1);
    }
}

/// Where the sizes of a shape are fixed, both ways of reading the shape agree.
pub proof fn static_shape_agrees(shape: Seq<Dimension>, i: int)
    requires
        !is_dynamic(shape),
        0 <= i < shape.len(),
    ensures
        shape[i] == Dimension::Static(max_sizes(shape)[i]),
{
    assert(shape[i] !is Dynamic);
}

/// What an operand is to its graph.
#[derive(Debug, Clone, Copy, PartialEq, Eq, Structural, Hash)]
pub enum OperandKind {
    Input,
    Constant,
    Output,
    /// A value between two operations. Graphs need not list these.
    Intermediate,
}

/// A tensor of a graph.
#[derive(Debug, Clone, Hash)]
pub struct Operand {
    pub kind: OperandKind,
    pub descriptor: OperandDescriptor,
    pub name: Option<String>,
}

/// The name of an operand kind.
pub open spec fn operand_kind_name(kind: OperandKind) -> Seq<char> {
    match kind {
        OperandKind::Input => "Input"@,
        OperandKind::Constant => "Constant"@,
        OperandKind::Output => "Output"@,
        OperandKind::Intermediate => "Intermediate"@,
    }
}

/// The text of one dimension on lines of its own, as part of an operand.
pub open spec fn dimension_listing(d: Dimension) -> Seq<char> {
    match d {
        Dimension::Static(n) => "Static(\n                "@ + decimal(n as nat) + ",\n            )"@,
        Dimension::Dynamic(d) =>
            "Dynamic(\n                DynamicDimension {\n                    name: "@
            + debug_quoted(d.name@) + ",\n                    max_size: "@ + decimal(d.max_size as nat)
            + ",\n                },\n            )"@,
    }
}

/// The text of a name on lines of its own, as part of an operand.
pub open spec fn name_listing(name: Option<String>) -> Seq<char> {
    match name {
        Some(s) => "Some(\n        "@ + debug_quoted(s@) + ",\n    )"@,
        None => "None"@,
    }
}

/// The text of an operand in messages, with each part on a line of its own.
pub open spec fn operand_listing(o: Operand) -> Seq<char> {
    "Operand {\n    kind: "@ + operand_kind_name(o.kind)
        + ",\n    descriptor: OperandDescriptor {\n        data_type: "@ + data_type_name(
        o.descriptor.data_type,
    ) + ",\n        shape: "@ + lined_list(
        o.descriptor.shape@.map_values(|x: Dimension| dimension_listing(x)),
        "            "@,
        "        "@,
    ) + ",\n        pending_permutation: "@ + lined_list(
        o.descriptor.pending_permutation@.map_values(|a: u32| decimal(a as nat)),
        "            "@,
        "        "@,
    ) + ",\n    },\n    name: "@ + name_listing(o.name) + ",\n}"@
}

impl OperandKind {
    /// The name of the kind.
    pub fn name(self) -> (s: &'static str)
        ensures
            s@ == operand_kind_name(self),
    {
        match self {
            OperandKind::Input => "Input",
            OperandKind::Constant => "Constant",
            OperandKind::Output => "Output",
            OperandKind::Intermediate => "Intermediate",
        }
    }
}

impl Dimension {
    fn debug_listing(&self) -> (s: String)
        ensures
            s@ == dimension_listing(*self),
    {
        match self {
            Dimension::Static(n) => say("Static(\n                ").num32(*n).str(
                ",\n            )",
            ).text,
            Dimension::Dynamic(d) => say(
                "Dynamic(\n                DynamicDimension {\n                    name: ",
            ).str(quoted(d.name.as_str()).as_str()).str(
                ",\n                    max_size: ",
            ).num32(d.max_size).str(",\n                },\n            )").text,
        }
    }
}

impl Operand {
    /// The operand as messages show it, with each part on a line of its own.
    pub fn debug_listing(&self) -> (s: String)
        ensures
            s@ == operand_listing(*self),
    {
        let shape = &self.descriptor.shape;
        let axes = &self.descriptor.pending_permutation;
        let mut sizes: Vec<String> = Vec::with_capacity(shape.len());
        let mut i: usize = 0;
        while i < shape.len()
            invariant
                i <= shape.len(),
                sizes@.len() == i,
                forall|k: int| 0 <= k < i ==> #[trigger] sizes@[k]@ == dimension_listing(shape@[k]),
            decreases shape.len() - i,
        {
            sizes.push(shape[i].debug_listing());
            i = i + 1;
        }
        let mut order: Vec<String> = Vec::with_capacity(axes.len());
        let mut i: usize = 0;
        while i < axes.len()
            invariant
                i <= axes.len(),
                order@.len() == i,
                forall|k: int| 0 <= k < i ==> #[trigger] order@[k]@ == decimal(axes@[k] as nat),
            decreases axes.len() - i,
        {
            order.push(decimal_text(axes[i] as u64));
            i = i + 1;
        }
        proof {
            assert(texts(sizes@) =~= shape@.map_values(|x: Dimension| dimension_listing(x)));
            assert(texts(order@) =~= axes@.map_values(|a: u32| decimal(a as nat)));
        }
        let name = match &self.name {
            Some(s) => say("Some(\n        ").str(quoted(s.as_str()).as_str()).str(
                ",\n    )",
            ).text,
            None => say("None").text,
        };
        say("Operand {\n    kind: ").str(self.kind.name()).str(
            ",\n    descriptor: OperandDescriptor {\n        data_type: ",
        ).str(self.descriptor.data_type.name()).str(",\n        shape: ").str(
            lined_list_text(&sizes, "            ", "        ").as_str(),
        ).str(",\n        pending_permutation: ").str(
            lined_list_text(&order, "            ", "        ").as_str(),
        ).str(",\n    },\n    name: ").str(name.as_str()).str(",\n}").text
    }
}

/// Bytes at an address.
#[derive(Debug, Clone)]
pub struct UrlRef {
    pub etag: String,
    pub url: String,
    pub offset: u64,
    pub len: u64,
    pub label: Option<String>,
}

/// Bytes held by the graph.
#[derive(Debug, Clone)]
pub struct ConstantData {
    pub data: Vec<u8>,
    pub label: Option<String>,
}

/// Bytes in a file.
#[derive(Debug, Clone)]
pub struct FileRef {
    pub path: String,
    pub offset: usize,
    pub len: usize,
    pub label: Option<String>,
}

/// Bytes at an offset of a store that the context knows.
#[derive(Debug, Clone)]
pub struct OffsetRef {
    pub offset: usize,
    pub len: usize,
    pub label: Option<String>,
}

/// Bytes that the context knows by a number.
#[derive(Debug, Clone)]
pub struct IdRef {
    pub id: u64,
    pub label: Option<String>,
}

/// Bytes that the context knows by a name.
#[derive(Debug, Clone)]
pub struct StringRef {
    pub label: String,
}

/// Where the bytes of a constant are.
#[allow(inconsistent_fields)]
#[derive(Debug, Clone)]
pub enum ConstantReference {
    OwnedData(ConstantData),
    UrlRef(UrlRef),
    FileRef(FileRef),
    OffsetRef(OffsetRef),
    StringRef(StringRef),
    IdRef(IdRef),
    Zeroed,
    /// Zero bytes at an offset of their own, for backends in which two constants must not share
    /// their memory.
    ZeroedUniquePtr { offset: u64 },
    Missing,
}

/// The text of a label in messages.
pub open spec fn label_text(label: Option<String>) -> Seq<char> {
    match label {
        Some(s) => "Some("@ + debug_quoted(s@) + ")"@,
        None => "None"@,
    }
}

/// The text of a constant reference in messages.
pub open spec fn constant_reference_text(c: ConstantReference) -> Seq<char> {
    match c {
        ConstantReference::OwnedData(d) => "OwnedData(ConstantData { data: "@ + bracket_list(
            d.data@.map_values(|b: u8| b as int),
        ) + ", label: "@ + label_text(d.label) + " })"@,
        ConstantReference::UrlRef(u) => "UrlRef(UrlRef { etag: "@ + debug_quoted(u.etag@)
            + ", url: "@ + debug_quoted(u.url@) + ", offset: "@ + decimal(u.offset as nat)
            + ", len: "@ + decimal(u.len as nat) + ", label: "@ + label_text(u.label) + " })"@,
        ConstantReference::FileRef(f) => "FileRef(FileRef { path: "@ + debug_quoted(f.path@)
            + ", offset: "@ + decimal(f.offset as nat) + ", len: "@ + decimal(f.len as nat)
            + ", label: "@ + label_text(f.label) + " })"@,
        ConstantReference::OffsetRef(o) => "OffsetRef(OffsetRef { offset: "@ + decimal(
            o.offset as nat,
        ) + ", len: "@ + decimal(o.len as nat) + ", label: "@ + label_text(o.label) + " })"@,
        ConstantReference::StringRef(s) => "StringRef(StringRef { label: "@ + debug_quoted(
            s.label@,
        ) + " })"@,
        ConstantReference::IdRef(r) => "IdRef(IdRef { id: "@ + decimal(r.id as nat) + ", label: "@
            + label_text(r.label) + " })"@,
        ConstantReference::Zeroed => "Zeroed"@,
        ConstantReference::ZeroedUniquePtr { offset } => "ZeroedUniquePtr { offset: "@ + decimal(
            offset as nat,
        ) + " }"@,
        ConstantReference::Missing => "Missing"@,
    }
}

fn label_debug_text(label: &Option<String>) -> (s: String)
    ensures
        s@ == label_text(*label),
{
    match label {
        Some(s) => say("Some(").str(quoted(s.as_str()).as_str()).str(")").text,
        None => say("None").text,
    }
}

fn widened(v: &Vec<u8>) -> (w: Vec<i64>)
    ensures
        crate::text::ints(w@) == v@.map_values(|b: u8| b as int),
{
    let mut w: Vec<i64> = Vec::with_capacity(v.len());
    let mut i: usize = 0;
    while i < v.len()
        invariant
            i <= v.len(),
            w@.len() == i,
            forall|k: int| 0 <= k < i ==> #[trigger] w@[k] == v@[k],
        decreases v.len() - i,
    {
        w.push(v[i] as i64);
        i = i + 1;
    }
    assert(crate::text::ints(w@) =~= v@.map_values(|b: u8| b as int));
    w
}

impl ConstantReference {
    /// The bytes, where the graph holds them.
    pub fn as_owned_data(&self) -> (d: Option<&ConstantData>)
        ensures
            d == (match *self {
                ConstantReference::OwnedData(data) => Some(&data),
                _ => None,
            }),
    {
        match self {
            ConstantReference::OwnedData(data) => Some(data),
            _ => None,
        }
    }

    /// Whether the reference is `Zeroed`.
    #[must_use]
    pub fn is_zeroed(&self) -> (b: bool)
        ensures
            b == (*self is Zeroed),
    {
        matches!(self, ConstantReference::Zeroed)
    }

    /// The offset, where the reference is `ZeroedUniquePtr`.
    pub fn as_zeroed_unique_ptr(&self) -> (o: Option<&u64>)
        ensures
            o == (match *self {
                ConstantReference::ZeroedUniquePtr { offset } => Some(&offset),
                _ => None,
            }),
    {
        if let ConstantReference::ZeroedUniquePtr { offset } = self {
            Some(offset)
        } else {
            None
        }
    }

    /// Whether the reference is `ZeroedUniquePtr`.
    #[must_use]
    pub fn is_zeroed_unique_ptr(&self) -> (b: bool)
        ensures
            b == (*self is ZeroedUniquePtr),
    {
        matches!(self, ConstantReference::ZeroedUniquePtr { .. })
    }

    /// The number, where the reference is `IdRef`.
    pub fn as_id_ref(&self) -> (r: Option<&IdRef>)
        ensures
            r == (match *self {
                ConstantReference::IdRef(v) => Some(&v),
                _ => None,
            }),
    {
        if let ConstantReference::IdRef(v) = self {
            Some(v)
        } else {
            None
        }
    }

    /// Whether the reference is `IdRef`.
    #[must_use]
    pub fn is_id_ref(&self) -> (b: bool)
        ensures
            b == (*self is IdRef),
    {
        matches!(self, ConstantReference::IdRef(..))
    }

    /// The reference as messages show it.
    pub fn debug_text(&self) -> (s: String)
        ensures
            s@ == constant_reference_text(*self),
    {
        let m = match self {
            ConstantReference::OwnedData(d) => say("OwnedData(ConstantData { data: ").list(
                &widened(&d.data),
            ).str(", label: ").str(label_debug_text(&d.label).as_str()).str(" })"),
            ConstantReference::UrlRef(u) => say("UrlRef(UrlRef { etag: ").str(
                quoted(u.etag.as_str()).as_str(),
            ).str(", url: ").str(quoted(u.url.as_str()).as_str()).str(", offset: ").num64(
                u.offset,
            ).str(", len: ").num64(u.len).str(", label: ").str(
                label_debug_text(&u.label).as_str(),
            ).str(" })"),
            ConstantReference::FileRef(f) => say("FileRef(FileRef { path: ").str(
                quoted(f.path.as_str()).as_str(),
            ).str(", offset: ").num(f.offset).str(", len: ").num(f.len).str(", label: ").str(
                label_debug_text(&f.label).as_str(),
            ).str(" })"),
            ConstantReference::OffsetRef(o) => say("OffsetRef(OffsetRef { offset: ").num(
                o.offset,
            ).str(", len: ").num(o.len).str(", label: ").str(
                label_debug_text(&o.label).as_str(),
            ).str(" })"),
            ConstantReference::StringRef(s) => say("StringRef(StringRef { label: ").str(
                quoted(s.label.as_str()).as_str(),
            ).str(" })"),
            ConstantReference::IdRef(r) => say("IdRef(IdRef { id: ").num64(r.id).str(
                ", label: ",
            ).str(label_debug_text(&r.label).as_str()).str(" })"),
            ConstantReference::Zeroed => say("Zeroed"),
            ConstantReference::ZeroedUniquePtr { offset } => say(
                "ZeroedUniquePtr { offset: ",
            ).num64(*offset).str(" }"),
            ConstantReference::Missing => say("Missing"),
        };
        m.text
    }
}

/// Where the bytes of constants come from. Users implement it for the references that only they
/// can follow.
pub trait WeightsContext<'context> {
    /// What may come of resolving a reference: the state of the context afterwards, and the bytes
    /// or the error.
    spec fn allows(
        before: Self,
        constant_ref: &ConstantReference,
        descriptor: &OperandDescriptor,
        id: u32,
        after: Self,
        result: Result<&'context [u8], Error>,
    ) -> bool where Self: Sized;

    /// The bytes of a constant with the descriptor `descriptor` and the operand number `id`.
    fn resolve(
        &mut self,
        constant_ref: &'context ConstantReference,
        descriptor: &OperandDescriptor,
        id: u32,
    ) -> (r: Result<&'context [u8], Error>) where Self: Sized
        ensures
            Self::allows(*old(self), constant_ref, descriptor, id, *final(self), r),
    ;
}

/// The context that knows the bytes that the graph holds and, where it is given one, a block of
/// zeros.
pub struct DefaultWeightsContext<'context> {
    /// A block of zero bytes, or none where it could not be had.
    pub zero_map: Option<&'context [u8]>,
}

/// What a range of a block of zeros is: the bytes, or why it cannot be had.
pub open spec fn zeroed_memory_is(
    map: Option<&[u8]>,
    offset: usize,
    len: usize,
    r: Result<&[u8], Error>,
) -> bool {
    match map {
        None => r == Err::<&[u8], Error>(
            Error::GraphBuilderError {
                source: GraphBuilderError::FailedToGetZeroMap { offset, len },
            },
        ),
        Some(m) => if offset + len > m@.len() {
            exists|map_size: usize|
                map_size == m@.len() && r == Err::<&[u8], Error>(
                    #[trigger] zero_map_too_big(offset, len, map_size),
                )
        } else {
            r matches Ok(bytes) && bytes@ == m@.subrange(offset as int, offset + len)
        },
    }
}

/// The error for a range that does not lie in the block of zeros.
pub open spec fn zero_map_too_big(offset: usize, len: usize, map_size: usize) -> Error {
    Error::GraphBuilderError {
        source: GraphBuilderError::ZeroMapTooBig { offset, len, map_size },
    }
}

/// `len` bytes at `offset` of the block of zeros `map`.
pub fn get_zeroed_memory<'a>(map: Option<&'a [u8]>, offset: usize, len: usize) -> (r: Result<
    &'a [u8],
    Error,
>)
    ensures
        zeroed_memory_is(map, offset, len, r),
{
    match map {
        None => Err(
            Error::GraphBuilderError {
                source: GraphBuilderError::FailedToGetZeroMap { offset, len },
            },
        ),
        Some(m) => {
            let map_size: usize = m.len();
            let too_big = GraphBuilderError::ZeroMapTooBig { offset, len, map_size };
            match offset.checked_add(len) {
                None => {
                    assert(zero_map_too_big(offset, len, map_size) == Error::GraphBuilderError {
                        source: too_big,
                    });
                    Err(Error::GraphBuilderError { source: too_big })
                },
                Some(end) => {
                    if end > map_size {
                        assert(zero_map_too_big(offset, len, map_size) == Error::GraphBuilderError {
                            source: too_big,
                        });
                        Err(Error::GraphBuilderError { source: too_big })
                    } else {
                        Ok(vstd::slice::slice_subrange(m, offset, end))
                    }
                },
            }
        },
    }
}

/// What the default context makes of a constant.
pub open spec fn default_resolution(
    zero_map: Option<&[u8]>,
    constant: ConstantReference,
    descriptor: OperandDescriptor,
    id: u32,
    r: Result<&[u8], Error>,
) -> bool {
    match constant {
        ConstantReference::OwnedData(d) => r matches Ok(bytes) && bytes@ == d.data@,
        ConstantReference::Zeroed => zeros_for(zero_map, 0, descriptor, id, r),
        ConstantReference::ZeroedUniquePtr { offset } => zeros_for(
            zero_map,
            offset as usize,
            descriptor,
            id,
            r,
        ),
        _ => r matches Err(Error::GraphBuilderError {
            source: GraphBuilderError::UnresolvedConstant { id: i, constant_ref },
        }) && i == id && constant_ref == constant,
    }
}

/// The zeros for a constant with the descriptor `descriptor`, from `offset` on.
pub open spec fn zeros_for(
    zero_map: Option<&[u8]>,
    offset: usize,
    descriptor: OperandDescriptor,
    id: u32,
    r: Result<&[u8], Error>,
) -> bool {
    match byte_length_of(descriptor) {
        Some(n) => zeroed_memory_is(zero_map, offset, n as usize, r),
        None => r matches Err(Error::GraphBuilderError {
            source: GraphBuilderError::RequestedConstantDataForDynamicallyShapedConstant {
                id: i,
                desc,
            },
        }) && i == id && desc@ == descriptor@,
    }
}

impl<'context> DefaultWeightsContext<'context> {
    fn zeros(
        &self,
        offset: usize,
        descriptor: &OperandDescriptor,
        id: u32,
    ) -> (r: Result<&'context [u8], Error>)
        ensures
            zeros_for(self.zero_map, offset, *descriptor, id, r),
    {
        match descriptor.byte_length() {
            Some(len) => get_zeroed_memory(self.zero_map, offset, len),
            None => Err(
                Error::GraphBuilderError {
                    source:
                        GraphBuilderError::RequestedConstantDataForDynamicallyShapedConstant {
                        id,
                        desc: descriptor.clone(),
                    },
                },
            ),
        }
    }
}

impl<'context> WeightsContext<'context> for DefaultWeightsContext<'context> {
    open spec fn allows(
        before: Self,
        constant_ref: &ConstantReference,
        descriptor: &OperandDescriptor,
        id: u32,
        after: Self,
        result: Result<&'context [u8], Error>,
    ) -> bool {
        &&& after == before
        &&& default_resolution(before.zero_map, *constant_ref, *descriptor, id, result)
    }

    fn resolve(
        &mut self,
        constant_ref: &'context ConstantReference,
        descriptor: &OperandDescriptor,
        id: u32,
    ) -> (r: Result<&'context [u8], Error>) {
        match constant_ref {
            ConstantReference::OwnedData(d) => Ok(d.data.as_slice()),
            ConstantReference::Zeroed => self.zeros(0, descriptor, id),
            ConstantReference::ZeroedUniquePtr { offset } => self.zeros(
                *offset as usize,
                descriptor,
                id,
            ),
            _ => Err(
                Error::GraphBuilderError {
                    source: GraphBuilderError::UnresolvedConstant {
                        id,
                        constant_ref: constant_ref.copied(),
                    },
                },
            ),
        }
    }
}

fn copied_label(label: &Option<String>) -> (c: Option<String>)
    ensures
        c == *label,
{
    match label {
        Some(s) => Some(s.clone()),
        None => None,
    }
}

impl ConstantReference {
    /// Whether two references are the same in every field.
    pub open spec fn same_as(self, other: ConstantReference) -> bool {
        match (self, other) {
            (ConstantReference::OwnedData(a), ConstantReference::OwnedData(b)) => a.data@ == b.data@
                && a.label == b.label,
            _ => self == other,
        }
    }

    /// A copy of the reference, the same in every field.
    pub fn copied(&self) -> (c: ConstantReference)
        ensures
            c.same_as(*self),
    {
        match self {
            ConstantReference::OwnedData(d) => {
                let data = d.data.clone();
                assert(data@ =~= d.data@);
                ConstantReference::OwnedData(ConstantData { data, label: copied_label(&d.label) })
            },
            ConstantReference::UrlRef(u) => ConstantReference::UrlRef(
                UrlRef {
                    etag: u.etag.clone(),
                    url: u.url.clone(),
                    offset: u.offset,
                    len: u.len,
                    label: copied_label(&u.label),
                },
            ),
            ConstantReference::FileRef(f) => ConstantReference::FileRef(
                FileRef {
                    path: f.path.clone(),
                    offset: f.offset,
                    len: f.len,
                    label: copied_label(&f.label),
                },
            ),
            ConstantReference::OffsetRef(o) => ConstantReference::OffsetRef(
                OffsetRef { offset: o.offset, len: o.len, label: copied_label(&o.label) },
            ),
            ConstantReference::StringRef(s) => ConstantReference::StringRef(
                StringRef { label: s.label.clone() },
            ),
            ConstantReference::IdRef(r) => ConstantReference::IdRef(
                IdRef { id: r.id, label: copied_label(&r.label) },
            ),
            ConstantReference::Zeroed => ConstantReference::Zeroed,
            ConstantReference::ZeroedUniquePtr { offset } => ConstantReference::ZeroedUniquePtr {
                offset: *offset,
            },
            ConstantReference::Missing => ConstantReference::Missing,
        }
    }
}

/// A graph: its operands, the operations on them, and the constants.
#[derive(Debug, Clone)]
pub struct GraphInfo {
    pub operands: Vec<Operand>,
    pub input_operands: Vec<u32>,
    pub output_operands: Vec<u32>,
    pub operations: Vec<Operation>,
    pub constant_operand_ids_to_handles: HashMap<u32, ConstantReference>,
    pub id_to_constant_tensor_operand_map: HashMap<u32, String>,
    pub quantized: bool,
}

impl Default for GraphInfo {
    fn default() -> (g: GraphInfo)
        ensures
            g.operands@ == Seq::<Operand>::empty(),
            g.input_operands@ == Seq::<u32>::empty(),
            g.output_operands@ == Seq::<u32>::empty(),
            g.operations@ == Seq::<Operation>::empty(),
            g.constant_operand_ids_to_handles@ == Map::<u32, ConstantReference>::empty(),
            g.id_to_constant_tensor_operand_map@ == Map::<u32, String>::empty(),
            !g.quantized,
    {
        GraphInfo {
            operands: Vec::new(),
            input_operands: Vec::new(),
            output_operands: Vec::new(),
            operations: Vec::new(),
            constant_operand_ids_to_handles: HashMap::new(),
            id_to_constant_tensor_operand_map: HashMap::new(),
            quantized: false,
        }
    }
}

/// The operands of kind `kind` among the first `n`, by their numbers, in order.
pub open spec fn ids_of_kind(operands: Seq<Operand>, kind: OperandKind, n: nat) -> Seq<u32>
    decreases n,
{
    if n == 0 {
        seq![]
    } else {
        let before = ids_of_kind(operands, kind, (n - 1) as nat);
        if operands[n - 1].kind == kind {
            before.push((n - 1) as u32)
        } else {
            before
        }
    }
}

impl GraphInfo {
    /// The constant at `id` and its descriptor, where the graph has both.
    pub open spec fn has_constant(self, id: u32) -> bool {
        self.constant_operand_ids_to_handles@.contains_key(id) && id < self.operands@.len()
    }

    /// The bytes of the constant `id`, as far as the graph and a block of zeros hold them.
    pub fn constant_data<'a>(&'a self, id: u32, zero_map: Option<&'a [u8]>) -> (r: Result<
        &'a [u8],
        Error,
    >)
        ensures
            !self.has_constant(id) ==> r == Err::<&[u8], Error>(
                Error::GraphBuilderError { source: GraphBuilderError::MissingConstantId { id } },
            ),
            self.has_constant(id) ==> default_resolution(
                zero_map,
                self.constant_operand_ids_to_handles@[id],
                self.operands@[id as int].descriptor,
                id,
                r,
            ),
    {
        let mut context = DefaultWeightsContext { zero_map };
        self.resolve_constant(id, &mut context)
    }

    /// Adds a constant operand and gives its number.
    pub fn add_constant_reference(
        &mut self,
        descriptor: OperandDescriptor,
        reference: ConstantReference,
        name: Option<String>,
    ) -> (r: Result<u32, Error>)
        ensures
            old(self).operands@.len() > u32::MAX ==> {
                &&& r matches Err(Error::GraphConversionError {
                    source: GraphError::TooManyOperands { count },
                }) && count == old(self).operands@.len()
                &&& *final(self) == *old(self)
            },
            old(self).operands@.len() <= u32::MAX ==> {
                &&& r == Ok::<u32, Error>(old(self).operands@.len() as u32)
                &&& final(self).operands@ == old(self).operands@.push(
                    Operand { kind: OperandKind::Constant, descriptor, name },
                )
                &&& final(self).constant_operand_ids_to_handles@ == old(
                    self,
                ).constant_operand_ids_to_handles@.insert(
                    old(self).operands@.len() as u32,
                    reference,
                )
                &&& final(self).input_operands == old(self).input_operands
                &&& final(self).output_operands == old(self).output_operands
                &&& final(self).operations == old(self).operations
                &&& final(self).id_to_constant_tensor_operand_map == old(
                    self,
                ).id_to_constant_tensor_operand_map
                &&& final(self).quantized == old(self).quantized
            },
    {
        let count: usize = self.operands.len();
        if count > 0xFFFF_FFFF {
            return Err(
                Error::GraphConversionError { source: GraphError::TooManyOperands { count } },
            );
        }
        let id: u32 = count as u32;
        self.operands.push(Operand { kind: OperandKind::Constant, descriptor, name });
        self.constant_operand_ids_to_handles.insert(id, reference);
        Ok(id)
    }

    /// The bytes of the constant `id`, as `context` resolves it.
    pub fn resolve_constant<'context, C: WeightsContext<'context>>(
        &'context self,
        id: u32,
        context: &mut C,
    ) -> (r: Result<&'context [u8], Error>)
        ensures
            !self.has_constant(id) ==> {
                &&& r == Err::<&[u8], Error>(
                    Error::GraphBuilderError {
                        source: GraphBuilderError::MissingConstantId { id },
                    },
                )
                &&& *final(context) == *old(context)
            },
            self.has_constant(id) ==> C::allows(
                *old(context),
                &self.constant_operand_ids_to_handles@[id],
                &self.operands@[id as int].descriptor,
                id,
                *final(context),
                r,
            ),
    {
        match self.constant_operand_ids_to_handles.get(&id) {
            None => Err(
                Error::GraphBuilderError { source: GraphBuilderError::MissingConstantId { id } },
            ),
            Some(constant) => {
                if (id as usize) < self.operands.len() {
                    context.resolve(constant, &self.operands[id as usize].descriptor, id)
                } else {
                    Err(
                        Error::GraphBuilderError {
                            source: GraphBuilderError::MissingConstantId { id },
                        },
                    )
                }
            },
        }
    }

    /// The operand with the number `id`.
    pub fn operand(&self, id: u32) -> (o: Option<&Operand>)
        ensures
            o == (if id < self.operands@.len() {
                Some(&self.operands@[id as int])
            } else {
                None
            }),
    {
        if (id as usize) < self.operands.len() {
            Some(&self.operands[id as usize])
        } else {
            None
        }
    }

    /// Whether an operand has a dimension without a fixed size.
    pub open spec fn is_dynamic(self) -> bool {
        exists|i: int|
            0 <= i < self.operands@.len() && is_dynamic(
                (#[trigger] self.operands@[i]).descriptor.shape@,
            )
    }

    /// Whether an operand has a dimension without a fixed size.
    pub fn has_dynamic_dimensions(&self) -> (b: bool)
        ensures
            b == self.is_dynamic(),
    {
        let mut i: usize = 0;
        while i < self.operands.len()
            invariant
                i <= self.operands.len(),
                forall|k: int|
                    0 <= k < i ==> !is_dynamic((#[trigger] self.operands@[k]).descriptor.shape@),
            decreases self.operands.len() - i,
        {
            if self.operands[i].descriptor.has_dynamic_dimensions() {
                assert(is_dynamic(self.operands@[i as int].descriptor.shape@));
                return true;
            }
            i = i + 1;
        }
        false
    }

    /// The operands of kind `kind`, by their numbers, in order.
    fn operands_of_kind(&self, kind: OperandKind) -> (ids: Vec<u32>)
        ensures
            ids@ == ids_of_kind(self.operands@, kind, self.operands@.len()),
    {
        let mut ids: Vec<u32> = Vec::new();
        let mut i: usize = 0;
        while i < self.operands.len()
            invariant
                i <= self.operands.len(),
                ids@ == ids_of_kind(self.operands@, kind, i as nat),
            decreases self.operands.len() - i,
        {
            if self.operands[i].kind == kind {
                ids.push(i as u32);
            }
            i = i + 1;
        }
        ids
    }

    /// Whether the lists of inputs and outputs are those of the operands of these kinds.
    pub open spec fn lists_agree(self) -> bool {
        &&& self.input_operands@ == ids_of_kind(
            self.operands@,
            OperandKind::Input,
            self.operands@.len(),
        )
        &&& self.output_operands@ == ids_of_kind(
            self.operands@,
            OperandKind::Output,
            self.operands@.len(),
        )
    }

    /// What `validate_io_operand_lists` finds.
    pub open spec fn io_lists_result(self, r: Result<(), GraphError>) -> bool {
        let inputs = ids_of_kind(self.operands@, OperandKind::Input, self.operands@.len());
        let outputs = ids_of_kind(self.operands@, OperandKind::Output, self.operands@.len());
        if inputs != self.input_operands@ {
            r matches Err(GraphError::InputIdListMismatch { input_ids, input_ids_in_operands })
                && input_ids@ == self.input_operands@ && input_ids_in_operands@ == inputs
        } else if outputs != self.output_operands@ {
            r matches Err(GraphError::OutputIdListMismatch { output_ids, output_ids_in_operands })
                && output_ids@ == self.output_operands@ && output_ids_in_operands@ == outputs
        } else {
            r is Ok
        }
    }

    /// Ensures `input_operands` / `output_operands` match operands tagged as graph I/O.
    pub fn validate_io_operand_lists(&self) -> (r: Result<(), GraphError>)
        ensures
            self.io_lists_result(r),
    {
        let derived_inputs = self.operands_of_kind(OperandKind::Input);
        let derived_outputs = self.operands_of_kind(OperandKind::Output);
        if !same_ids(&derived_inputs, &self.input_operands) {
            let input_ids = self.input_operands.clone();
            assert(input_ids@ =~= self.input_operands@);
            return Err(
                GraphError::InputIdListMismatch {
                    input_ids,
                    input_ids_in_operands: derived_inputs,
                },
            );
        }
        if !same_ids(&derived_outputs, &self.output_operands) {
            let output_ids = self.output_operands.clone();
            assert(output_ids@ =~= self.output_operands@);
            return Err(
                GraphError::OutputIdListMismatch {
                    output_ids,
                    output_ids_in_operands: derived_outputs,
                },
            );
        }
        Ok(())
    }
}

/// What stops the operands of a list from being bound by name.
pub enum BindingProblem {
    /// The operand has no name, or an empty one.
    Unnamed(u32),
    /// An earlier operand has the same name.
    Duplicate(Seq<char>),
}

/// The name of an operand, where it has one that is not empty.
pub open spec fn binding_name(o: Operand) -> Option<Seq<char>> {
    match o.name {
        Some(s) => if s@.len() > 0 {
            Some(s@)
        } else {
            None
        },
        None => None,
    }
}

/// The descriptors of the first `n` operands of a list, by name, or the first problem.
pub open spec fn bindings(operands: Seq<Operand>, ids: Seq<u32>, n: nat) -> Result<
    Map<Seq<char>, DescriptorView>,
    BindingProblem,
>
    decreases n,
{
    if n == 0 {
        Ok(Map::empty())
    } else {
        match bindings(operands, ids, (n - 1) as nat) {
            Err(problem) => Err(problem),
            Ok(before) => {
                let operand = operands[ids[n - 1] as int];
                match binding_name(operand) {
                    None => Err(BindingProblem::Unnamed(ids[n - 1])),
                    Some(name) => if before.contains_key(name) {
                        Err(BindingProblem::Duplicate(name))
                    } else {
                        Ok(before.insert(name, operand.descriptor@))
                    },
                }
            },
        }
    }
}

/// Once a list has a problem, it keeps it.
proof fn problem_stays(operands: Seq<Operand>, ids: Seq<u32>, i: nat, n: nat)
    requires
        i <= n,
        bindings(operands, ids, i) is Err,
    ensures
        bindings(operands, ids, n) == bindings(operands, ids, i),
    decreases n - i,
{
    if i < n {
        problem_stays(operands, ids, i, (n - 1) as nat);
    }
}

/// The operands of a kind are operands of the graph.
proof fn ids_in_range(operands: Seq<Operand>, kind: OperandKind, n: nat, k: int)
    requires
        n <= operands.len() <= usize::MAX,
        0 <= k < ids_of_kind(operands, kind, n).len(),
    ensures
        ids_of_kind(operands, kind, n)[k] < operands.len(),
    decreases n,
{
    let before = ids_of_kind(operands, kind, (n - 1) as nat);
    let last = (n - 1) as usize;
    assert(last as u32 <= last) by (bit_vector);
    if k < before.len() {
        ids_in_range(operands, kind, (n - 1) as nat, k);
    }
}

/// The descriptors of a map as contracts see them.
pub open spec fn map_view(m: Map<Seq<char>, OperandDescriptor>) -> Map<Seq<char>, DescriptorView> {
    m.map_values(|d: OperandDescriptor| d@)
}

/// Named input/output operands for `MLGraph` dispatch.
pub type IoBindingMaps = (StringHashMap<OperandDescriptor>, StringHashMap<OperandDescriptor>);

impl GraphInfo {
    /// Binds the operands of a list by name. Where one cannot be bound, the result is its number,
    /// with its name where the name is taken.
    fn bind(&self, ids: &Vec<u32>) -> (r: Result<
        StringHashMap<OperandDescriptor>,
        (u32, Option<String>),
    >)
        requires
            forall|k: int| 0 <= k < ids@.len() ==> #[trigger] ids@[k] < self.operands@.len(),
        ensures
            r matches Ok(m) ==> bindings(self.operands@, ids@, ids@.len()) == Ok::<
                Map<Seq<char>, DescriptorView>,
                BindingProblem,
            >(map_view(m@)),
            r matches Err((id, None)) ==> bindings(self.operands@, ids@, ids@.len()) == Err::<
                Map<Seq<char>, DescriptorView>,
                BindingProblem,
            >(BindingProblem::Unnamed(id)),
            r matches Err((_, Some(name))) ==> bindings(self.operands@, ids@, ids@.len()) == Err::<
                Map<Seq<char>, DescriptorView>,
                BindingProblem,
            >(BindingProblem::Duplicate(name@)),
    {
        let mut m: StringHashMap<OperandDescriptor> = StringHashMap::new();
        let mut i: usize = 0;
        proof {
            assert(map_view(m@) =~= Map::<Seq<char>, DescriptorView>::empty());
        }
        while i < ids.len()
            invariant
                i <= ids.len(),
                forall|k: int| 0 <= k < ids@.len() ==> #[trigger] ids@[k] < self.operands@.len(),
                bindings(self.operands@, ids@, i as nat) == Ok::<
                    Map<Seq<char>, DescriptorView>,
                    BindingProblem,
                >(map_view(m@)),
            decreases ids.len() - i,
        {
            let id: u32 = ids[i];
            let operand = &self.operands[id as usize];
            match &operand.name {
                None => {
                    proof {
                        problem_stays(self.operands@, ids@, (i + 1) as nat, ids@.len());
                    }
                    return Err((id, None));
                },
                Some(name) => {
                    if same_text(name.as_str(), "") {
                        proof {
                            reveal_strlit("");
                            problem_stays(self.operands@, ids@, (i + 1) as nat, ids@.len());
                        }
                        return Err((id, None));
                    }
                    proof {
                        reveal_strlit("");
                        if name@.len() == 0 {
                            assert(name@ =~= ""@);
                        }
                    }
                    if m.contains_key(name.as_str()) {
                        proof {
                            problem_stays(self.operands@, ids@, (i + 1) as nat, ids@.len());
                        }
                        return Err((id, Some(name.clone())));
                    }
                    let ghost before = m@;
                    m.insert(name.clone(), operand.descriptor.clone());
                    proof {
                        assert(map_view(m@) =~= map_view(before).insert(
                            name@,
                            operand.descriptor@,
                        ));
                    }
                },
            }
            i = i + 1;
        }
        Ok(m)
    }

    /// What `io_binding_maps` gives.
    pub open spec fn io_maps_result(self, r: Result<IoBindingMaps, GraphError>) -> bool {
        if !self.lists_agree() {
            r matches Err(e) && self.io_lists_result(Err(e))
        } else {
            match bindings(self.operands@, self.input_operands@, self.input_operands@.len()) {
                Err(BindingProblem::Unnamed(id)) => r matches Err(GraphError::MissingInputName {
                    operand,
                }) && operand == id,
                Err(BindingProblem::Duplicate(n)) => r matches Err(GraphError::DuplicateInputName {
                    name,
                }) && name@ == n,
                Ok(inputs) => match bindings(
                    self.operands@,
                    self.output_operands@,
                    self.output_operands@.len(),
                ) {
                    Err(BindingProblem::Unnamed(id)) => r matches Err(
                        GraphError::MissingOutputName { operand },
                    ) && operand == id,
                    Err(BindingProblem::Duplicate(n)) => r matches Err(
                        GraphError::DuplicateOutputName { name },
                    ) && name@ == n,
                    Ok(outputs) => r matches Ok((i, o)) && map_view(i@) == inputs && map_view(o@)
                        == outputs,
                },
            }
        }
    }

    /// Named input/output operands for `MLGraph` dispatch, after list consistency checks.
    pub fn io_binding_maps(&self) -> (r: Result<IoBindingMaps, GraphError>)
        ensures
            self.io_maps_result(r),
    {
        match self.validate_io_operand_lists() {
            Err(e) => {
                return Err(e);
            },
            Ok(()) => {},
        }
        let count: usize = self.operands.len();
        proof {
            let n = count as nat;
            assert forall|k: int| 0 <= k < self.input_operands@.len() implies #[trigger]
                self.input_operands@[k] < n by {
                ids_in_range(self.operands@, OperandKind::Input, n, k);
            }
            assert forall|k: int| 0 <= k < self.output_operands@.len() implies #[trigger]
                self.output_operands@[k] < n by {
                ids_in_range(self.operands@, OperandKind::Output, n, k);
            }
        }
        let inputs = match self.bind(&self.input_operands) {
            Ok(m) => m,
            Err((operand, None)) => {
                return Err(GraphError::MissingInputName { operand });
            },
            Err((_, Some(name))) => {
                return Err(GraphError::DuplicateInputName { name });
            },
        };
        let outputs = match self.bind(&self.output_operands) {
            Ok(m) => m,
            Err((operand, None)) => {
                return Err(GraphError::MissingOutputName { operand });
            },
            Err((_, Some(name))) => {
                return Err(GraphError::DuplicateOutputName { name });
            },
        };
        Ok((inputs, outputs))
    }
}

/// Whether two lists of numbers are the same.
pub fn same_ids(a: &Vec<u32>, b: &Vec<u32>) -> (r: bool)
    ensures
        r == (a@ == b@),
{
    if a.len() != b.len() {
        return false;
    }
    let mut i: usize = 0;
    while i < a.len()
        invariant
            i <= a.len(),
            a@.len() == b@.len(),
            forall|k: int| 0 <= k < i ==> a@[k] == b@[k],
        decreases a.len() - i,
    {
        if a[i] != b[i] {
            return false;
        }
        i = i + 1;
    }
    assert(a@ =~= b@);
    true
}

/// Where the operands of a list can be bound, each is bound by its own name to its own descriptor,
/// and no two have the same name.
pub proof fn bindings_are_by_name(operands: Seq<Operand>, ids: Seq<u32>, n: nat, k: int)
    requires
        bindings(operands, ids, n) is Ok,
        0 <= k < n,
    ensures
        binding_name(operands[ids[k] as int]) is Some,
        bindings(operands, ids, n)->Ok_0.contains_key(
            binding_name(operands[ids[k] as int])->0,
        ),
        bindings(operands, ids, n)->Ok_0[binding_name(operands[ids[k] as int])->0]
            == operands[ids[k] as int].descriptor@,
        forall|j: int|
            0 <= j < n && j != k ==> binding_name(operands[#[trigger] ids[j] as int])
                != binding_name(operands[ids[k] as int]),
    decreases n,
{
    let before = (n - 1) as nat;
    assert forall|j: int| 0 <= j < before implies binding_name(
        operands[#[trigger] ids[j] as int],
    ) != binding_name(operands[ids[n - 1] as int]) by {
        bindings_are_by_name(operands, ids, before, j);
    }
    if k < before {
        bindings_are_by_name(operands, ids, before, k);
    }
}

/// The operands of a kind are listed in ascending order, each once, and no others.
pub proof fn kind_list_is_exact(operands: Seq<Operand>, kind: OperandKind, n: nat)
    requires
        n <= operands.len(),
        n <= 0x1_0000_0000,
    ensures
        forall|i: int, j: int|
            0 <= i < j < ids_of_kind(operands, kind, n).len() ==> ids_of_kind(operands, kind, n)[i]
                < ids_of_kind(operands, kind, n)[j],
        forall|id: u32| #[trigger]
            ids_of_kind(operands, kind, n).contains(id) <==> id < n && operands[id as int].kind
                == kind,
    decreases n,
{
    if n > 0 {
        let before = ids_of_kind(operands, kind, (n - 1) as nat);
        let list = ids_of_kind(operands, kind, n);
        kind_list_is_exact(operands, kind, (n - 1) as nat);
        assert forall|i: int| 0 <= i < before.len() implies #[trigger] before[i] < n - 1 by {
            assert(before.contains(before[i]));
        }
        assert forall|id: u32| #[trigger] list.contains(id) <==> id < n && operands[id as int].kind
            == kind by {
            if operands[n - 1].kind == kind {
                assert(list.last() == (n - 1) as u32);
                assert(before.contains(id) ==> list.contains(id)) by {
                    if before.contains(id) {
                        let i = before.index_of(id);
                        assert(list[i] == id);
                    }
                }
                assert(list.contains(id) ==> before.contains(id) || id == n - 1) by {
                    if list.contains(id) {
                        let i = list.index_of(id);
                        if i < before.len() {
                            assert(before[i] == id);
                        }
                    }
                }
            }
        }
    }
}

/// A constant that was added is read back: the bytes that the graph was given are the bytes that
/// it has for the new operand. The constants from before stay as they were.
pub proof fn added_constant_is_read_back(
    before: GraphInfo,
    after: GraphInfo,
    descriptor: OperandDescriptor,
    data: ConstantData,
    name: Option<String>,
    zero_map: Option<&[u8]>,
    r: Result<&[u8], Error>,
)
    requires
        before.operands@.len() <= u32::MAX,
        after.operands@ == before.operands@.push(
            Operand { kind: OperandKind::Constant, descriptor, name },
        ),
        after.constant_operand_ids_to_handles@ == before.constant_operand_ids_to_handles@.insert(
            before.operands@.len() as u32,
            ConstantReference::OwnedData(data),
        ),
        default_resolution(
            zero_map,
            after.constant_operand_ids_to_handles@[before.operands@.len() as u32],
            after.operands@[before.operands@.len() as int].descriptor,
            before.operands@.len() as u32,
            r,
        ),
    ensures
        after.has_constant(before.operands@.len() as u32),
        r is Ok && r->Ok_0@ == data.data@,
        forall|id: u32|
            #![trigger after.has_constant(id)]
            before.has_constant(id) ==> {
                &&& after.has_constant(id)
                &&& after.constant_operand_ids_to_handles@[id]
                    == before.constant_operand_ids_to_handles@[id]
                &&& after.operands@[id as int] == before.operands@[id as int]
            },
{
}

} // verus!
