//! Vertex attribute layouts and the attribute pointers derived from them.
use vstd::prelude::*;

use crate::render::{data_type_size, GlDataType};

verus! {

/// One vertex attribute: its component type, its number of components and
/// whether fixed-point components are normalized.
#[derive(Clone, Copy, Debug, PartialEq, Eq, Structural)]
pub struct AttributeDescription {
    pub kind: GlDataType,
    pub number: usize,
    pub normalized: bool,
}

/// The bytes one attribute occupies in a vertex: its component size times
/// its number of components.
pub open spec fn extent(a: AttributeDescription) -> nat {
    data_type_size(a.kind) * (a.number as nat)
}

/// The bytes the first `i` attributes occupy together, which is where
/// attribute `i` starts in a vertex.
pub open spec fn prefix_extent(attrs: Seq<AttributeDescription>, i: int) -> nat
    decreases i,
{
    if i <= 0 {
        0
    } else {
        prefix_extent(attrs, i - 1) + extent(attrs[i - 1])
    }
}

/// The abstract content of a layout: its attributes in order and the stride
/// it declares.
pub struct LayoutView {
    pub attributes: Seq<AttributeDescription>,
    pub stride: nat,
}

impl LayoutView {
    /// This layout with `desc` appended and the stride grown by `grow`.
    pub open spec fn with(self, desc: AttributeDescription, grow: nat) -> LayoutView {
        LayoutView { attributes: self.attributes.push(desc), stride: self.stride + grow }
    }

    /// The stride equals the bytes all attributes occupy: consecutive
    /// vertices are packed without gaps or overlap.
    pub open spec fn packed(self) -> bool {
        self.stride == prefix_extent(self.attributes, self.attributes.len() as int)
    }
}

/// The layout of the attributes of one vertex, built attribute by attribute.
pub struct AttributeLayout {
    attributes: Vec<AttributeDescription>,
    stride: usize,
}

impl View for AttributeLayout {
    type V = LayoutView;

    closed spec fn view(&self) -> LayoutView {
        LayoutView { attributes: self.attributes@, stride: self.stride as nat }
    }
}

/// What the renderer hands to the driver for one attribute of a vertex
/// array: the attribute index, its component count and type, whether it is
/// normalized, the layout's stride and the byte offset of the attribute.
#[derive(Clone, Copy, Debug, PartialEq, Eq, Structural)]
pub struct AttribPointer {
    pub index: usize,
    pub size: usize,
    pub kind: GlDataType,
    pub normalized: bool,
    pub stride: usize,
    pub offset: usize,
}

/// The pointer for attribute `i` of layout `l`.
pub open spec fn pointer_of(l: LayoutView, i: int) -> AttribPointer {
    AttribPointer {
        index: i as usize,
        size: l.attributes[i].number,
        kind: l.attributes[i].kind,
        normalized: l.attributes[i].normalized,
        stride: l.stride as usize,
        offset: prefix_extent(l.attributes, i) as usize,
    }
}

impl AttributeLayout {
    /// The empty layout: no attributes, stride zero.
    pub fn new() -> (r: AttributeLayout)
        ensures
            r@.attributes == Seq::<AttributeDescription>::empty(),
            r@.stride == 0,
    {
        AttributeLayout { attributes: Vec::new(), stride: 0 }
    }

    /// Appends a normalized single-component attribute of type `kind`; the
    /// stride grows by the component size.
    pub fn number_normalized(&mut self, kind: GlDataType) -> (r: &mut Self)
        requires
            old(self)@.stride + data_type_size(kind) <= usize::MAX,
        ensures
            r@ == old(self)@.with(
                AttributeDescription { kind, number: 1, normalized: true },
                data_type_size(kind),
            ),
            *final(self) == *final(r),
            r@.attributes.len() == old(self)@.attributes.len() + 1,
            r@.attributes.last() == (AttributeDescription { kind, number: 1, normalized: true }),
            forall|k: int| 0 <= k < old(self)@.attributes.len() ==> #[trigger] r@.attributes[k]
                == old(self)@.attributes[k],
            r@.stride == old(self)@.stride + data_type_size(kind),
    {
        self.attributes.push(AttributeDescription { kind, number: 1, normalized: true });
        self.stride = self.stride + kind.size();
        self
    }

    /// Appends a normalized attribute of `size` components of type `kind`;
    /// the stride grows by one component size, whatever `size` is.
    pub fn vector_normalized(&mut self, kind: GlDataType, size: usize) -> (r: &mut Self)
        requires
            old(self)@.stride + data_type_size(kind) <= usize::MAX,
        ensures
            r@ == old(self)@.with(
                AttributeDescription { kind, number: size, normalized: true },
                data_type_size(kind),
            ),
            *final(self) == *final(r),
            r@.attributes.len() == old(self)@.attributes.len() + 1,
            r@.attributes.last() == (AttributeDescription { kind, number: size, normalized: true }),
            forall|k: int| 0 <= k < old(self)@.attributes.len() ==> #[trigger] r@.attributes[k]
                == old(self)@.attributes[k],
            r@.stride == old(self)@.stride + data_type_size(kind),
    {
        self.attributes.push(AttributeDescription { kind, number: size, normalized: true });
        self.stride = self.stride + kind.size();
        self
    }

    /// Appends a single-component attribute of type `kind`; the stride grows
    /// by the component size.
    pub fn number(&mut self, kind: GlDataType) -> (r: &mut Self)
        requires
            old(self)@.stride + data_type_size(kind) <= usize::MAX,
        ensures
            r@ == old(self)@.with(
                AttributeDescription { kind, number: 1, normalized: false },
                data_type_size(kind),
            ),
            *final(self) == *final(r),
            r@.attributes.len() == old(self)@.attributes.len() + 1,
            r@.attributes.last() == (AttributeDescription { kind, number: 1, normalized: false }),
            forall|k: int| 0 <= k < old(self)@.attributes.len() ==> #[trigger] r@.attributes[k]
                == old(self)@.attributes[k],
            r@.stride == old(self)@.stride + data_type_size(kind),
    {
        self.attributes.push(AttributeDescription { kind, number: 1, normalized: false });
        self.stride = self.stride + kind.size();
        self
    }

    /// Appends an attribute of `number` components of type `kind`; the
    /// stride grows by the component size times `number`.
    pub fn vector(&mut self, kind: GlDataType, number: usize) -> (r: &mut Self)
        requires
            old(self)@.stride + data_type_size(kind) * number <= usize::MAX,
        ensures
            r@ == old(self)@.with(
                AttributeDescription { kind, number, normalized: false },
                data_type_size(kind) * (number as nat),
            ),
            *final(self) == *final(r),
            r@.attributes.len() == old(self)@.attributes.len() + 1,
            r@.attributes.last() == (AttributeDescription { kind, number, normalized: false }),
            forall|k: int| 0 <= k < old(self)@.attributes.len() ==> #[trigger] r@.attributes[k]
                == old(self)@.attributes[k],
            r@.stride == old(self)@.stride + data_type_size(kind) * (number as nat),
    {
        let s = kind.size();
        assert(s * number <= usize::MAX) by (nonlinear_arith)
            requires
                self.stride + s * number <= usize::MAX,
                0 <= self.stride,
        ;
        self.attributes.push(AttributeDescription { kind, number, normalized: false });
        self.stride = self.stride + s * number;
        self
    }

    /// The stride declared by this layout.
    pub fn stride(&self) -> (r: usize)
        ensures
            r == self@.stride,
    {
        self.stride
    }

    /// The number of attributes in this layout.
    pub fn len(&self) -> (r: usize)
        ensures
            r == self@.attributes.len(),
    {
        self.attributes.len()
    }

    /// Attribute `i` of this layout.
    pub fn attribute(&self, i: usize) -> (r: AttributeDescription)
        requires
            i < self@.attributes.len(),
        ensures
            r == self@.attributes[i as int],
    {
        self.attributes[i]
    }

    /// The attribute pointers of a vertex array with this layout, one per
    /// attribute in order: attribute `i` gets index `i`, the layout's stride
    /// and, as offset, the bytes the attributes before it occupy. `None`
    /// when the bytes of all attributes together do not fit in a `usize`.
    pub fn pointers(&self) -> (r: Option<Vec<AttribPointer>>)
        ensures
            r is None <==> prefix_extent(self@.attributes, self@.attributes.len() as int)
                > usize::MAX,
            r matches Some(v) ==> v@.len() == self@.attributes.len() && forall|i: int|
                0 <= i < v@.len() ==> #[trigger] v@[i] == pointer_of(self@, i),
            r matches Some(v) ==> forall|i: int|
                0 <= i < v@.len() ==> {
                    &&& (#[trigger] v@[i]).index == i
                    &&& v@[i].size == self@.attributes[i].number
                    &&& v@[i].kind == self@.attributes[i].kind
                    &&& v@[i].normalized == self@.attributes[i].normalized
                    &&& v@[i].stride == self@.stride
                },
    {
        let n = self.attributes.len();
        let mut out: Vec<AttribPointer> = Vec::new();
        let mut offset: usize = 0;
        let mut i: usize = 0;
        while i < n
            invariant
                n == self@.attributes.len(),
                i <= n,
                offset == prefix_extent(self@.attributes, i as int),
                out@.len() == i,
                forall|j: int| 0 <= j < i ==> #[trigger] out@[j] == pointer_of(self@, j),
            decreases n - i,
        {
            let a = self.attributes[i];
            out.push(
                AttribPointer {
                    index: i,
                    size: a.number,
                    kind: a.kind,
                    normalized: a.normalized,
                    stride: self.stride,
                    offset,
                },
            );
            let s = a.kind.size();
            let step = s.checked_mul(a.number);
            match step {
                None => {
                    proof {
                        lemma_extent_tail_exceeds(self@.attributes, i as int, n as int);
                    }
                    return None;
                },
                Some(st) => {
                    match offset.checked_add(st) {
                        None => {
                            proof {
                                lemma_prefix_extent_monotone(
                                    self@.attributes,
                                    (i + 1) as int,
                                    n as int,
                                );
                            }
                            return None;
                        },
                        Some(next) => {
                            offset = next;
                        },
                    }
                },
            }
            i = i + 1;
        }
        Some(out)
    }
}

/// Appending an attribute to a layout adds exactly one attribute, the one
/// given, at the end; keeps every earlier attribute; and grows the stride by
/// exactly the amount given.
pub proof fn lemma_with_appends_one(l: LayoutView, d: AttributeDescription, grow: nat)
    ensures
        l.with(d, grow).attributes.len() == l.attributes.len() + 1,
        l.with(d, grow).attributes[l.attributes.len() as int] == d,
        forall|k: int|
            0 <= k < l.attributes.len() ==> #[trigger] l.with(d, grow).attributes[k]
                == l.attributes[k],
        l.with(d, grow).stride == l.stride + grow,
{
}

/// The pointer of attribute `i` carries exactly what was recorded for that
/// attribute: its index is `i`, its component count, type and normalized
/// flag are the attribute's own, its stride is the layout's, and its offset
/// is the bytes of the attributes before it.
pub proof fn lemma_pointer_carries_attribute(l: LayoutView, i: int)
    requires
        0 <= i < l.attributes.len(),
        i <= usize::MAX,
        l.stride <= usize::MAX,
        prefix_extent(l.attributes, i) <= usize::MAX,
    ensures
        pointer_of(l, i).index == i,
        pointer_of(l, i).size == l.attributes[i].number,
        pointer_of(l, i).kind == l.attributes[i].kind,
        pointer_of(l, i).normalized == l.attributes[i].normalized,
        pointer_of(l, i).stride == l.stride,
        pointer_of(l, i).offset == prefix_extent(l.attributes, i),
{
}

/// The pointer of an attribute just appended describes that attribute: its
/// normalized flag, component count and type are the ones asked for, and it
/// starts where the earlier attributes end.
pub proof fn lemma_appended_pointer(l: LayoutView, d: AttributeDescription, grow: nat)
    requires
        l.attributes.len() <= usize::MAX,
        l.stride + grow <= usize::MAX,
        prefix_extent(l.attributes, l.attributes.len() as int) <= usize::MAX,
    ensures
        pointer_of(l.with(d, grow), l.attributes.len() as int).normalized == d.normalized,
        pointer_of(l.with(d, grow), l.attributes.len() as int).size == d.number,
        pointer_of(l.with(d, grow), l.attributes.len() as int).kind == d.kind,
        pointer_of(l.with(d, grow), l.attributes.len() as int).offset == prefix_extent(
            l.attributes,
            l.attributes.len() as int,
        ),
{
    lemma_prefix_extent_prefix(l.attributes, d, l.attributes.len() as int);
    assert(l.with(d, grow).attributes[l.attributes.len() as int] == d);
}

/// Taking more attributes never gives fewer bytes.
pub proof fn lemma_prefix_extent_monotone(attrs: Seq<AttributeDescription>, i: int, j: int)
    requires
        0 <= i <= j,
    ensures
        prefix_extent(attrs, i) <= prefix_extent(attrs, j),
    decreases j - i,
{
    if i < j {
        lemma_prefix_extent_monotone(attrs, i, j - 1);
    }
}

/// When one attribute alone occupies more than `usize::MAX` bytes, so do
/// all attributes up to and past it.
proof fn lemma_extent_tail_exceeds(attrs: Seq<AttributeDescription>, i: int, n: int)
    requires
        0 <= i < n,
        extent(attrs[i]) > usize::MAX,
    ensures
        prefix_extent(attrs, n) > usize::MAX,
{
    lemma_prefix_extent_monotone(attrs, i + 1, n);
}

/// Consecutive attributes abut: attribute `i + 1` starts where attribute `i`
/// ends.
pub proof fn lemma_offsets_abut(l: LayoutView, i: int)
    requires
        0 <= i,
        i + 1 < l.attributes.len(),
    ensures
        prefix_extent(l.attributes, i + 1) == prefix_extent(l.attributes, i) + extent(
            l.attributes[i],
        ),
{
}

/// In a packed layout every attribute lies within one vertex: it ends no
/// later than the stride.
pub proof fn lemma_packed_attributes_within_stride(l: LayoutView, i: int)
    requires
        l.packed(),
        0 <= i < l.attributes.len(),
    ensures
        prefix_extent(l.attributes, i) + extent(l.attributes[i]) <= l.stride,
{
    lemma_prefix_extent_monotone(l.attributes, i + 1, l.attributes.len() as int);
}

/// The empty layout is packed.
pub proof fn lemma_empty_layout_packed()
    ensures
        (LayoutView { attributes: Seq::<AttributeDescription>::empty(), stride: 0 }).packed(),
{
}

/// `vector`, `number` and `number_normalized` keep a packed layout packed.
pub proof fn lemma_builders_keep_packed(l: LayoutView, kind: GlDataType, number: usize)
    requires
        l.packed(),
    ensures
        l.with(
            AttributeDescription { kind, number, normalized: false },
            data_type_size(kind) * (number as nat),
        ).packed(),
        l.with(
            AttributeDescription { kind, number: 1, normalized: false },
            data_type_size(kind),
        ).packed(),
        l.with(
            AttributeDescription { kind, number: 1, normalized: true },
            data_type_size(kind),
        ).packed(),
{
    let d0 = AttributeDescription { kind, number, normalized: false };
    let d1 = AttributeDescription { kind, number: 1, normalized: false };
    let d2 = AttributeDescription { kind, number: 1, normalized: true };
    let n = l.attributes.len() as int;
    assert(l.attributes.push(d0)[n] == d0);
    assert(l.attributes.push(d1)[n] == d1);
    assert(l.attributes.push(d2)[n] == d2);
    lemma_prefix_extent_push(l.attributes, d0);
    lemma_prefix_extent_push(l.attributes, d1);
    lemma_prefix_extent_push(l.attributes, d2);
}

/// `vector_normalized` keeps a packed layout packed exactly when the new
/// attribute has one component: the stride grows by one component size
/// while the attribute occupies `size` of them.
pub proof fn lemma_vector_normalized_packed_iff(l: LayoutView, kind: GlDataType, size: usize)
    requires
        l.packed(),
    ensures
        l.with(
            AttributeDescription { kind, number: size, normalized: true },
            data_type_size(kind),
        ).packed() <==> size == 1,
{
    let d = AttributeDescription { kind, number: size, normalized: true };
    lemma_prefix_extent_push(l.attributes, d);
    let s = data_type_size(kind);
    assert(1 <= s);
    if size == 0 {
        assert(s * size == 0) by (nonlinear_arith)
            requires
                size == 0,
        ;
    } else if size >= 2 {
        assert(s * size >= 2 * s) by (nonlinear_arith)
            requires
                size >= 2,
                s >= 1,
        ;
    }
}

/// Appending an attribute adds its bytes to the total.
pub proof fn lemma_prefix_extent_push(attrs: Seq<AttributeDescription>, d: AttributeDescription)
    ensures
        prefix_extent(attrs.push(d), attrs.len() + 1int) == prefix_extent(attrs, attrs.len() as int)
            + extent(d),
{
    lemma_prefix_extent_prefix(attrs, d, attrs.len() as int);
    assert(attrs.push(d)[attrs.len() as int] == d);
}

/// Appending an attribute leaves the bytes of the attributes before it as
/// they were.
proof fn lemma_prefix_extent_prefix(
    attrs: Seq<AttributeDescription>,
    d: AttributeDescription,
    i: int,
)
    requires
        0 <= i <= attrs.len(),
    ensures
        prefix_extent(attrs.push(d), i) == prefix_extent(attrs, i),
    decreases i,
{
    if i > 0 {
        lemma_prefix_extent_prefix(attrs, d, i - 1);
        assert(attrs.push(d)[i - 1] == attrs[i - 1]);
    }
}

} // verus!
