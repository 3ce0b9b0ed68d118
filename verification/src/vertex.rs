//! Host-side vertex component descriptors and their byte layout.
//!
//! A vertex is described by an ordered sequence of components; each component
//! has a dimensionality (how many scalar lanes), a numeric category, and a
//! per-lane bit width. The byte weight of a component is
//! `dimension * (bit width / 8)`, and the weight of a whole vertex is the sum
//! of its components' weights, which is also the stride between two
//! consecutive vertices in a buffer.

use vstd::prelude::*;

verus! {

/// Dimensionality of a vertex component: how many scalar lanes it carries.
#[derive(Clone, Copy, Debug, PartialEq, Eq, Structural)]
pub enum Dim {
    Dim1,
    Dim2,
    Dim3,
    Dim4,
}

/// Numeric category of a vertex component.
#[derive(Clone, Copy, Debug, PartialEq, Eq, Structural)]
pub enum Type {
    Floating,
    Integral,
    Unsigned,
    Boolean,
}

/// Description of one vertex component: lane count, numeric category and
/// per-lane bit width.
#[derive(Clone, Copy, Debug, PartialEq, Eq, Structural)]
pub struct VertexComponentFormat {
    pub comp_type: Type,
    pub dim: Dim,
    /// Bit width of one scalar lane; the supported widths are 8, 16 and 32.
    pub comp_size: u32,
}

/// Number of scalar lanes of a dimensionality.
pub open spec fn spec_dim_size(d: Dim) -> int {
    match d {
        Dim::Dim1 => 1,
        Dim::Dim2 => 2,
        Dim::Dim3 => 3,
        Dim::Dim4 => 4,
    }
}

/// The device accepts 8-, 16- and 32-bit signed and unsigned integers
/// (booleans ride as 8-bit unsigned bytes) and 32-bit floats; any other
/// (category, bit width) pair is a configuration error.
pub open spec fn spec_supported(f: VertexComponentFormat) -> bool {
    match f.comp_type {
        Type::Integral | Type::Unsigned =>
            f.comp_size == 8 || f.comp_size == 16 || f.comp_size == 32,
        Type::Boolean => f.comp_size == 8,
        Type::Floating => f.comp_size == 32,
    }
}

/// Every component of the sequence is a supported format.
pub open spec fn all_supported(s: Seq<VertexComponentFormat>) -> bool {
    forall|i: int| 0 <= i < s.len() ==> spec_supported(s[i])
}

/// Byte weight of one component: lane count times the byte width of a lane.
pub open spec fn spec_component_weight(f: VertexComponentFormat) -> int {
    spec_dim_size(f.dim) * (f.comp_size as int / 8)
}

/// Byte weight of a whole vertex: the sum of its components' weights.
pub open spec fn spec_vertex_weight(s: Seq<VertexComponentFormat>) -> int
    decreases s.len(),
{
    if s.len() == 0 {
        0
    } else {
        spec_vertex_weight(s.drop_last()) + spec_component_weight(s.last())
    }
}

/// Byte offset of component `i` inside one vertex: the summed weight of all
/// components before it.
pub open spec fn spec_offset(s: Seq<VertexComponentFormat>, i: int) -> int {
    spec_vertex_weight(s.take(i))
}

/// A component weight is never negative, whatever the format holds.
pub proof fn lemma_component_weight_nonneg(f: VertexComponentFormat)
    ensures
        spec_component_weight(f) >= 0,
{
}

/// The weight of a prefix never exceeds the weight of the whole sequence.
pub proof fn lemma_vertex_weight_prefix(s: Seq<VertexComponentFormat>, j: int)
    requires
        0 <= j <= s.len(),
    ensures
        0 <= spec_vertex_weight(s.take(j)) <= spec_vertex_weight(s),
    decreases s.len() - j,
{
    lemma_vertex_weight_nonneg(s.take(j));
    if j == s.len() {
        assert(s.take(j) =~= s);
    } else {
        assert(s.take(j + 1).drop_last() =~= s.take(j));
        lemma_component_weight_nonneg(s[j]);
        lemma_vertex_weight_prefix(s, j + 1);
    }
}

/// A vertex weight is never negative.
pub proof fn lemma_vertex_weight_nonneg(s: Seq<VertexComponentFormat>)
    ensures
        spec_vertex_weight(s) >= 0,
    decreases s.len(),
{
    if s.len() > 0 {
        lemma_vertex_weight_nonneg(s.drop_last());
        lemma_component_weight_nonneg(s.last());
    }
}

/// Law: the computed layout is contiguous, with no gaps and no overlaps.
/// The first component sits at offset zero, each later component begins
/// exactly where the previous one ends, and the end of the last component is
/// exactly the vertex stride.
pub proof fn lemma_layout_contiguous(s: Seq<VertexComponentFormat>)
    ensures
        spec_offset(s, 0) == 0,
        forall|i: int|
            0 <= i < s.len() ==> spec_offset(s, i + 1) == spec_offset(s, i)
                + spec_component_weight(s[i]),
        spec_offset(s, s.len() as int) == spec_vertex_weight(s),
{
    assert(s.take(0) =~= Seq::<VertexComponentFormat>::empty());
    assert forall|i: int| 0 <= i < s.len() implies spec_offset(s, i + 1) == spec_offset(s, i)
        + spec_component_weight(s[i]) by {
        assert(s.take(i + 1).drop_last() =~= s.take(i));
        assert(s.take(i + 1).last() == s[i]);
    }
    assert(s.take(s.len() as int) =~= s);
}

/// Lane count of a dimensionality, as the device call takes it.
pub fn dim_as_size(d: &Dim) -> (r: i32)
    ensures
        r == spec_dim_size(*d),
{
    match *d {
        Dim::Dim1 => 1,
        Dim::Dim2 => 2,
        Dim::Dim3 => 3,
        Dim::Dim4 => 4,
    }
}

/// Whether one component format is among the supported
/// (category, bit width) pairs.
pub fn is_supported(f: &VertexComponentFormat) -> (r: bool)
    ensures
        r == spec_supported(*f),
{
    match f.comp_type {
        Type::Integral | Type::Unsigned =>
            f.comp_size == 8 || f.comp_size == 16 || f.comp_size == 32,
        Type::Boolean => f.comp_size == 8,
        Type::Floating => f.comp_size == 32,
    }
}

/// Whether every component of a vertex format is supported. A caller must
/// treat a `false` as a fatal configuration error: no layout exists for such
/// a format, and no device call may be issued for it.
pub fn formats_supported(formats: &Vec<VertexComponentFormat>) -> (r: bool)
    ensures
        r == all_supported(formats@),
{
    let mut i: usize = 0;
    while i < formats.len()
        invariant
            0 <= i <= formats@.len(),
            forall|k: int| 0 <= k < i ==> spec_supported(formats@[k]),
        decreases formats@.len() - i,
    {
        if !is_supported(&formats[i]) {
            return false;
        }
        i = i + 1;
    }
    true
}

/// Byte weight of one component.
pub fn component_weight(f: &VertexComponentFormat) -> (r: u32)
    ensures
        r == spec_component_weight(*f),
{
    let lanes = dim_as_size(&f.dim) as u32;
    lanes * (f.comp_size / 8)
}

/// Byte weight of a whole vertex: the stride between two consecutive
/// vertices in a buffer.
pub fn vertex_weight(formats: &Vec<VertexComponentFormat>) -> (r: u32)
    requires
        spec_vertex_weight(formats@) <= u32::MAX,
    ensures
        r == spec_vertex_weight(formats@),
{
    let mut acc: u32 = 0;
    let mut i: usize = 0;
    while i < formats.len()
        invariant
            0 <= i <= formats@.len(),
            spec_vertex_weight(formats@) <= u32::MAX,
            acc == spec_vertex_weight(formats@.take(i as int)),
        decreases formats@.len() - i,
    {
        proof {
            assert(formats@.take(i + 1).drop_last() =~= formats@.take(i as int));
            assert(formats@.take(i + 1).last() == formats@[i as int]);
            lemma_vertex_weight_prefix(formats@, i + 1);
        }
        acc = acc + component_weight(&formats[i]);
        i = i + 1;
    }
    proof {
        assert(formats@.take(formats@.len() as int) =~= formats@);
    }
    acc
}

} // verus!
