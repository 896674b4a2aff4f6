//! The fixed field layout of a packed point.

use vstd::prelude::*;

verus! {

/// Numeric type of one packed field, as the visualisation schema names it.
#[derive(Clone, Copy, Debug, PartialEq, Eq, Structural)]
pub enum NumericType {
    Unknown,
    Uint8,
    Int8,
    Uint16,
    Int16,
    Uint32,
    Int32,
    Float32,
    Float64,
}

impl NumericType {
    /// Bytes that a value of this type takes in a packed point.
    pub open spec fn width(self) -> nat {
        match self {
            NumericType::Unknown => 0,
            NumericType::Uint8 | NumericType::Int8 => 1,
            NumericType::Uint16 | NumericType::Int16 => 2,
            NumericType::Uint32 | NumericType::Int32 | NumericType::Float32 => 4,
            NumericType::Float64 => 8,
        }
    }

    /// The number that stands for this type in the wire schema.
    pub open spec fn wire_number(self) -> int {
        match self {
            NumericType::Unknown => 0,
            NumericType::Uint8 => 1,
            NumericType::Int8 => 2,
            NumericType::Uint16 => 3,
            NumericType::Int16 => 4,
            NumericType::Uint32 => 5,
            NumericType::Int32 => 6,
            NumericType::Float32 => 7,
            NumericType::Float64 => 8,
        }
    }

    pub fn byte_width(&self) -> (bytes: u32)
        ensures
            bytes == self.width(),
    {
        match self {
            NumericType::Unknown => 0,
            NumericType::Uint8 | NumericType::Int8 => 1,
            NumericType::Uint16 | NumericType::Int16 => 2,
            NumericType::Uint32 | NumericType::Int32 | NumericType::Float32 => 4,
            NumericType::Float64 => 8,
        }
    }

    pub fn code(&self) -> (number: i32)
        ensures
            number == self.wire_number(),
    {
        match self {
            NumericType::Unknown => 0,
            NumericType::Uint8 => 1,
            NumericType::Int8 => 2,
            NumericType::Uint16 => 3,
            NumericType::Int16 => 4,
            NumericType::Uint32 => 5,
            NumericType::Int32 => 6,
            NumericType::Float32 => 7,
            NumericType::Float64 => 8,
        }
    }
}

/// One field of a packed point: where it starts and how to read it.
#[derive(Clone, Debug, PartialEq, Eq)]
pub struct PackedElementField {
    pub name: String,
    pub offset: u32,
    pub numeric_type: NumericType,
}

/// What a field descriptor says, with its name as a sequence of characters.
pub struct FieldLayout {
    pub name: Seq<char>,
    pub offset: u32,
    pub numeric_type: NumericType,
}

impl View for PackedElementField {
    type V = FieldLayout;

    open spec fn view(&self) -> FieldLayout {
        FieldLayout { name: self.name@, offset: self.offset, numeric_type: self.numeric_type }
    }
}

/// The layouts that a list of descriptors declares, in order.
pub open spec fn layout_of(fields: Seq<PackedElementField>) -> Seq<FieldLayout> {
    Seq::new(fields.len(), |i: int| fields[i]@)
}

/// Bytes from the start of one packed point to the start of the next.
pub const POINT_STRIDE: u32 = 17;

/// The layout of a projected point: four binary32 fields and one byte.
pub open spec fn point_layout() -> Seq<FieldLayout> {
    seq![
        FieldLayout { name: "x"@, offset: 0, numeric_type: NumericType::Float32 },
        FieldLayout { name: "y"@, offset: 4, numeric_type: NumericType::Float32 },
        FieldLayout { name: "distance"@, offset: 8, numeric_type: NumericType::Float32 },
        FieldLayout { name: "angle"@, offset: 12, numeric_type: NumericType::Float32 },
        FieldLayout { name: "quality"@, offset: 16, numeric_type: NumericType::Uint8 },
    ]
}

/// Bytes that the first `count` fields of `layout` take together.
pub open spec fn width_of_first(layout: Seq<FieldLayout>, count: nat) -> nat
    decreases count,
{
    if count == 0 {
        0
    } else {
        width_of_first(layout, (count - 1) as nat) + layout[count - 1].numeric_type.width()
    }
}

/// A layout without padding: every field starts where the one before it
/// ends, and the stride is what the fields take together.
pub open spec fn is_packed(layout: Seq<FieldLayout>, stride: nat) -> bool {
    &&& forall|i: int|
        0 <= i < layout.len() ==> (#[trigger] layout[i]).offset == width_of_first(layout, i as nat)
    &&& stride == width_of_first(layout, layout.len())
}

/// The layout of a projected point has no padding, between fields or
/// between points.
pub proof fn lemma_point_layout_is_packed()
    ensures
        is_packed(point_layout(), POINT_STRIDE as nat),
{
    reveal_with_fuel(width_of_first, 6);
}

/// The stride and the field descriptors of a packed projected point.
///
/// Both are fixed: sinks are told of them once, and every point cloud
/// carries them unchanged.
pub fn rp_lidar_projected_point_descriptor() -> (descriptor: (u32, Vec<PackedElementField>))
    ensures
        descriptor.0 == POINT_STRIDE,
        layout_of(descriptor.1@) == point_layout(),
{
    let mut fields: Vec<PackedElementField> = Vec::new();
    fields.push(
        PackedElementField {
            name: "x".to_owned(),
            offset: 0,
            numeric_type: NumericType::Float32,
        },
    );
    fields.push(
        PackedElementField {
            name: "y".to_owned(),
            offset: 4,
            numeric_type: NumericType::Float32,
        },
    );
    fields.push(
        PackedElementField {
            name: "distance".to_owned(),
            offset: 8,
            numeric_type: NumericType::Float32,
        },
    );
    fields.push(
        PackedElementField {
            name: "angle".to_owned(),
            offset: 12,
            numeric_type: NumericType::Float32,
        },
    );
    fields.push(
        PackedElementField {
            name: "quality".to_owned(),
            offset: 16,
            numeric_type: NumericType::Uint8,
        },
    );
    assert(layout_of(fields@) =~= point_layout());
    (POINT_STRIDE, fields)
}

/// Whether `fields` declare exactly the layout of a projected point.
pub fn has_point_layout(fields: &Vec<PackedElementField>) -> (same: bool)
    ensures
        same == (layout_of(fields@) == point_layout()),
{
    let (_, expected) = rp_lidar_projected_point_descriptor();
    if fields.len() != expected.len() {
        assert(layout_of(fields@).len() != point_layout().len());
        return false;
    }
    let mut at: usize = 0;
    while at < fields.len()
        invariant
            at <= fields@.len(),
            fields@.len() == expected@.len(),
            layout_of(expected@) == point_layout(),
            forall|k: int| 0 <= k < at ==> fields@[k]@ == expected@[k]@,
        decreases fields@.len() - at,
    {
        let same_name = fields[at].name == expected[at].name;
        let same_offset = fields[at].offset == expected[at].offset;
        let same_type = fields[at].numeric_type == expected[at].numeric_type;
        if !(same_name && same_offset && same_type) {
            assert(layout_of(fields@)[at as int] != layout_of(expected@)[at as int]);
            return false;
        }
        at = at + 1;
    }
    assert(layout_of(fields@) =~= layout_of(expected@));
    true
}

} // verus!
