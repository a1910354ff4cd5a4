//! Element types, and the packing of four-bit elements into bytes.

use vstd::prelude::*;

verus! {

/// The type of an element of a tensor.
#[derive(Debug, Clone, Copy, PartialEq, Eq, Structural, Hash)]
pub enum DataType {
    Int4,
    Uint4,
    Float16,
    Float32,
    Int32,
    Uint32,
    Int8,
    Uint8,
    Int64,
    Uint64,
}

/// The number of bits in one element.
pub open spec fn bits_of(t: DataType) -> nat {
    match t {
        DataType::Int4 | DataType::Uint4 => 4,
        DataType::Int8 | DataType::Uint8 => 8,
        DataType::Float16 => 16,
        DataType::Float32 | DataType::Int32 | DataType::Uint32 => 32,
        DataType::Int64 | DataType::Uint64 => 64,
    }
}

/// The least number of bytes that hold `bits` bits.
pub open spec fn bytes_for_bits(bits: nat) -> nat {
    (bits + 7) / 8
}

/// The storage of `elements` elements: whole bytes, or none where the number of bits is past
/// `usize::MAX`.
pub open spec fn storage_length(t: DataType, elements: nat) -> Option<nat> {
    if elements * bits_of(t) > usize::MAX {
        None
    } else {
        Some(bytes_for_bits(elements * bits_of(t)))
    }
}

/// The name of an element type as messages show it.
pub open spec fn data_type_name(t: DataType) -> Seq<char> {
    match t {
        DataType::Int4 => "Int4"@,
        DataType::Uint4 => "Uint4"@,
        DataType::Float16 => "Float16"@,
        DataType::Float32 => "Float32"@,
        DataType::Int32 => "Int32"@,
        DataType::Uint32 => "Uint32"@,
        DataType::Int8 => "Int8"@,
        DataType::Uint8 => "Uint8"@,
        DataType::Int64 => "Int64"@,
        DataType::Uint64 => "Uint64"@,
    }
}

impl DataType {
    /// The number of bits in one element.
    pub fn bits_per_element(self) -> (bits: usize)
        ensures
            bits == bits_of(self),
    {
        match self {
            DataType::Int4 | DataType::Uint4 => 4,
            DataType::Int8 | DataType::Uint8 => 8,
            DataType::Float16 => 16,
            DataType::Float32 | DataType::Int32 | DataType::Uint32 => 32,
            DataType::Int64 | DataType::Uint64 => 64,
        }
    }

    /// Host storage bytes for `elements` values: always `ceil(elements * bits / 8)`, and none where
    /// the number of bits overflows.
    pub fn storage_byte_length(self, elements: usize) -> (length: Option<usize>)
        ensures
            length matches Some(n) ==> storage_length(self, elements as nat) == Some(n as nat),
            length is None <==> storage_length(self, elements as nat) is None,
    {
        let total_bits: usize = elements.checked_mul(self.bits_per_element())?;
        if total_bits % 8 == 0 {
            Some(total_bits / 8)
        } else {
            Some(total_bits / 8 + 1)
        }
    }

    /// Byte size of one element of a type whose elements are whole bytes.
    pub fn bytes_per_element(self) -> (bytes: usize)
        requires
            bits_of(self) % 8 == 0,
        ensures
            bytes * 8 == bits_of(self),
    {
        self.bits_per_element() / 8
    }

    /// The name of the type as messages show it.
    pub fn name(self) -> (s: &'static str)
        ensures
            s@ == data_type_name(self),
    {
        match self {
            DataType::Int4 => "Int4",
            DataType::Uint4 => "Uint4",
            DataType::Float16 => "Float16",
            DataType::Float32 => "Float32",
            DataType::Int32 => "Int32",
            DataType::Uint32 => "Uint32",
            DataType::Int8 => "Int8",
            DataType::Uint8 => "Uint8",
            DataType::Int64 => "Int64",
            DataType::Uint64 => "Uint64",
        }
    }
}

/// Storage grows with the number of elements: a longer tensor of the same type never takes fewer
/// bytes.
pub proof fn storage_is_monotonic(t: DataType, fewer: nat, more: nat)
    requires
        fewer <= more,
        storage_length(t, more) is Some,
    ensures
        storage_length(t, fewer) is Some,
        storage_length(t, fewer)->0 <= storage_length(t, more)->0,
{
    assert(fewer * bits_of(t) <= more * bits_of(t)) by (nonlinear_arith)
        requires
            fewer <= more,
    ;
}

/// Elements take eight, four, two or one byte each, as their type has it, and 4-bit integers share a
/// byte by twos.
pub proof fn elements_take_their_width(t: DataType, elements: nat)
    requires
        storage_length(t, elements) is Some,
    ensures
        storage_length(t, elements)->0 == match t {
            DataType::Int64 | DataType::Uint64 => 8 * elements,
            DataType::Float32 | DataType::Int32 | DataType::Uint32 => 4 * elements,
            DataType::Float16 => 2 * elements,
            DataType::Int8 | DataType::Uint8 => elements,
            DataType::Int4 | DataType::Uint4 => (elements + 1) / 2,
        },
{
    let bits = bits_of(t);
    assert(elements * bits == bits * elements) by (nonlinear_arith);
}

/// The storage of `elements` elements holds all their bits and wastes less than one byte.
pub proof fn storage_is_tight(t: DataType, elements: nat)
    requires
        storage_length(t, elements) is Some,
    ensures
        storage_length(t, elements)->0 * 8 >= elements * bits_of(t),
        storage_length(t, elements)->0 * 8 < elements * bits_of(t) + 8,
{
}

/// The four-bit field at `i`: even positions are the high half of a byte, odd ones the low half.
pub open spec fn nibble_at(data: Seq<u8>, i: int) -> int {
    if i % 2 == 0 {
        data[i / 2] as int / 16
    } else {
        data[i / 2] as int % 16
    }
}

/// The signed value of a four-bit field in two's complement.
pub open spec fn signed_nibble(n: int) -> int {
    if n >= 8 {
        n - 16
    } else {
        n
    }
}

/// `v` moved into `lo..=hi`.
pub open spec fn clamped(v: int, lo: int, hi: int) -> int {
    if v < lo {
        lo
    } else if v > hi {
        hi
    } else {
        v
    }
}

/// The four-bit field that stands for `v`, moved into `-8..=7`.
pub open spec fn int4_field(v: int) -> int {
    clamped(v, -8, 7) % 16
}

/// The bytes that hold `fields`, two to a byte. Where the number of fields is odd, the low half of
/// the last byte is 0.
pub open spec fn packed(fields: Seq<int>) -> Seq<u8> {
    Seq::new(
        bytes_for_bits(fields.len() * 4),
        |j: int|
            (16 * fields[2 * j] + if 2 * j + 1 < fields.len() {
                fields[2 * j + 1]
            } else {
                0
            }) as u8,
    )
}

fn high_nibble(byte: u8) -> (n: u8)
    ensures
        n == byte / 16,
{
    assert((byte >> 4) & 0x0F == byte / 16) by (bit_vector);
    (byte >> 4) & 0x0F
}

fn low_nibble(byte: u8) -> (n: u8)
    ensures
        n == byte % 16,
{
    assert(byte & 0x0F == byte % 16) by (bit_vector);
    byte & 0x0F
}

/// Packed int4/uint4 layout: even logical indices in the high nibble, odd in the low.
pub fn unpack_int4(data: &[u8], element_count: usize) -> (out: Vec<i32>)
    requires
        bytes_for_bits(element_count as nat * 4) <= data@.len(),
    ensures
        out@.len() == element_count,
        forall|i: int| 0 <= i < element_count ==> #[trigger] out@[i] == signed_nibble(nibble_at(data@, i)),
{
    let mut out: Vec<i32> = Vec::with_capacity(element_count);
    let mut i: usize = 0;
    while i < element_count
        invariant
            i <= element_count,
            bytes_for_bits(element_count as nat * 4) <= data@.len(),
            out@.len() == i,
            forall|k: int| 0 <= k < i ==> #[trigger] out@[k] == signed_nibble(nibble_at(data@, k)),
        decreases element_count - i,
    {
        let byte: u8 = data[i / 2];
        let nibble: u8 = if i % 2 == 0 {
            high_nibble(byte)
        } else {
            low_nibble(byte)
        };
        out.push(
            if nibble >= 8 {
                nibble as i32 - 16
            } else {
                nibble as i32
            },
        );
        i = i + 1;
    }
    out
}

/// Packs four-bit fields, two to a byte.
fn pack_fields(fields: &Vec<u8>) -> (out: Vec<u8>)
    requires
        fields@.len() * 4 <= usize::MAX,
        forall|i: int| 0 <= i < fields@.len() ==> #[trigger] fields@[i] < 16,
    ensures
        out@ == packed(fields@.map_values(|f: u8| f as int)),
{
    let ghost ints = fields@.map_values(|f: u8| f as int);
    let mut out: Vec<u8> = Vec::new();
    let mut i: usize = 0;
    while i < fields.len()
        invariant
            i <= fields.len(),
            i % 2 == 0 || i == fields.len(),
            ints == fields@.map_values(|f: u8| f as int),
            fields@.len() * 4 <= usize::MAX,
            forall|k: int| 0 <= k < fields@.len() ==> #[trigger] fields@[k] < 16,
            out@ == packed(ints).take(bytes_for_bits(i as nat * 4) as int),
        decreases fields.len() - i,
    {
        let high: u8 = fields[i];
        let low: u8 = if i + 1 < fields.len() {
            fields[i + 1]
        } else {
            0
        };
        assert((high << 4) | low == 16 * high + low) by (bit_vector)
            requires
                high < 16,
                low < 16,
        ;
        out.push((high << 4) | low);
        proof {
            let j = i as int / 2;
            assert(packed(ints)[j] == (16 * high + low) as u8);
            assert(packed(ints).take(j + 1) =~= packed(ints).take(j).push(packed(ints)[j]));
        }
        if i + 1 < fields.len() {
            i = i + 2;
        } else {
            i = i + 1;
        }
    }
    proof {
        assert(packed(ints).take(packed(ints).len() as int) =~= packed(ints));
    }
    out
}

/// Packs `values`, each moved into `-8..=7`, as two's complement nibbles.
pub fn pack_int4(values: &[i32]) -> (out: Vec<u8>)
    requires
        values@.len() * 4 <= usize::MAX,
    ensures
        out@ == packed(values@.map_values(|v: i32| int4_field(v as int))),
{
    let mut fields: Vec<u8> = Vec::with_capacity(values.len());
    let mut i: usize = 0;
    while i < values.len()
        invariant
            i <= values.len(),
            fields@.len() == i,
            forall|k: int| 0 <= k < i ==> #[trigger] fields@[k] == int4_field(values@[k] as int),
        decreases values.len() - i,
    {
        let v: i32 = values[i];
        let field: u8 = if v < -8 {
            8
        } else if v > 7 {
            7
        } else if v < 0 {
            (v + 16) as u8
        } else {
            v as u8
        };
        fields.push(field);
        i = i + 1;
    }
    proof {
        assert(fields@.map_values(|f: u8| f as int) =~= values@.map_values(
            |v: i32| int4_field(v as int),
        ));
    }
    pack_fields(&fields)
}

/// The nibbles of `data`, as unsigned values.
pub fn unpack_uint4(data: &[u8], element_count: usize) -> (out: Vec<u8>)
    requires
        bytes_for_bits(element_count as nat * 4) <= data@.len(),
    ensures
        out@.len() == element_count,
        forall|i: int| 0 <= i < element_count ==> #[trigger] out@[i] == nibble_at(data@, i),
{
    let mut out: Vec<u8> = Vec::with_capacity(element_count);
    let mut i: usize = 0;
    while i < element_count
        invariant
            i <= element_count,
            bytes_for_bits(element_count as nat * 4) <= data@.len(),
            out@.len() == i,
            forall|k: int| 0 <= k < i ==> #[trigger] out@[k] == nibble_at(data@, k),
        decreases element_count - i,
    {
        let byte: u8 = data[i / 2];
        out.push(
            if i % 2 == 0 {
                high_nibble(byte)
            } else {
                low_nibble(byte)
            },
        );
        i = i + 1;
    }
    out
}

/// Packs the low four bits of each value.
pub fn pack_uint4(values: &[u8]) -> (out: Vec<u8>)
    requires
        values@.len() * 4 <= usize::MAX,
    ensures
        out@ == packed(values@.map_values(|v: u8| v as int % 16)),
{
    let mut fields: Vec<u8> = Vec::with_capacity(values.len());
    let mut i: usize = 0;
    while i < values.len()
        invariant
            i <= values.len(),
            fields@.len() == i,
            forall|k: int| 0 <= k < i ==> #[trigger] fields@[k] == values@[k] as int % 16,
        decreases values.len() - i,
    {
        fields.push(low_nibble(values[i]));
        i = i + 1;
    }
    proof {
        assert(fields@.map_values(|f: u8| f as int) =~= values@.map_values(
            |v: u8| v as int % 16,
        ));
    }
    pack_fields(&fields)
}

/// Packs `values`, each moved into `0..=15`.
pub fn pack_uint4_from_i32(values: &[i32]) -> (out: Vec<u8>)
    requires
        values@.len() * 4 <= usize::MAX,
    ensures
        out@ == packed(values@.map_values(|v: i32| clamped(v as int, 0, 15))),
{
    let mut fields: Vec<u8> = Vec::with_capacity(values.len());
    let mut i: usize = 0;
    while i < values.len()
        invariant
            i <= values.len(),
            fields@.len() == i,
            forall|k: int| 0 <= k < i ==> #[trigger] fields@[k] == clamped(values@[k] as int, 0, 15),
        decreases values.len() - i,
    {
        let v: i32 = values[i];
        fields.push(
            if v < 0 {
                0
            } else if v > 15 {
                15
            } else {
                v as u8
            },
        );
        i = i + 1;
    }
    proof {
        assert(fields@.map_values(|f: u8| f as int % 16) =~= values@.map_values(
            |v: i32| clamped(v as int, 0, 15),
        ));
    }
    pack_uint4(fields.as_slice())
}

/// Every four-bit field is found again at its position after packing.
pub proof fn nibble_of_packed(fields: Seq<int>, i: int)
    requires
        0 <= i < fields.len(),
        forall|k: int| 0 <= k < fields.len() ==> 0 <= #[trigger] fields[k] < 16,
    ensures
        nibble_at(packed(fields), i) == fields[i],
{
    let j = i / 2;
    assert(0 <= fields[2 * j] < 16);
    if 2 * j + 1 < fields.len() {
        assert(0 <= fields[2 * j + 1] < 16);
    }
}

/// Unpacking what `pack_int4` packed gives back each value, moved into `-8..=7`: a value in that
/// range comes back as it was.
pub proof fn int4_round_trip(values: Seq<i32>, i: int)
    requires
        0 <= i < values.len(),
    ensures
        signed_nibble(
            nibble_at(packed(values.map_values(|v: i32| int4_field(v as int))), i),
        ) == clamped(values[i] as int, -8, 7),
{
    nibble_of_packed(values.map_values(|v: i32| int4_field(v as int)), i);
}

/// Unpacking what `pack_uint4` packed gives back each value modulo 16: a value below 16 comes back
/// as it was.
pub proof fn uint4_round_trip(values: Seq<u8>, i: int)
    requires
        0 <= i < values.len(),
    ensures
        nibble_at(packed(values.map_values(|v: u8| v as int % 16)), i) == values[i] as int % 16,
{
    nibble_of_packed(values.map_values(|v: u8| v as int % 16), i);
}

/// Unpacking what `pack_uint4_from_i32` packed gives back each value, moved into `0..=15`.
pub proof fn uint4_from_i32_round_trip(values: Seq<i32>, i: int)
    requires
        0 <= i < values.len(),
    ensures
        nibble_at(packed(values.map_values(|v: i32| clamped(v as int, 0, 15))), i) == clamped(
            values[i] as int,
            0,
            15,
        ),
{
    nibble_of_packed(values.map_values(|v: i32| clamped(v as int, 0, 15)), i);
}

} // verus!
