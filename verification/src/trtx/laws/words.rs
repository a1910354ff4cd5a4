//! The words that the laws of operations are stated in: what the graph says of an operand, what an
//! option says, and which number a constant holds.

use crate::data_type::DataType;
use crate::graph::{Dimension, GraphInfo};
use crate::scalar::{float_bytes, float_type, le2, le4, repeated, Scalar};
use crate::trtx::forms::Form;
use crate::trtx::formulas::filled_with;
use crate::trtx::meaning::Term;
use crate::trtx::session::{ReplyOf, Run};
use crate::trtx::types::{Tensor, TrtDataType};
use vstd::prelude::*;

verus! {

/// The size of a dimension, or its bound where the size is not fixed.
pub open spec fn size(d: Dimension) -> u32 {
    match d {
        Dimension::Static(n) => n,
        Dimension::Dynamic(d) => d.max_size,
    }
}

/// The shape that the graph gives an operand.
pub open spec fn shape(graph: GraphInfo, id: u32) -> Seq<Dimension> {
    graph.operands@[id as int].descriptor.shape@
}

/// The element type that the graph gives an operand.
pub open spec fn element(graph: GraphInfo, id: u32) -> DataType {
    graph.operands@[id as int].descriptor.data_type
}

/// Whether the graph says that an operand holds numbers in half precision.
pub open spec fn holds_halves(graph: GraphInfo, id: u32) -> bool {
    id < graph.operands@.len() && element(graph, id) == DataType::Float16
}

/// The dimensions that TensorRT reported of a tensor.
pub open spec fn reported(n: Run, t: Tensor) -> Seq<i64> {
    match n.replies[t.id as int] {
        ReplyOf::Tensor { dims: Ok(dims), .. } => dims,
        _ => seq![],
    }
}

/// The first two entries of a list, and a number in place of both where there are fewer.
pub open spec fn first_two(list: Seq<u32>, otherwise: i64) -> (i64, i64) {
    if list.len() >= 2 {
        (list[0] as i32 as i64, list[1] as i32 as i64)
    } else {
        (otherwise, otherwise)
    }
}

/// The number whose digits to the base 256 are the bytes, the lowest first.
pub open spec fn number_in(bytes: Seq<u8>) -> nat
    decreases bytes.len(),
{
    if bytes.len() == 0 {
        0
    } else {
        bytes[0] as nat + 256 * number_in(bytes.drop_first())
    }
}

/// Whether bytes hold a number once, as numbers of an element type are held: in half precision where
/// the type is `Float16`, else in single precision.
pub open spec fn bytes_hold(bytes: Seq<u8>, x: Scalar, t: DataType) -> bool {
    if t == DataType::Float16 {
        bytes.len() == 2 && number_in(bytes) == x.half
    } else {
        bytes.len() == 4 && number_in(bytes) == x.single
    }
}

/// The TensorRT type of numbers that go with elements of a type.
pub open spec fn numbers_for(t: DataType) -> TrtDataType {
    if t == DataType::Float16 {
        TrtDataType::kHALF
    } else {
        TrtDataType::kFLOAT
    }
}

/// Whether a term is a constant that holds a number once.
pub open spec fn is_number(c: Term, x: Scalar, t: DataType) -> bool {
    c matches Term::Constant(bytes, ty) && ty == numbers_for(t) && bytes_hold(bytes, x, t)
}

/// Whether bytes hold a number over and over.
pub open spec fn bytes_repeat(bytes: Seq<u8>, x: Scalar, t: DataType, count: nat) -> bool {
    let width: nat = if t == DataType::Float16 {
        2
    } else {
        4
    };
    &&& bytes.len() == count * width
    &&& forall|i: int|
        0 <= i < count ==> bytes_hold(
            #[trigger] bytes.subrange(i * width, i * width + width),
            x,
            t,
        )
}

/// Whether a term is a constant that holds a number over and over.
pub open spec fn is_numbers(c: Term, x: Scalar, t: DataType) -> bool {
    match c {
        Term::Constant(bytes, ty) => ty == numbers_for(t) && exists|count: nat|
            #[trigger] bytes_repeat(bytes, x, t, count),
        _ => false,
    }
}

/// A form with its axes in another order, where `turn` holds.
pub open spec fn turned_where(turn: bool, order: Seq<i32>, f: Form) -> Form {
    if turn {
        Form::Turned(order, Box::new(f))
    } else {
        f
    }
}

/// A form in another type, where `cast` holds.
pub open spec fn cast_where(cast: bool, ty: TrtDataType, f: Form) -> Form {
    if cast {
        Form::Cast(ty, Box::new(f))
    } else {
        f
    }
}

/// The pattern of a number in single precision without its sign.
pub open spec fn unsigned(bits: u32) -> int {
    if bits >= 0x8000_0000 {
        bits - 0x8000_0000
    } else {
        bits as int
    }
}

/// Whether a pattern in single precision is no number.
pub open spec fn no_number(bits: u32) -> bool {
    unsigned(bits) > 0x7F80_0000
}

/// Whether a number in single precision is 1 up to a millionth.
pub open spec fn about_one(bits: u32) -> bool {
    0x3F7F_FFF0 <= bits <= 0x3F80_0008
}

/// Whether the absolute value of a number in single precision is more than a millionth.
pub open spec fn past_a_millionth(bits: u32) -> bool {
    0x3586_37BD < unsigned(bits) && !no_number(bits)
}

/// A text with the capitals from `A` to `Z` made small.
pub open spec fn in_small_letters(s: Seq<char>) -> Seq<char> {
    Seq::new(
        s.len(),
        |i: int|
            if 'A' <= s[i] && s[i] <= 'Z' {
                (s[i] as u32 + 32) as char
            } else {
                s[i]
            },
    )
}

/// The bytes that hold a pattern of 32 bits, the lowest first.
pub(crate) proof fn four_bytes_hold(x: u32)
    ensures
        le4(x).len() == 4,
        number_in(le4(x)) == x,
{
    reveal_with_fuel(number_in, 5);
    let b = le4(x);
    assert(b.drop_first() =~= seq![b[1], b[2], b[3]]);
    assert(b.drop_first().drop_first() =~= seq![b[2], b[3]]);
    assert(b.drop_first().drop_first().drop_first() =~= seq![b[3]]);
    assert(b.drop_first().drop_first().drop_first().drop_first() =~= seq![]);
}

/// The bytes that hold a pattern of 16 bits, the lowest first.
pub(crate) proof fn two_bytes_hold(x: u16)
    ensures
        le2(x).len() == 2,
        number_in(le2(x)) == x,
{
    reveal_with_fuel(number_in, 3);
    let b = le2(x);
    assert(b.drop_first() =~= seq![b[1]]);
    assert(b.drop_first().drop_first() =~= seq![]);
}

/// The bytes of a number in the type that goes with an element type hold it.
pub(crate) proof fn float_bytes_hold(x: Scalar, t: DataType)
    ensures
        bytes_hold(float_bytes(x, t), x, t),
        float_type(t) == numbers_for(t),
{
    four_bytes_hold(x.single);
    two_bytes_hold(x.half);
}

/// A unit repeated holds the unit at each place.
pub(crate) proof fn repeated_holds(unit: Seq<u8>, count: nat, i: int)
    requires
        0 <= i < count,
    ensures
        repeated(unit, count).len() == count * unit.len(),
        0 <= i * unit.len(),
        i * unit.len() + unit.len() <= count * unit.len(),
        repeated(unit, count).subrange(i * unit.len(), i * unit.len() + unit.len()) == unit,
    decreases count,
{
    let w = unit.len();
    repeated_length(unit, count);
    repeated_length(unit, (count - 1) as nat);
    assert(i * w >= 0 && i * w + w <= count * w && (count - 1) * w + w == count * w) by (nonlinear_arith)
        requires
            0 <= i < count,
            0 <= w,
    ;
    let all = repeated(unit, count);
    let less = repeated(unit, (count - 1) as nat);
    if i == count - 1 {
        assert(all.subrange(i * w, i * w + w) =~= unit);
    } else {
        assert(i * w + w <= (count - 1) * w) by (nonlinear_arith)
            requires
                0 <= i < count - 1,
                0 <= w,
        ;
        repeated_holds(unit, (count - 1) as nat, i);
        assert(all.subrange(i * w, i * w + w) =~= less.subrange(i * w, i * w + w));
    }
}

pub(crate) proof fn repeated_length(unit: Seq<u8>, count: nat)
    ensures
        repeated(unit, count).len() == count * unit.len(),
    decreases count,
{
    if count > 0 {
        repeated_length(unit, (count - 1) as nat);
        assert((count - 1) * unit.len() + unit.len() == count * unit.len()) by (nonlinear_arith)
            requires
                count > 0,
        ;
    } else {
        assert(0 * unit.len() == 0) by (nonlinear_arith);
    }
}

/// A constant that is filled with a number holds it over and over.
pub(crate) proof fn filled_with_is_numbers(x: Scalar, t: DataType, count: nat)
    ensures
        is_numbers(filled_with(x, t, count), x, t),
        bytes_repeat(repeated(float_bytes(x, t), count), x, t, count),
{
    float_bytes_hold(x, t);
    let unit = float_bytes(x, t);
    let bytes = repeated(unit, count);
    repeated_length(unit, count);
    let width: nat = if t == DataType::Float16 {
        2
    } else {
        4
    };
    assert forall|i: int| 0 <= i < count implies bytes_hold(
        #[trigger] bytes.subrange(i * width, i * width + width),
        x,
        t,
    ) by {
        repeated_holds(unit, count, i);
    }
    assert(bytes_repeat(bytes, x, t, count));
    let c = filled_with(x, t, count);
    assert(c == Term::Constant(bytes, numbers_for(t)));
    assert(bytes_repeat(c->Constant_0, x, t, count));
    assert(is_numbers(c, x, t));
}

} // verus!
