//! Axes, directions, and the packing of a flip and a rotation into one byte.
use vstd::prelude::*;
use vstd::std_specs::ops::NegSpec;
use std::ops::Neg;

verus! {

/// One of the six axis-aligned directions.
#[derive(Debug, Clone, Copy, PartialEq, Eq, Structural, Hash)]
pub enum Direction {
    PosY,
    PosX,
    PosZ,
    NegX,
    NegY,
    NegZ,
}

/// One of the three axes.
#[derive(Debug, Clone, Copy, PartialEq, Eq, Structural, Hash)]
pub enum Axis {
    X,
    Y,
    Z,
}

impl Axis {
    /// The positive direction along the axis.
    pub fn pos(self) -> (r: Direction)
        ensures
            r == (match self {
                Axis::X => Direction::PosX,
                Axis::Y => Direction::PosY,
                Axis::Z => Direction::PosZ,
            }),
    {
        match self {
            Axis::X => Direction::PosX,
            Axis::Y => Direction::PosY,
            Axis::Z => Direction::PosZ,
        }
    }

    /// The negative direction along the axis.
    pub fn neg(self) -> (r: Direction)
        ensures
            r == (match self {
                Axis::X => Direction::NegX,
                Axis::Y => Direction::NegY,
                Axis::Z => Direction::NegZ,
            }),
    {
        match self {
            Axis::X => Direction::NegX,
            Axis::Y => Direction::NegY,
            Axis::Z => Direction::NegZ,
        }
    }
}

/// Which axes are mirrored, one bit per axis.
#[derive(Debug, Clone, Copy, PartialEq, Eq, Structural, Hash)]
pub struct Flip(pub u8);

/// One of the rotations of a cube, by number.
#[derive(Debug, Clone, Copy, PartialEq, Eq, Structural, Hash)]
pub struct Rotation(pub u8);

/// Packs a flip (low three bits) and a rotation (the bits above them) into one byte.
/// Bits of the rotation above the fifth are lost.
pub fn pack_flip_and_rotation(flip: Flip, rotation: Rotation) -> (r: u8)
    ensures
        r == flip.0 | (rotation.0 << 3u8),
        flip.0 < 8 && rotation.0 < 32 ==> r == flip.0 + rotation.0 * 8,
{
    let r = flip.0 | rotation.0 << 3u8;
    proof {
        let f = flip.0;
        let t = rotation.0;
        assert(f < 8 && t < 32 ==> f | (t << 3u8) == f + t * 8) by (bit_vector);
    }
    r
}

/// Splits a byte into its flip (low three bits) and its rotation (the rest).
pub fn unpack_flip_and_rotation(packed: u8) -> (r: (Flip, Rotation))
    ensures
        r.0.0 == packed % 8,
        r.1.0 == packed / 8,
{
    let flip = packed & 0b111u8;
    let rotation = packed >> 3u8;
    proof {
        assert(packed & 0b111u8 == packed % 8 && packed >> 3u8 == packed / 8) by (bit_vector);
    }
    (Flip(flip), Rotation(rotation))
}

/// Unpacking a packed flip and rotation gives them back, when the flip fits in
/// three bits and the rotation in five.
pub proof fn lemma_pack_unpack(flip: Flip, rotation: Rotation)
    requires
        flip.0 < 8,
        rotation.0 < 32,
    ensures
        (flip.0 + rotation.0 * 8) % 8 == flip.0,
        (flip.0 + rotation.0 * 8) / 8 == rotation.0,
{
}

/// The direction with the given number, in the order `PosY`, `PosX`, `PosZ`, `NegX`,
/// `NegY`, `NegZ` (numbers past five give `NegZ`).
pub open spec fn direction_of_index(index: u8) -> Direction {
    match index {
        0 => Direction::PosY,
        1 => Direction::PosX,
        2 => Direction::PosZ,
        3 => Direction::NegX,
        4 => Direction::NegY,
        _ => Direction::NegZ,
    }
}

/// The axis a direction lies on.
pub open spec fn axis_of(direction: Direction) -> Axis {
    match direction {
        Direction::PosX | Direction::NegX => Axis::X,
        Direction::PosY | Direction::NegY => Axis::Y,
        Direction::PosZ | Direction::NegZ => Axis::Z,
    }
}

impl Rotation {
    /// The number of quarter turns about the up direction: the low two bits.
    pub fn angle(self) -> (r: u8)
        ensures
            r == self.0 % 4,
    {
        let n = self.0;
        let r = n & 3u8;
        assert(r == n % 4) by (bit_vector)
            requires
                r == n & 3u8,
        ;
        r
    }

    /// The up direction: the number in the bits above the angle. Only the numbers
    /// below 24 are rotations.
    pub fn up(self) -> (r: Direction)
        requires
            self.0 < 24,
        ensures
            r == direction_of_index(self.0 / 4),
    {
        let n = self.0;
        let index = n >> 2u8;
        assert(index == n / 4) by (bit_vector)
            requires
                index == n >> 2u8,
        ;
        match index {
            0 => Direction::PosY,
            1 => Direction::PosX,
            2 => Direction::PosZ,
            3 => Direction::NegX,
            4 => Direction::NegY,
            _ => Direction::NegZ,
        }
    }
}

/// The coordinate `c` turned by the rotation with the given angle and up direction.
pub open spec fn rotated<T: Neg<Output = T>>(angle: u8, up: Direction, c: (T, T, T)) -> (T, T, T) {
    match (angle, up) {
        (0, Direction::PosY) => (c.0, c.1, c.2),
        (0, Direction::PosX) => (c.1, c.2.neg_spec(), c.0.neg_spec()),
        (0, Direction::PosZ) => (c.0, c.2.neg_spec(), c.1),
        (0, Direction::NegY) => (c.0, c.1.neg_spec(), c.2.neg_spec()),
        (0, Direction::NegX) => (c.1.neg_spec(), c.2.neg_spec(), c.0),
        (0, Direction::NegZ) => (c.0.neg_spec(), c.2.neg_spec(), c.1.neg_spec()),
        (1, Direction::PosY) => (c.2.neg_spec(), c.1, c.0),
        (1, Direction::PosX) => (c.1, c.0.neg_spec(), c.2),
        (1, Direction::PosZ) => (c.2.neg_spec(), c.0.neg_spec(), c.1),
        (1, Direction::NegY) => (c.2.neg_spec(), c.1.neg_spec(), c.0.neg_spec()),
        (1, Direction::NegX) => (c.1.neg_spec(), c.0.neg_spec(), c.2.neg_spec()),
        (1, Direction::NegZ) => (c.2, c.0.neg_spec(), c.1.neg_spec()),
        (2, Direction::PosY) => (c.0.neg_spec(), c.1, c.2.neg_spec()),
        (2, Direction::PosX) => (c.1, c.2, c.0),
        (2, Direction::PosZ) => (c.0.neg_spec(), c.2, c.1),
        (2, Direction::NegY) => (c.0.neg_spec(), c.1.neg_spec(), c.2),
        (2, Direction::NegX) => (c.1.neg_spec(), c.2, c.0.neg_spec()),
        (2, Direction::NegZ) => (c.0, c.2, c.1.neg_spec()),
        (3, Direction::PosY) => (c.2, c.1, c.0.neg_spec()),
        (3, Direction::PosX) => (c.1, c.0, c.2.neg_spec()),
        (3, Direction::PosZ) => (c.2, c.0, c.1),
        (3, Direction::NegY) => (c.2, c.1.neg_spec(), c.0),
        (3, Direction::NegX) => (c.1.neg_spec(), c.0, c.2),
        (3, Direction::NegZ) => (c.2.neg_spec(), c.0, c.1.neg_spec()),
        _ => c,
    }
}

/// Whether every component that the rotation with the given angle and up direction
/// negates can be negated.
pub open spec fn rotation_negatable<T: Neg<Output = T>>(angle: u8, up: Direction, c: (T, T, T)) -> bool {
    match (angle, up) {
        (0, Direction::PosY) => true,
        (0, Direction::PosX) => c.0.neg_req() && c.2.neg_req(),
        (0, Direction::PosZ) => c.2.neg_req(),
        (0, Direction::NegY) => c.1.neg_req() && c.2.neg_req(),
        (0, Direction::NegX) => c.1.neg_req() && c.2.neg_req(),
        (0, Direction::NegZ) => c.0.neg_req() && c.1.neg_req() && c.2.neg_req(),
        (1, Direction::PosY) => c.2.neg_req(),
        (1, Direction::PosX) => c.0.neg_req(),
        (1, Direction::PosZ) => c.0.neg_req() && c.2.neg_req(),
        (1, Direction::NegY) => c.0.neg_req() && c.1.neg_req() && c.2.neg_req(),
        (1, Direction::NegX) => c.0.neg_req() && c.1.neg_req() && c.2.neg_req(),
        (1, Direction::NegZ) => c.0.neg_req() && c.1.neg_req(),
        (2, Direction::PosY) => c.0.neg_req() && c.2.neg_req(),
        (2, Direction::PosX) => true,
        (2, Direction::PosZ) => c.0.neg_req(),
        (2, Direction::NegY) => c.0.neg_req() && c.1.neg_req(),
        (2, Direction::NegX) => c.0.neg_req() && c.1.neg_req(),
        (2, Direction::NegZ) => c.1.neg_req(),
        (3, Direction::PosY) => c.0.neg_req(),
        (3, Direction::PosX) => c.2.neg_req(),
        (3, Direction::PosZ) => true,
        (3, Direction::NegY) => c.1.neg_req(),
        (3, Direction::NegX) => c.1.neg_req(),
        (3, Direction::NegZ) => c.1.neg_req() && c.2.neg_req(),
        _ => true,
    }
}

/// Turns `coord` by `rotation`: the components are permuted and some negated, as the
/// rotation's angle and up direction say. The rotation numbered zero (no turn, up
/// along `PosY`) leaves the coordinate as it is.
pub fn rotate_coord<T: Copy + Neg<Output = T>>(rotation: Rotation, coord: (T, T, T)) -> (r: (T, T, T))
    requires
        rotation.0 < 24,
        rotation_negatable(rotation.0 % 4, direction_of_index(rotation.0 / 4), coord),
    ensures
        T::obeys_neg_spec() ==> r == rotated(rotation.0 % 4, direction_of_index(rotation.0 / 4), coord),
        rotation.0 == 0 ==> r == coord,
{
    let (x, y, z) = coord;
    let angle = rotation.angle();
    let up = rotation.up();
    match (angle, up) {
        (0, Direction::PosY) => (x, y, z),
        (0, Direction::PosX) => (y, z.neg(), x.neg()),
        (0, Direction::PosZ) => (x, z.neg(), y),
        (0, Direction::NegY) => (x, y.neg(), z.neg()),
        (0, Direction::NegX) => (y.neg(), z.neg(), x),
        (0, Direction::NegZ) => (x.neg(), z.neg(), y.neg()),
        (1, Direction::PosY) => (z.neg(), y, x),
        (1, Direction::PosX) => (y, x.neg(), z),
        (1, Direction::PosZ) => (z.neg(), x.neg(), y),
        (1, Direction::NegY) => (z.neg(), y.neg(), x.neg()),
        (1, Direction::NegX) => (y.neg(), x.neg(), z.neg()),
        (1, Direction::NegZ) => (z, x.neg(), y.neg()),
        (2, Direction::PosY) => (x.neg(), y, z.neg()),
        (2, Direction::PosX) => (y, z, x),
        (2, Direction::PosZ) => (x.neg(), z, y),
        (2, Direction::NegY) => (x.neg(), y.neg(), z),
        (2, Direction::NegX) => (y.neg(), z, x.neg()),
        (2, Direction::NegZ) => (x, z, y.neg()),
        (3, Direction::PosY) => (z, y, x.neg()),
        (3, Direction::PosX) => (y, x, z.neg()),
        (3, Direction::PosZ) => (z, x, y),
        (3, Direction::NegY) => (z, y.neg(), x),
        (3, Direction::NegX) => (y.neg(), x, z),
        (3, Direction::NegZ) => (z.neg(), x, y.neg()),
        _ => (x, y, z),
    }
}

/// The unit vector along a direction.
pub open spec fn unit_vector(d: Direction) -> (i64, i64, i64) {
    match d {
        Direction::PosX => (1, 0, 0),
        Direction::NegX => (-1 as i64, 0, 0),
        Direction::PosY => (0, 1, 0),
        Direction::NegY => (0, -1 as i64, 0),
        Direction::PosZ => (0, 0, 1),
        Direction::NegZ => (0, 0, -1 as i64),
    }
}

/// Whether `v` is a unit vector along one of the three axes.
pub open spec fn is_axis_unit(v: (i64, i64, i64)) -> bool {
    exists|d: Direction| v == #[trigger] unit_vector(d)
}

/// The determinant of the matrix whose columns are `a`, `b` and `c`.
pub open spec fn det3(a: (i64, i64, i64), b: (i64, i64, i64), c: (i64, i64, i64)) -> int {
    a.0 * (b.1 * c.2 - c.1 * b.2) - b.0 * (a.1 * c.2 - c.1 * a.2) + c.0 * (a.1 * b.2 - b.1 * a.2)
}

/// The map of the rotation numbered `index` on integer coordinates.
pub open spec fn rotation_map(index: u8, c: (i64, i64, i64)) -> (i64, i64, i64) {
    rotated(index % 4, direction_of_index(index / 4), c)
}

/// The number of the rotation that takes `(1, 2, 3)` to `v` (24 for none).
pub open spec fn rotation_taking_123_to(v: (i64, i64, i64)) -> u8 {
    if v == (1i64, 2i64, 3i64) {
        0
    } else if v == (-3 as i64, 2i64, 1i64) {
        1
    } else if v == (-1 as i64, 2i64, -3 as i64) {
        2
    } else if v == (3i64, 2i64, -1 as i64) {
        3
    } else if v == (2i64, -3 as i64, -1 as i64) {
        4
    } else if v == (2i64, -1 as i64, 3i64) {
        5
    } else if v == (2i64, 3i64, 1i64) {
        6
    } else if v == (2i64, 1i64, -3 as i64) {
        7
    } else if v == (1i64, -3 as i64, 2i64) {
        8
    } else if v == (-3 as i64, -1 as i64, 2i64) {
        9
    } else if v == (-1 as i64, 3i64, 2i64) {
        10
    } else if v == (3i64, 1i64, 2i64) {
        11
    } else if v == (-2 as i64, -3 as i64, 1i64) {
        12
    } else if v == (-2 as i64, -1 as i64, -3 as i64) {
        13
    } else if v == (-2 as i64, 3i64, -1 as i64) {
        14
    } else if v == (-2 as i64, 1i64, 3i64) {
        15
    } else if v == (1i64, -2 as i64, -3 as i64) {
        16
    } else if v == (-3 as i64, -2 as i64, -1 as i64) {
        17
    } else if v == (-1 as i64, -2 as i64, 3i64) {
        18
    } else if v == (3i64, -2 as i64, 1i64) {
        19
    } else if v == (-1 as i64, -3 as i64, -2 as i64) {
        20
    } else if v == (3i64, -1 as i64, -2 as i64) {
        21
    } else if v == (1i64, 3i64, -2 as i64) {
        22
    } else if v == (-3 as i64, 1i64, -2 as i64) {
        23
    } else {
        24
    }
}

/// Each of the 24 rotations turns the up vector `(0, 1, 0)` into the unit vector
/// of its up direction, takes each axis to an axis (a signed permutation), and
/// keeps handedness: its matrix has determinant 1, so it is never a mirror.
pub proof fn lemma_rotation_is_proper(index: u8)
    requires
        index < 24,
    ensures
        rotation_map(index, (0, 1, 0)) == unit_vector(direction_of_index(index / 4)),
        is_axis_unit(rotation_map(index, (1, 0, 0))),
        is_axis_unit(rotation_map(index, (0, 1, 0))),
        is_axis_unit(rotation_map(index, (0, 0, 1))),
        det3(rotation_map(index, (1, 0, 0)), rotation_map(index, (0, 1, 0)), rotation_map(index, (0, 0, 1)))
            == 1,
{
    assert((-0i64) as i64 == 0i64);
    assert((-1i64) as i64 == -1i64);
    let e1 = rotation_map(index, (1, 0, 0));
    let e2 = rotation_map(index, (0, 1, 0));
    let e3 = rotation_map(index, (0, 0, 1));
    assert(e1 == unit_vector(Direction::PosX) || e1 == unit_vector(Direction::NegX) || e1 == unit_vector(Direction::PosY)
        || e1 == unit_vector(Direction::NegY) || e1 == unit_vector(Direction::PosZ) || e1 == unit_vector(Direction::NegZ));
    assert(e2 == unit_vector(Direction::PosX) || e2 == unit_vector(Direction::NegX) || e2 == unit_vector(Direction::PosY)
        || e2 == unit_vector(Direction::NegY) || e2 == unit_vector(Direction::PosZ) || e2 == unit_vector(Direction::NegZ));
    assert(e3 == unit_vector(Direction::PosX) || e3 == unit_vector(Direction::NegX) || e3 == unit_vector(Direction::PosY)
        || e3 == unit_vector(Direction::NegY) || e3 == unit_vector(Direction::PosZ) || e3 == unit_vector(Direction::NegZ));
}

/// The 24 rotations are 24 different maps: the image of `(1, 2, 3)` tells which
/// rotation it was.
pub proof fn lemma_rotations_distinct(i: u8, j: u8)
    requires
        i < 24,
        j < 24,
        i != j,
    ensures
        rotation_taking_123_to(rotation_map(i, (1, 2, 3))) == i,
        rotation_map(i, (1, 2, 3)) != rotation_map(j, (1, 2, 3)),
{
    lemma_rotation_decodes(i);
    lemma_rotation_decodes(j);
}

proof fn lemma_rotation_decodes(i: u8)
    requires
        i < 24,
    ensures
        rotation_taking_123_to(rotation_map(i, (1, 2, 3))) == i,
{
    assert((-1i64) as i64 == -1i64);
    assert((-2i64) as i64 == -2i64);
    assert((-3i64) as i64 == -3i64);
}

/// The number of a direction, in the order that [`direction_of_index`] reads.
pub open spec fn direction_number(d: Direction) -> u8 {
    match d {
        Direction::PosY => 0,
        Direction::PosX => 1,
        Direction::PosZ => 2,
        Direction::NegX => 3,
        Direction::NegY => 4,
        Direction::NegZ => 5,
    }
}

/// The angle that [`up_and_forward_angle`] gives for `up` and `forward` is the one
/// whose rotation about `up` turns the default forward direction `NegZ` into
/// `forward`: the rotation numbered `4 * up + angle` takes `(0, 0, -1)` to the unit
/// vector of `forward`, and `(0, 1, 0)` to the unit vector of `up`.
pub proof fn lemma_up_forward_angle_turns(up: Direction, forward: Direction)
    ensures
        direction_of_index(direction_number(up)) == up,
        up_forward_angle_table(up, forward) matches Some(a) ==> {
            let index = (4 * direction_number(up) + a) as u8;
            &&& rotation_map(index, (0, 0, -1 as i64)) == unit_vector(forward)
            &&& rotation_map(index, (0, 1, 0)) == unit_vector(up)
        },
{
    assert((-0i64) as i64 == 0i64);
    assert((-1i64) as i64 == -1i64);
    assert((-(-1i64)) as i64 == 1i64);
    match up {
        Direction::PosY => {},
        Direction::PosX => {},
        Direction::PosZ => {},
        Direction::NegX => {},
        Direction::NegY => {},
        Direction::NegZ => {},
    }
}

/// The number of quarter turns about `up` that brings the default forward direction
/// to `forward`; `None` when `forward` lies on the axis of `up`.
pub open spec fn up_forward_angle_table(up: Direction, forward: Direction) -> Option<i32> {
    match up {
        Direction::NegX => match forward {
            Direction::NegX => None,
            Direction::NegY => Some(2i32),
            Direction::NegZ => Some(3i32),
            Direction::PosX => None,
            Direction::PosY => Some(0i32),
            Direction::PosZ => Some(1i32),
        },
        Direction::NegY => match forward {
            Direction::NegX => Some(3i32),
            Direction::NegY => None,
            Direction::NegZ => Some(2i32),
            Direction::PosX => Some(1i32),
            Direction::PosY => None,
            Direction::PosZ => Some(0i32),
        },
        Direction::NegZ => match forward {
            Direction::NegX => Some(1i32),
            Direction::NegY => Some(2i32),
            Direction::NegZ => None,
            Direction::PosX => Some(3i32),
            Direction::PosY => Some(0i32),
            Direction::PosZ => None,
        },
        Direction::PosX => match forward {
            Direction::NegX => None,
            Direction::NegY => Some(2i32),
            Direction::NegZ => Some(1i32),
            Direction::PosX => None,
            Direction::PosY => Some(0i32),
            Direction::PosZ => Some(3i32),
        },
        Direction::PosY => match forward {
            Direction::NegX => Some(3i32),
            Direction::NegY => None,
            Direction::NegZ => Some(0i32),
            Direction::PosX => Some(1i32),
            Direction::PosY => None,
            Direction::PosZ => Some(2i32),
        },
        Direction::PosZ => match forward {
            Direction::NegX => Some(3i32),
            Direction::NegY => Some(2i32),
            Direction::NegZ => None,
            Direction::PosX => Some(1i32),
            Direction::PosY => Some(0i32),
            Direction::PosZ => None,
        },
    }
}

/// The number of quarter turns about `up` that brings the default forward direction
/// to `forward`; `None` when `forward` lies on the axis of `up`.
pub fn up_and_forward_angle(up: Direction, forward: Direction) -> (r: Option<i32>)
    ensures
        r == up_forward_angle_table(up, forward),
{
    Some(match up {
        Direction::NegX => match forward {
            Direction::NegX => return None,
            Direction::NegY => (2i32),
            Direction::NegZ => (3i32),
            Direction::PosX => return None,
            Direction::PosY => (0i32),
            Direction::PosZ => (1i32),
        },
        Direction::NegY => match forward {
            Direction::NegX => (3i32),
            Direction::NegY => return None,
            Direction::NegZ => (2i32),
            Direction::PosX => (1i32),
            Direction::PosY => return None,
            Direction::PosZ => (0i32),
        },
        Direction::NegZ => match forward {
            Direction::NegX => (1i32),
            Direction::NegY => (2i32),
            Direction::NegZ => return None,
            Direction::PosX => (3i32),
            Direction::PosY => (0i32),
            Direction::PosZ => return None,
        },
        Direction::PosX => match forward {
            Direction::NegX => return None,
            Direction::NegY => (2i32),
            Direction::NegZ => (1i32),
            Direction::PosX => return None,
            Direction::PosY => (0i32),
            Direction::PosZ => (3i32),
        },
        Direction::PosY => match forward {
            Direction::NegX => (3i32),
            Direction::NegY => return None,
            Direction::NegZ => (0i32),
            Direction::PosX => (1i32),
            Direction::PosY => return None,
            Direction::PosZ => (2i32),
        },
        Direction::PosZ => match forward {
            Direction::NegX => (3i32),
            Direction::NegY => (2i32),
            Direction::NegZ => return None,
            Direction::PosX => (1i32),
            Direction::PosY => (0i32),
            Direction::PosZ => return None,
        },
    })
}

/// There is an angle exactly when the forward direction is off the up axis, and then it
/// is a number of quarter turns below four.
pub proof fn lemma_up_forward_angle_defined(up: Direction, forward: Direction)
    ensures
        up_forward_angle_table(up, forward) is None <==> axis_of(up) == axis_of(forward),
        up_forward_angle_table(up, forward) matches Some(a) ==> 0 <= a < 4,
{
}

/// For a given up direction, the angle tells the forward direction apart: the four
/// directions off the up axis get four different angles.
pub proof fn lemma_up_forward_angle_distinct(up: Direction, first: Direction, second: Direction)
    requires
        up_forward_angle_table(up, first) is Some,
        up_forward_angle_table(up, first) == up_forward_angle_table(up, second),
    ensures
        first == second,
{
}

} // verus!
