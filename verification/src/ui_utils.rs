//! Conversions between the enumerations shown in dropdowns and the positions
//! of their entries, together with the entries' labels.
use vstd::prelude::*;
use crate::input::{Axis, Coordinate, Direction};

verus! {

/// The dropdown position of a direction.
pub open spec fn direction_index(direction: Direction) -> int {
    match direction {
        Direction::Click => 0,
        Direction::Press => 1,
        Direction::Release => 2,
    }
}

/// The direction at a dropdown position; positions past the end fall back to `Click`.
pub open spec fn direction_at(index: int) -> Direction {
    if index == 1 {
        Direction::Press
    } else if index == 2 {
        Direction::Release
    } else {
        Direction::Click
    }
}

/// The labels of the direction dropdown, in order.
pub open spec fn direction_labels() -> Seq<Seq<char>> {
    seq!["Click"@, "Press"@, "Release"@]
}

pub fn direction_to_index(direction: &Direction) -> (index: usize)
    ensures
        index == direction_index(*direction),
{
    match direction {
        Direction::Click => 0,
        Direction::Press => 1,
        Direction::Release => 2,
    }
}

pub fn index_to_direction(index: usize) -> (direction: Direction)
    ensures
        direction == direction_at(index as int),
{
    match index {
        0 => Direction::Click,
        1 => Direction::Press,
        2 => Direction::Release,
        _ => Direction::Click,
    }
}

pub fn get_direction_names() -> (names: &'static [&'static str])
    ensures
        names@.map_values(|s: &str| s@) == direction_labels(),
{
    let names: &'static [&'static str] = &["Click", "Press", "Release"];
    names
}

/// The dropdown position of a coordinate mode.
pub open spec fn coordinate_index(coordinate: Coordinate) -> int {
    match coordinate {
        Coordinate::Abs => 0,
        Coordinate::Rel => 1,
    }
}

/// The coordinate mode at a dropdown position; positions past the end fall back to `Abs`.
pub open spec fn coordinate_at(index: int) -> Coordinate {
    if index == 1 {
        Coordinate::Rel
    } else {
        Coordinate::Abs
    }
}

/// The labels of the coordinate dropdown, in order.
pub open spec fn coordinate_labels() -> Seq<Seq<char>> {
    seq!["Absolute"@, "Relative"@]
}

/// The dropdown position of a scroll axis.
pub open spec fn axis_index(axis: Axis) -> int {
    match axis {
        Axis::Vertical => 0,
        Axis::Horizontal => 1,
    }
}

/// The scroll axis at a dropdown position; positions past the end fall back to `Vertical`.
pub open spec fn axis_at(index: int) -> Axis {
    if index == 1 {
        Axis::Horizontal
    } else {
        Axis::Vertical
    }
}

/// The labels of the axis dropdown, in order.
pub open spec fn axis_labels() -> Seq<Seq<char>> {
    seq!["Vertical"@, "Horizontal"@]
}

pub fn coordinate_to_index(coordinate: &Coordinate) -> (index: usize)
    ensures
        index == coordinate_index(*coordinate),
{
    match coordinate {
        Coordinate::Abs => 0,
        Coordinate::Rel => 1,
    }
}

pub fn index_to_coordinate(index: usize) -> (coordinate: Coordinate)
    ensures
        coordinate == coordinate_at(index as int),
{
    match index {
        0 => Coordinate::Abs,
        1 => Coordinate::Rel,
        _ => Coordinate::Abs,
    }
}

pub fn axis_to_index(axis: &Axis) -> (index: usize)
    ensures
        index == axis_index(*axis),
{
    match axis {
        Axis::Vertical => 0,
        Axis::Horizontal => 1,
    }
}

pub fn index_to_axis(index: usize) -> (axis: Axis)
    ensures
        axis == axis_at(index as int),
{
    match index {
        0 => Axis::Vertical,
        1 => Axis::Horizontal,
        _ => Axis::Vertical,
    }
}

pub fn get_coordinate_names() -> (names: &'static [&'static str])
    ensures
        names@.map_values(|s: &str| s@) == coordinate_labels(),
{
    let names: &'static [&'static str] = &["Absolute", "Relative"];
    names
}

pub fn get_axis_names() -> (names: &'static [&'static str])
    ensures
        names@.map_values(|s: &str| s@) == axis_labels(),
{
    let names: &'static [&'static str] = &["Vertical", "Horizontal"];
    names
}

/// Every direction sits at a position of the direction dropdown, and reading
/// that position back gives the same direction.
pub proof fn lemma_direction_roundtrip(direction: Direction)
    ensures
        0 <= direction_index(direction) < direction_labels().len(),
        direction_at(direction_index(direction)) == direction,
{
}

/// Every position of the direction dropdown names a direction whose position it is.
pub proof fn lemma_direction_position_roundtrip(index: int)
    requires
        0 <= index < direction_labels().len(),
    ensures
        direction_index(direction_at(index)) == index,
{
}

/// Every coordinate mode sits at a position of its dropdown, and reading that
/// position back gives the same mode.
pub proof fn lemma_coordinate_roundtrip(coordinate: Coordinate)
    ensures
        0 <= coordinate_index(coordinate) < coordinate_labels().len(),
        coordinate_at(coordinate_index(coordinate)) == coordinate,
{
}

/// Every position of the coordinate dropdown names a mode whose position it is.
pub proof fn lemma_coordinate_position_roundtrip(index: int)
    requires
        0 <= index < coordinate_labels().len(),
    ensures
        coordinate_index(coordinate_at(index)) == index,
{
}

/// Every axis sits at a position of the axis dropdown, and reading that
/// position back gives the same axis.
pub proof fn lemma_axis_roundtrip(axis: Axis)
    ensures
        0 <= axis_index(axis) < axis_labels().len(),
        axis_at(axis_index(axis)) == axis,
{
}

/// Every position of the axis dropdown names an axis whose position it is.
pub proof fn lemma_axis_position_roundtrip(index: int)
    requires
        0 <= index < axis_labels().len(),
    ensures
        axis_index(axis_at(index)) == index,
{
}

} // verus!
