//! Classes of dynamic objects and how quickly belief in their position decays.

use vstd::prelude::*;
use crate::text::str_eq;

verus! {

/// Classification of dynamic objects in the warehouse.
#[derive(Clone, Copy, Debug, PartialEq, Eq, Hash, Structural)]
pub enum ObjectClass {
    Pallet,
    Box,
    Cart,
    Shelf,
    Machine,
    Forklift,
    Person,
    Unknown,
}

/// Canonical display name of an object class.
pub open spec fn object_class_name(c: ObjectClass) -> Seq<char> {
    match c {
        ObjectClass::Pallet => "Pallet"@,
        ObjectClass::Box => "Box"@,
        ObjectClass::Cart => "Cart"@,
        ObjectClass::Shelf => "Shelf"@,
        ObjectClass::Machine => "Machine"@,
        ObjectClass::Forklift => "Forklift"@,
        ObjectClass::Person => "Person"@,
        ObjectClass::Unknown => "Unknown"@,
    }
}

/// Object class named by `s`; unrecognised names give `Unknown`.
pub open spec fn object_class_from_name(s: Seq<char>) -> ObjectClass {
    if s == "Pallet"@ {
        ObjectClass::Pallet
    } else if s == "Box"@ {
        ObjectClass::Box
    } else if s == "Cart"@ {
        ObjectClass::Cart
    } else if s == "Shelf"@ {
        ObjectClass::Shelf
    } else if s == "Machine"@ {
        ObjectClass::Machine
    } else if s == "Forklift"@ {
        ObjectClass::Forklift
    } else if s == "Person"@ {
        ObjectClass::Person
    } else {
        ObjectClass::Unknown
    }
}

impl ObjectClass {
    pub fn as_str(&self) -> (s: &'static str)
        ensures
            s@ == object_class_name(*self),
    {
        match self {
            ObjectClass::Pallet => "Pallet",
            ObjectClass::Box => "Box",
            ObjectClass::Cart => "Cart",
            ObjectClass::Shelf => "Shelf",
            ObjectClass::Machine => "Machine",
            ObjectClass::Forklift => "Forklift",
            ObjectClass::Person => "Person",
            ObjectClass::Unknown => "Unknown",
        }
    }

    pub fn from_str(s: &str) -> (c: ObjectClass)
        ensures
            c == object_class_from_name(s@),
    {
        if str_eq(s, "Pallet") {
            ObjectClass::Pallet
        } else if str_eq(s, "Box") {
            ObjectClass::Box
        } else if str_eq(s, "Cart") {
            ObjectClass::Cart
        } else if str_eq(s, "Shelf") {
            ObjectClass::Shelf
        } else if str_eq(s, "Machine") {
            ObjectClass::Machine
        } else if str_eq(s, "Forklift") {
            ObjectClass::Forklift
        } else if str_eq(s, "Person") {
            ObjectClass::Person
        } else {
            ObjectClass::Unknown
        }
    }
}

/// How quickly an object's confidence decays.
#[derive(Clone, Copy, Debug, PartialEq, Eq, Hash, Structural)]
pub enum ObjectMobility {
    /// Walls, permanent fixtures (90-day decay)
    Fixed,
    /// Pallets, boxes (8-hour decay)
    Movable,
    /// Carts, forklifts (2-hour decay)
    Mobile,
    /// People (30-minute decay)
    Dynamic,
}

/// Half-life of confidence in milliseconds for each mobility class.
pub open spec fn half_life_ms(m: ObjectMobility) -> nat {
    match m {
        ObjectMobility::Fixed => 90 * 24 * 60 * 60 * 1000,
        ObjectMobility::Movable => 8 * 60 * 60 * 1000,
        ObjectMobility::Mobile => 2 * 60 * 60 * 1000,
        ObjectMobility::Dynamic => 30 * 60 * 1000,
    }
}

/// Mobility assigned to each object class.
pub open spec fn mobility_of(c: ObjectClass) -> ObjectMobility {
    match c {
        ObjectClass::Pallet => ObjectMobility::Movable,
        ObjectClass::Box => ObjectMobility::Movable,
        ObjectClass::Cart => ObjectMobility::Mobile,
        ObjectClass::Shelf => ObjectMobility::Fixed,
        ObjectClass::Machine => ObjectMobility::Fixed,
        ObjectClass::Forklift => ObjectMobility::Mobile,
        ObjectClass::Person => ObjectMobility::Dynamic,
        ObjectClass::Unknown => ObjectMobility::Movable,
    }
}

impl ObjectMobility {
    /// Half-life in milliseconds.
    pub fn decay_half_life_ms(&self) -> (ms: u64)
        ensures
            ms == half_life_ms(*self),
    {
        match self {
            ObjectMobility::Fixed => 90 * 24 * 60 * 60 * 1000,
            ObjectMobility::Movable => 8 * 60 * 60 * 1000,
            ObjectMobility::Mobile => 2 * 60 * 60 * 1000,
            ObjectMobility::Dynamic => 30 * 60 * 1000,
        }
    }

    pub fn for_class(class: ObjectClass) -> (m: ObjectMobility)
        ensures
            m == mobility_of(class),
            class == ObjectClass::Pallet || class == ObjectClass::Box || class
                == ObjectClass::Unknown <==> m == ObjectMobility::Movable,
            class == ObjectClass::Cart || class == ObjectClass::Forklift <==> m
                == ObjectMobility::Mobile,
            class == ObjectClass::Shelf || class == ObjectClass::Machine <==> m
                == ObjectMobility::Fixed,
            class == ObjectClass::Person <==> m == ObjectMobility::Dynamic,
    {
        match class {
            ObjectClass::Pallet => ObjectMobility::Movable,
            ObjectClass::Box => ObjectMobility::Movable,
            ObjectClass::Cart => ObjectMobility::Mobile,
            ObjectClass::Shelf => ObjectMobility::Fixed,
            ObjectClass::Machine => ObjectMobility::Fixed,
            ObjectClass::Forklift => ObjectMobility::Mobile,
            ObjectClass::Person => ObjectMobility::Dynamic,
            ObjectClass::Unknown => ObjectMobility::Movable,
        }
    }
}

/// The more mobile an object, the shorter the half-life of belief in its
/// position: Fixed > Movable > Mobile > Dynamic.
pub proof fn lemma_half_life_ordering()
    ensures
        half_life_ms(ObjectMobility::Fixed) > half_life_ms(ObjectMobility::Movable),
        half_life_ms(ObjectMobility::Movable) > half_life_ms(ObjectMobility::Mobile),
        half_life_ms(ObjectMobility::Mobile) > half_life_ms(ObjectMobility::Dynamic),
        half_life_ms(ObjectMobility::Dynamic) > 0,
{
}

/// How long belief in an object's position lasts, by class: pallets, boxes
/// and unknown objects are movable (8 hours); carts and forklifts are mobile
/// (2 hours); shelves and machines are fixed (90 days); people are dynamic
/// (30 minutes).
pub proof fn lemma_mobility_by_class(c: ObjectClass)
    ensures
        c == ObjectClass::Pallet || c == ObjectClass::Box || c == ObjectClass::Unknown
            <==> mobility_of(c) == ObjectMobility::Movable,
        c == ObjectClass::Cart || c == ObjectClass::Forklift <==> mobility_of(c)
            == ObjectMobility::Mobile,
        c == ObjectClass::Shelf || c == ObjectClass::Machine <==> mobility_of(c)
            == ObjectMobility::Fixed,
        c == ObjectClass::Person <==> mobility_of(c) == ObjectMobility::Dynamic,
        c == ObjectClass::Pallet || c == ObjectClass::Box || c == ObjectClass::Unknown
            ==> half_life_ms(mobility_of(c)) == 28_800_000,
        c == ObjectClass::Cart || c == ObjectClass::Forklift ==> half_life_ms(mobility_of(c))
            == 7_200_000,
        c == ObjectClass::Shelf || c == ObjectClass::Machine ==> half_life_ms(mobility_of(c))
            == 7_776_000_000,
        c == ObjectClass::Person ==> half_life_ms(mobility_of(c)) == 1_800_000,
{
}

/// Every object-class name parses back to the class it names.
pub proof fn lemma_object_class_round_trip(c: ObjectClass)
    ensures
        object_class_from_name(object_class_name(c)) == c,
{
    reveal_strlit("Pallet");
    reveal_strlit("Box");
    reveal_strlit("Cart");
    reveal_strlit("Shelf");
    reveal_strlit("Machine");
    reveal_strlit("Forklift");
    reveal_strlit("Person");
    reveal_strlit("Unknown");
    assert("Pallet"@.len() == 6 && "Box"@.len() == 3 && "Cart"@.len() == 4);
    assert("Shelf"@.len() == 5 && "Machine"@.len() == 7 && "Forklift"@.len() == 8);
    assert("Person"@.len() == 6 && "Unknown"@.len() == 7);
    assert("Pallet"@ != "Person"@) by { assert("Pallet"@[1] != "Person"@[1]); }
    assert("Machine"@ != "Unknown"@) by { assert("Machine"@[0] != "Unknown"@[0]); }
    match c {
        ObjectClass::Pallet => {},
        ObjectClass::Box => {},
        ObjectClass::Cart => {},
        ObjectClass::Shelf => {},
        ObjectClass::Machine => {},
        ObjectClass::Forklift => {},
        ObjectClass::Person => {},
        ObjectClass::Unknown => {},
    }
}

} // verus!
