//! Terrain classification used by the probabilistic world model.

use vstd::prelude::*;
use crate::text::str_eq;

verus! {

/// Terrain classification of a splat.
#[derive(Clone, Copy, Debug, PartialEq, Eq, Hash, Structural)]
pub enum TerrainType {
    Road,
    Grass,
    Mud,
    Water,
    Sand,
    Corridor,
    Stairs,
    Obstacle,
    ChargingStation,
    RestrictedArea,
    /// Unclassified terrain; the code distinguishes kinds of "unknown".
    Unknown(u8),
}

/// Canonical display name of a terrain type.
pub open spec fn terrain_name(t: TerrainType) -> Seq<char> {
    match t {
        TerrainType::Road => "Road"@,
        TerrainType::Grass => "Grass"@,
        TerrainType::Mud => "Mud"@,
        TerrainType::Water => "Water"@,
        TerrainType::Sand => "Sand"@,
        TerrainType::Corridor => "Corridor"@,
        TerrainType::Stairs => "Stairs"@,
        TerrainType::Obstacle => "Obstacle"@,
        TerrainType::ChargingStation => "ChargingStation"@,
        TerrainType::RestrictedArea => "RestrictedArea"@,
        TerrainType::Unknown(_) => "Unknown"@,
    }
}

/// Terrain type named by `s`; any name that is not one of the ten known
/// names parses as `Unknown(0)`.
pub open spec fn terrain_from_name(s: Seq<char>) -> TerrainType {
    if s == "Road"@ {
        TerrainType::Road
    } else if s == "Grass"@ {
        TerrainType::Grass
    } else if s == "Mud"@ {
        TerrainType::Mud
    } else if s == "Water"@ {
        TerrainType::Water
    } else if s == "Sand"@ {
        TerrainType::Sand
    } else if s == "Corridor"@ {
        TerrainType::Corridor
    } else if s == "Stairs"@ {
        TerrainType::Stairs
    } else if s == "Obstacle"@ {
        TerrainType::Obstacle
    } else if s == "ChargingStation"@ {
        TerrainType::ChargingStation
    } else if s == "RestrictedArea"@ {
        TerrainType::RestrictedArea
    } else {
        TerrainType::Unknown(0)
    }
}

impl TerrainType {
    pub fn as_str(&self) -> (s: &'static str)
        ensures
            s@ == terrain_name(*self),
    {
        match self {
            TerrainType::Road => "Road",
            TerrainType::Grass => "Grass",
            TerrainType::Mud => "Mud",
            TerrainType::Water => "Water",
            TerrainType::Sand => "Sand",
            TerrainType::Corridor => "Corridor",
            TerrainType::Stairs => "Stairs",
            TerrainType::Obstacle => "Obstacle",
            TerrainType::ChargingStation => "ChargingStation",
            TerrainType::RestrictedArea => "RestrictedArea",
            TerrainType::Unknown(_) => "Unknown",
        }
    }

    pub fn from_str(s: &str) -> (t: TerrainType)
        ensures
            t == terrain_from_name(s@),
    {
        if str_eq(s, "Road") {
            TerrainType::Road
        } else if str_eq(s, "Grass") {
            TerrainType::Grass
        } else if str_eq(s, "Mud") {
            TerrainType::Mud
        } else if str_eq(s, "Water") {
            TerrainType::Water
        } else if str_eq(s, "Sand") {
            TerrainType::Sand
        } else if str_eq(s, "Corridor") {
            TerrainType::Corridor
        } else if str_eq(s, "Stairs") {
            TerrainType::Stairs
        } else if str_eq(s, "Obstacle") {
            TerrainType::Obstacle
        } else if str_eq(s, "ChargingStation") {
            TerrainType::ChargingStation
        } else if str_eq(s, "RestrictedArea") {
            TerrainType::RestrictedArea
        } else {
            TerrainType::Unknown(0)
        }
    }
}

/// Splat categorization used for filtering and statistics.
#[derive(Clone, Copy, Debug, PartialEq, Eq, Hash, Structural)]
pub enum SplatKind {
    Terrain,
    Traversability,
    Semantic,
    Passage,
    Prediction,
    Temporal,
}

/// Every known terrain name parses back to the terrain type it names, and the
/// name of an unknown terrain parses back to an unknown terrain.
pub proof fn lemma_terrain_name_round_trip(t: TerrainType)
    ensures
        !(t is Unknown) ==> terrain_from_name(terrain_name(t)) == t,
        t is Unknown ==> terrain_from_name(terrain_name(t)) == TerrainType::Unknown(0),
{
    reveal_strlit("Road");
    reveal_strlit("Grass");
    reveal_strlit("Mud");
    reveal_strlit("Water");
    reveal_strlit("Sand");
    reveal_strlit("Corridor");
    reveal_strlit("Stairs");
    reveal_strlit("Obstacle");
    reveal_strlit("ChargingStation");
    reveal_strlit("RestrictedArea");
    reveal_strlit("Unknown");
    assert("Road"@.len() == 4 && "Grass"@.len() == 5 && "Mud"@.len() == 3);
    assert("Water"@.len() == 5 && "Sand"@.len() == 4 && "Corridor"@.len() == 8);
    assert("Stairs"@.len() == 6 && "Obstacle"@.len() == 8 && "ChargingStation"@.len() == 15);
    assert("RestrictedArea"@.len() == 14 && "Unknown"@.len() == 7);
    assert("Grass"@ != "Water"@) by { assert("Grass"@[0] != "Water"@[0]); }
    assert("Road"@ != "Sand"@) by { assert("Road"@[0] != "Sand"@[0]); }
    assert("Corridor"@ != "Obstacle"@) by { assert("Corridor"@[0] != "Obstacle"@[0]); }
    match t {
        TerrainType::Road => {},
        TerrainType::Grass => {},
        TerrainType::Mud => {},
        TerrainType::Water => {},
        TerrainType::Sand => {},
        TerrainType::Corridor => {},
        TerrainType::Stairs => {},
        TerrainType::Obstacle => {},
        TerrainType::ChargingStation => {},
        TerrainType::RestrictedArea => {},
        TerrainType::Unknown(_) => {},
    }
}

} // verus!
