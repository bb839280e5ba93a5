//! Intelligence layer vocabulary: risk types, personas, trend directions
//! and the tool descriptions offered to AI agents.

use vstd::prelude::*;
use crate::text::{owned, views, clone_strings};

verus! {

/// Kinds of risk an analysis can report.
#[derive(Clone, Copy, Debug, PartialEq, Eq, Structural)]
pub enum RiskType {
    Weather,
    Terrain,
    Soil,
    Flooding,
    Visibility,
    Accessibility,
    SlipHazard,
    Obstacle,
    Unknown,
}

/// Human-readable description of each risk type.
pub open spec fn risk_description(r: RiskType) -> Seq<char> {
    match r {
        RiskType::Weather => "Adverse weather conditions"@,
        RiskType::Terrain => "Challenging terrain characteristics"@,
        RiskType::Soil => "Soil composition concerns"@,
        RiskType::Flooding => "Flood risk or water hazards"@,
        RiskType::Visibility => "Poor visibility for sensors"@,
        RiskType::Accessibility => "Access or navigation challenges"@,
        RiskType::SlipHazard => "Surface traction concerns"@,
        RiskType::Obstacle => "Physical obstacles present"@,
        RiskType::Unknown => "Unknown risk"@,
    }
}

impl RiskType {
    /// Human-readable description.
    pub fn description(&self) -> (s: &'static str)
        ensures
            s@ == risk_description(*self),
    {
        match self {
            RiskType::Weather => "Adverse weather conditions",
            RiskType::Terrain => "Challenging terrain characteristics",
            RiskType::Soil => "Soil composition concerns",
            RiskType::Flooding => "Flood risk or water hazards",
            RiskType::Visibility => "Poor visibility for sensors",
            RiskType::Accessibility => "Access or navigation challenges",
            RiskType::SlipHazard => "Surface traction concerns",
            RiskType::Obstacle => "Physical obstacles present",
            RiskType::Unknown => "Unknown risk",
        }
    }
}

/// AI agent or user persona.
#[derive(Clone, Copy, Debug, PartialEq, Eq, Hash, Structural)]
pub enum Persona {
    /// Autonomous ground rover/robot
    MobileRobot,
    /// Drone/quadcopter/aerial robot
    Drone,
    /// Farmer/agricultural user
    Farmer,
    /// Emergency response/disaster assessment
    DisasterResponse,
    /// Autonomous vehicle/car
    Vehicle,
    /// Geospatial analyst
    Analyst,
    /// Mission planner
    MissionPlanner,
}

/// Display name of each persona.
pub open spec fn persona_name(p: Persona) -> Seq<char> {
    match p {
        Persona::MobileRobot => "Mobile Robot"@,
        Persona::Drone => "Drone Pilot"@,
        Persona::Farmer => "Farmer"@,
        Persona::DisasterResponse => "Disaster Response"@,
        Persona::Vehicle => "Autonomous Vehicle"@,
        Persona::Analyst => "Geospatial Analyst"@,
        Persona::MissionPlanner => "Mission Planner"@,
    }
}

/// All personas, in declaration order.
pub open spec fn all_personas() -> Seq<Persona> {
    seq![
        Persona::MobileRobot,
        Persona::Drone,
        Persona::Farmer,
        Persona::DisasterResponse,
        Persona::Vehicle,
        Persona::Analyst,
        Persona::MissionPlanner,
    ]
}

impl Persona {
    /// Display name.
    pub fn name(&self) -> (s: &'static str)
        ensures
            s@ == persona_name(*self),
    {
        match self {
            Persona::MobileRobot => "Mobile Robot",
            Persona::Drone => "Drone Pilot",
            Persona::Farmer => "Farmer",
            Persona::DisasterResponse => "Disaster Response",
            Persona::Vehicle => "Autonomous Vehicle",
            Persona::Analyst => "Geospatial Analyst",
            Persona::MissionPlanner => "Mission Planner",
        }
    }

    /// All personas.
    pub fn all() -> (v: Vec<Persona>)
        ensures
            v@ == all_personas(),
    {
        let mut v: Vec<Persona> = Vec::new();
        v.push(Persona::MobileRobot);
        v.push(Persona::Drone);
        v.push(Persona::Farmer);
        v.push(Persona::DisasterResponse);
        v.push(Persona::Vehicle);
        v.push(Persona::Analyst);
        v.push(Persona::MissionPlanner);
        assert(v@ =~= all_personas());
        v
    }
}

/// Every persona is listed by `all`, exactly once.
pub proof fn lemma_all_personas_complete(p: Persona)
    ensures
        all_personas().contains(p),
        all_personas().len() == 7,
        all_personas().no_duplicates(),
{
    let s = all_personas();
    match p {
        Persona::MobileRobot => { assert(s[0] == p); },
        Persona::Drone => { assert(s[1] == p); },
        Persona::Farmer => { assert(s[2] == p); },
        Persona::DisasterResponse => { assert(s[3] == p); },
        Persona::Vehicle => { assert(s[4] == p); },
        Persona::Analyst => { assert(s[5] == p); },
        Persona::MissionPlanner => { assert(s[6] == p); },
    }
}

/// Position of each persona in `all_personas()`.
pub open spec fn persona_slot(p: Persona) -> int {
    match p {
        Persona::MobileRobot => 0,
        Persona::Drone => 1,
        Persona::Farmer => 2,
        Persona::DisasterResponse => 3,
        Persona::Vehicle => 4,
        Persona::Analyst => 5,
        Persona::MissionPlanner => 6,
    }
}

fn slot_of(p: Persona) -> (i: usize)
    ensures
        i == persona_slot(p),
{
    match p {
        Persona::MobileRobot => 0,
        Persona::Drone => 1,
        Persona::Farmer => 2,
        Persona::DisasterResponse => 3,
        Persona::Vehicle => 4,
        Persona::Analyst => 5,
        Persona::MissionPlanner => 6,
    }
}

/// Recommendations of a terrain analysis, kept per persona in the order
/// they were added.
#[derive(Clone, Debug)]
pub struct PersonaRecommendations {
    by_persona: Vec<Vec<String>>,
}

impl PersonaRecommendations {
    /// One list per persona.
    pub closed spec fn wf(&self) -> bool {
        self.by_persona@.len() == 7
    }

    /// The recommendations given so far to persona `p`.
    pub closed spec fn advice(&self, p: Persona) -> Seq<Seq<char>> {
        views(self.by_persona@[persona_slot(p)]@)
    }

    /// No recommendations for anyone.
    pub fn new() -> (r: Self)
        ensures
            r.wf(),
            forall|p: Persona| #[trigger] r.advice(p) == Seq::<Seq<char>>::empty(),
    {
        let mut by_persona: Vec<Vec<String>> = Vec::new();
        let mut i: usize = 0;
        while i < 7
            invariant
                i <= 7,
                by_persona@.len() == i,
                forall|k: int| 0 <= k < i ==> (#[trigger] by_persona@[k])@.len() == 0,
            decreases 7 - i,
        {
            by_persona.push(Vec::new());
            i = i + 1;
        }
        let r = PersonaRecommendations { by_persona };
        assert forall|p: Persona| #[trigger] r.advice(p) == Seq::<Seq<char>>::empty() by {
            assert(r.by_persona@[persona_slot(p)]@.len() == 0);
            assert(views(r.by_persona@[persona_slot(p)]@) =~= Seq::<Seq<char>>::empty());
        }
        r
    }

    /// Adds a recommendation for `persona`, after those it already has.
    pub fn add_recommendation(&mut self, persona: Persona, recommendation: String)
        requires
            old(self).wf(),
        ensures
            final(self).wf(),
            final(self).advice(persona) == old(self).advice(persona).push(recommendation@),
            forall|q: Persona|
                q != persona ==> #[trigger] final(self).advice(q) == old(self).advice(q),
    {
        let i = slot_of(persona);
        let ghost rec = recommendation@;
        let ghost before = self.by_persona@;
        self.by_persona[i].push(recommendation);
        assert(views(self.by_persona@[i as int]@) =~= views(before[i as int]@).push(rec));
        assert forall|q: Persona| q != persona implies #[trigger] self.advice(q) == old(self).advice(q) by {
            assert(persona_slot(q) != persona_slot(persona));
        }
    }

    /// Recommendations for `persona`, oldest first.
    pub fn advice_for(&self, persona: &Persona) -> (r: Vec<String>)
        requires
            self.wf(),
        ensures
            views(r@) == self.advice(*persona),
    {
        let i = slot_of(*persona);
        clone_strings(&self.by_persona[i])
    }
}

/// Direction of an observed trend.
#[derive(Clone, Copy, Debug, PartialEq, Eq, Structural)]
pub enum TrendDirection {
    Increasing,
    Decreasing,
    Stable,
}

/// Parameter list of a tool schema (simplified).
#[derive(Clone, Debug)]
pub struct MCPSchema {
    /// Parameter names.
    pub parameters: Vec<String>,
}

/// Tool definition offered to AI agents.
#[derive(Clone, Debug)]
pub struct MCPTool {
    /// Tool name
    pub name: String,
    /// Tool description
    pub description: String,
    /// Input schema
    pub input_schema: MCPSchema,
    /// Output schema
    pub output_schema: MCPSchema,
    /// Relevant personas
    pub personas: Vec<Persona>,
}

/// Builds a schema from parameter names.
fn schema(names: &[&str]) -> (s: MCPSchema)
    ensures
        views(s.parameters@) == names@.map_values(|n: &str| n@),
{
    let mut parameters: Vec<String> = Vec::new();
    let mut i: usize = 0;
    while i < names.len()
        invariant
            i <= names@.len(),
            views(parameters@) == names@.take(i as int).map_values(|n: &str| n@),
        decreases names.len() - i,
    {
        let ghost prev = parameters@;
        parameters.push(owned(names[i]));
        assert(views(parameters@) =~= views(prev).push(names@[i as int]@));
        assert(names@.take(i + 1).map_values(|n: &str| n@)
            =~= names@.take(i as int).map_values(|n: &str| n@).push(names@[i as int]@));
        i = i + 1;
    }
    assert(names@.take(names@.len() as int) =~= names@);
    MCPSchema { parameters }
}

impl MCPTool {
    /// Terrain assessment tool.
    pub fn terrain_assessment() -> (t: Self)
        ensures
            t.name@ == "terrain_assessment"@,
            t.description@
                == "Evaluate a location for mobility, agriculture, weather, and terrain risks."@,
            views(t.input_schema.parameters@) == seq!["latitude"@, "longitude"@, "persona"@],
            views(t.output_schema.parameters@) == seq![
                "summary"@,
                "observations"@,
                "risks"@,
                "recommendations"@,
            ],
            t.personas@ == all_personas(),
    {
        let input = ["latitude", "longitude", "persona"];
        let output = ["summary", "observations", "risks", "recommendations"];
        let input_schema = schema(&input);
        let output_schema = schema(&output);
        assert(input@.map_values(|n: &str| n@) =~= seq!["latitude"@, "longitude"@, "persona"@]);
        assert(output@.map_values(|n: &str| n@) =~= seq![
            "summary"@,
            "observations"@,
            "risks"@,
            "recommendations"@,
        ]);
        MCPTool {
            name: owned("terrain_assessment"),
            description: owned(
                "Evaluate a location for mobility, agriculture, weather, and terrain risks.",
            ),
            input_schema,
            output_schema,
            personas: Persona::all(),
        }
    }

    /// Mobility assessment tool.
    pub fn mobility_assessment() -> (t: Self)
        ensures
            t.name@ == "mobility_assessment"@,
            t.description@ == "Check if a robot can traverse a location safely."@,
            views(t.input_schema.parameters@) == seq!["latitude"@, "longitude"@, "robot_type"@],
            views(t.output_schema.parameters@) == seq![
                "traversable"@,
                "difficulty"@,
                "hazards"@,
                "recommended_speed_ms"@,
            ],
            t.personas@ == seq![Persona::MobileRobot, Persona::Drone, Persona::Vehicle],
    {
        let input = ["latitude", "longitude", "robot_type"];
        let output = ["traversable", "difficulty", "hazards", "recommended_speed_ms"];
        let input_schema = schema(&input);
        let output_schema = schema(&output);
        assert(input@.map_values(|n: &str| n@) =~= seq!["latitude"@, "longitude"@, "robot_type"@]);
        assert(output@.map_values(|n: &str| n@) =~= seq![
            "traversable"@,
            "difficulty"@,
            "hazards"@,
            "recommended_speed_ms"@,
        ]);
        let mut personas: Vec<Persona> = Vec::new();
        personas.push(Persona::MobileRobot);
        personas.push(Persona::Drone);
        personas.push(Persona::Vehicle);
        assert(personas@ =~= seq![Persona::MobileRobot, Persona::Drone, Persona::Vehicle]);
        MCPTool {
            name: owned("mobility_assessment"),
            description: owned("Check if a robot can traverse a location safely."),
            input_schema,
            output_schema,
            personas,
        }
    }

    /// Data explanation tool.
    pub fn explain_field() -> (t: Self)
        ensures
            t.name@ == "explain_field"@,
            t.description@ == "Get detailed explanation of what a data field means."@,
            views(t.input_schema.parameters@) == seq!["field_name"@],
            views(t.output_schema.parameters@) == seq![
                "description"@,
                "applications"@,
                "confidence"@,
                "source"@,
            ],
            t.personas@ == all_personas(),
    {
        let input = ["field_name"];
        let output = ["description", "applications", "confidence", "source"];
        let input_schema = schema(&input);
        let output_schema = schema(&output);
        assert(input@.map_values(|n: &str| n@) =~= seq!["field_name"@]);
        assert(output@.map_values(|n: &str| n@) =~= seq![
            "description"@,
            "applications"@,
            "confidence"@,
            "source"@,
        ]);
        MCPTool {
            name: owned("explain_field"),
            description: owned("Get detailed explanation of what a data field means."),
            input_schema,
            output_schema,
            personas: Persona::all(),
        }
    }
}

} // verus!
