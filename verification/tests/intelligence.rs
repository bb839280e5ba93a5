use pyterrain_map::intelligence::{MCPTool, Persona, PersonaRecommendations, RiskType, TrendDirection};

#[test]
fn test_persona_name() {
    assert_eq!(Persona::Drone.name(), "Drone Pilot");
    assert_eq!(Persona::Farmer.name(), "Farmer");
}

#[test]
fn test_persona_all() {
    let personas = Persona::all();
    assert_eq!(personas.len(), 7);
}

#[test]
fn personas_listed_once_in_order() {
    let personas = Persona::all();
    assert_eq!(personas[0], Persona::MobileRobot);
    assert_eq!(personas[6], Persona::MissionPlanner);
    for (i, p) in personas.iter().enumerate() {
        for q in &personas[i + 1..] {
            assert_ne!(p, q);
        }
    }
}

#[test]
fn test_trend_enum() {
    assert_eq!(TrendDirection::Increasing, TrendDirection::Increasing);
}

#[test]
fn test_mcp_tool_terrain_assessment() {
    let tool = MCPTool::terrain_assessment();
    assert_eq!(tool.name, "terrain_assessment");
    assert_eq!(tool.personas.len(), 7); // All personas
}

#[test]
fn test_mcp_tool_mobility_assessment() {
    let tool = MCPTool::mobility_assessment();
    assert_eq!(tool.name, "mobility_assessment");
    assert_eq!(tool.personas.len(), 3); // Robot, Drone, Vehicle
}

#[test]
fn test_mcp_tool_explain_field() {
    let tool = MCPTool::explain_field();
    assert_eq!(tool.name, "explain_field");
}

#[test]
fn mcp_tool_personas_and_schemas() {
    let tool = MCPTool::mobility_assessment();
    assert_eq!(tool.personas, vec![Persona::MobileRobot, Persona::Drone, Persona::Vehicle]);
    let explain = MCPTool::explain_field();
    assert!(!explain.input_schema.parameters.is_empty());
    assert!(!explain.description.is_empty());
}

#[test]
fn test_risk_type_description() {
    assert_eq!(RiskType::Flooding.description(), "Flood risk or water hazards");
    assert_eq!(RiskType::Weather.description(), "Adverse weather conditions");
}

#[test]
fn recommendations_are_kept_per_persona() {
    let mut recs = PersonaRecommendations::new();
    assert!(recs.advice_for(&Persona::MobileRobot).is_empty());
    recs.add_recommendation(Persona::MobileRobot, "Use slow mode".to_string());
    recs.add_recommendation(Persona::Drone, "Fly above 20m".to_string());
    recs.add_recommendation(Persona::MobileRobot, "Avoid the ramp".to_string());
    assert_eq!(
        recs.advice_for(&Persona::MobileRobot),
        vec!["Use slow mode".to_string(), "Avoid the ramp".to_string()]
    );
    assert_eq!(recs.advice_for(&Persona::Drone), vec!["Fly above 20m".to_string()]);
    assert!(recs.advice_for(&Persona::Farmer).is_empty());
}
