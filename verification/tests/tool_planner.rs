use reverse_period::meta_cognitive::{
    Entities, IntentAnalysis, MetaCognitiveToolSelector, ToolCall, ToolType,
};

fn texts(v: &[&str]) -> Vec<String> {
    v.iter().map(|s| s.to_string()).collect()
}

fn intent(kind: &str, patterns: &[&str], actions: &[&str], symbols: &[&str], why: bool) -> IntentAnalysis {
    IntentAnalysis {
        intent_type: kind.to_string(),
        relations: texts(&["entity_pattern", "action_trade"]),
        entities: Entities {
            symbols: texts(symbols),
            patterns: texts(patterns),
            actions: texts(actions),
            timeframes: vec![],
        },
        complexity: 2,
        requires_introspection: why,
    }
}

fn names(plan: &[ToolCall]) -> Vec<String> {
    plan.iter().map(|c| c.tool_name.clone()).collect()
}

fn param(c: &ToolCall, key: &str) -> String {
    c.parameters.iter().find(|(k, _)| k == key).map(|(_, v)| v.clone()).unwrap()
}

#[test]
fn tool_types_compare() {
    assert_eq!(ToolType::Perception, ToolType::Perception);
    assert_ne!(ToolType::Decision, ToolType::Execution);
}

#[test]
fn perception_query_is_parsed() {
    let sel = MetaCognitiveToolSelector::new();
    let a = sel.analyze_intent("Encode the IXwXB pattern for EURUSD");
    assert_eq!(a.intent_type, "PERCEPTION");
    assert_eq!(a.entities.patterns, texts(&["IXwXB"]));
    assert_eq!(a.entities.symbols, texts(&["EURUSD"]));
    assert_eq!(a.entities.actions, texts(&["ENCODE"]));
    assert!(a.entities.timeframes.is_empty());
    assert_eq!(a.relations, texts(&["entity_pattern", "action_trade"]));
    assert_eq!(a.complexity, 2);
    assert!(!a.requires_introspection);
}

#[test]
fn classification_ignores_case() {
    let sel = MetaCognitiveToolSelector::new();
    assert_eq!(sel.analyze_intent("SEARCH SIMILAR setups").intent_type, "REASONING");
}

#[test]
fn classification_follows_keyword_priority() {
    let sel = MetaCognitiveToolSelector::new();
    assert_eq!(sel.analyze_intent("should i check this trade").intent_type, "DECISION");
    assert_eq!(sel.analyze_intent("buy now").intent_type, "EXECUTION");
    assert_eq!(sel.analyze_intent("analyze the regime").intent_type, "INTROSPECTION");
    assert_eq!(sel.analyze_intent("hello there").intent_type, "COMPOSITE");
    assert_eq!(sel.analyze_intent("convert and trade").intent_type, "PERCEPTION");
}

#[test]
fn actions_are_reported_in_list_order() {
    let sel = MetaCognitiveToolSelector::new();
    let a = sel.analyze_intent("sell or buy, then validate and hold");
    assert_eq!(a.entities.actions, texts(&["BUY", "SELL", "HOLD", "VALIDATE"]));
}

#[test]
fn introspection_triggers() {
    let sel = MetaCognitiveToolSelector::new();
    assert!(sel.analyze_intent("Why did you buy?").requires_introspection);
    assert!(sel.analyze_intent("what is your CONFIDENCE").requires_introspection);
    assert!(!sel.analyze_intent("buy EURUSD").requires_introspection);
}

#[test]
fn several_patterns_and_symbols() {
    let sel = MetaCognitiveToolSelector::new();
    let a = sel.analyze_intent("query IXB and UDWwD on GBPUSD and USDJPY");
    assert_eq!(a.entities.patterns, texts(&["IXB", "UDWwD"]));
    assert_eq!(a.entities.symbols, texts(&["GBPUSD", "USDJPY"]));
}

#[test]
fn perception_plan_encodes() {
    let sel = MetaCognitiveToolSelector::new();
    let plan = sel.generate_tool_plan(&intent("PERCEPTION", &["IXB", "WWD"], &[], &[], false));
    assert_eq!(names(&plan), texts(&["encode_candles"]));
    assert_eq!(plan[0].reasoning, "User wants to encode 2 pattern(s)");
    assert_eq!(plan[0].confidence, 90);
    assert_eq!(param(&plan[0], "ohlcv_data"), "INPUT_DATA");
    assert_eq!(plan[0].expected_outcome, "Symbolic pattern sequence");
}

#[test]
fn perception_without_patterns_falls_back_to_pipeline() {
    let sel = MetaCognitiveToolSelector::new();
    let plan = sel.generate_tool_plan(&intent("PERCEPTION", &[], &[], &[], false));
    assert_eq!(
        names(&plan),
        texts(&["encode_candles", "query_patterns", "validate_signal", "get_trade_recommendation"])
    );
    assert_eq!(plan[0].reasoning, "No patterns provided - must encode first");
}

#[test]
fn reasoning_plan_queries_first_pattern() {
    let sel = MetaCognitiveToolSelector::new();
    let plan = sel.generate_tool_plan(&intent("REASONING", &["IXB", "WWD"], &[], &[], false));
    assert_eq!(names(&plan), texts(&["query_patterns"]));
    assert_eq!(param(&plan[0], "pattern_sequence"), "IXB");
    assert_eq!(plan[0].confidence, 85);
}

#[test]
fn decision_plan_uses_defaults() {
    let sel = MetaCognitiveToolSelector::new();
    let plan = sel.generate_tool_plan(&intent("DECISION", &[], &[], &[], false));
    assert_eq!(names(&plan), texts(&["validate_signal"]));
    assert_eq!(param(&plan[0], "pattern_sequence"), "");
    assert_eq!(param(&plan[0], "proposed_action"), "HOLD");
    assert_eq!(plan[0].reasoning, "Validate UNKNOWN against pattern history");
    assert_eq!(plan[0].confidence, 80);
    let plan = sel.generate_tool_plan(&intent("DECISION", &["BUD"], &["SELL"], &[], false));
    assert_eq!(param(&plan[0], "proposed_action"), "SELL");
    assert_eq!(plan[0].reasoning, "Validate SELL against pattern history");
}

#[test]
fn execution_plan_has_two_steps() {
    let sel = MetaCognitiveToolSelector::new();
    let plan = sel.generate_tool_plan(&intent("EXECUTION", &[], &[], &[], false));
    assert_eq!(names(&plan), texts(&["analyze_regime", "get_trade_recommendation"]));
    assert_eq!(param(&plan[1], "symbol"), "EURUSD");
    let plan = sel.generate_tool_plan(&intent("EXECUTION", &["XXB"], &[], &["USDCHF"], false));
    assert_eq!(param(&plan[1], "symbol"), "USDCHF");
    assert_eq!(param(&plan[1], "current_patterns"), "XXB");
}

#[test]
fn introspection_plan_and_appended_step() {
    let sel = MetaCognitiveToolSelector::new();
    let plan = sel.generate_tool_plan(&intent("INTROSPECTION", &[], &[], &[], true));
    assert_eq!(names(&plan), texts(&["analyze_regime", "analyze_regime"]));
    assert_eq!(plan[0].reasoning, "Self-analysis of current market state");
    assert_eq!(plan[1].reasoning, "Metacognitive: analyze why this decision was made");
    assert_eq!(param(&plan[1], "pattern_sequence"), "FROM_PREVIOUS");
}

#[test]
fn composite_with_patterns_skips_encoding() {
    let sel = MetaCognitiveToolSelector::new();
    let plan = sel.generate_tool_plan(&intent("COMPOSITE", &["IXB"], &[], &[], false));
    assert_eq!(names(&plan), texts(&["query_patterns", "validate_signal", "get_trade_recommendation"]));
    assert_eq!(param(&plan[1], "proposed_action"), "INFERRED");
}

#[test]
fn executing_a_plan_rates_every_step() {
    let mut sel = MetaCognitiveToolSelector::new();
    let plan = sel.generate_tool_plan(&intent("COMPOSITE", &[], &[], &[], true));
    let out = sel.execute_plan(&plan);
    assert_eq!(out.results.len(), plan.len());
    assert!(out.plan_completed);
    assert_eq!(out.adaptations_made, 0);
    for (r, c) in out.results.iter().zip(plan.iter()) {
        assert_eq!(r.tool, c.tool_name);
        assert_eq!(r.reasoning, c.reasoning);
        assert_eq!(r.quality, 90);
        assert_eq!(
            r.result,
            vec![
                ("tool_name".to_string(), c.tool_name.clone()),
                ("status".to_string(), "success".to_string()),
                ("data".to_string(), format!("Simulated result from {}", c.tool_name)),
            ]
        );
    }
}

#[test]
fn executing_an_empty_plan() {
    let mut sel = MetaCognitiveToolSelector::new();
    let out = sel.execute_plan(&[]);
    assert!(out.results.is_empty());
    assert!(out.plan_completed);
}
