use vstd::prelude::*;

use crate::neuro_symbolic::{build_semantic_graph, extract_relations, spec_relations};
use crate::text::{
    ascii_uppercase, decimal, is_ascii_text, lowered, mentions, regex_matches,
    str_contains, texts, to_lowercase, to_uppercase, usize_text,
};

verus! {

broadcast use vstd::string::group_string_axioms;

// --- Records ---

/// The kinds of tools the planner can call.
#[derive(Debug, Clone, Copy, PartialEq, Eq, Structural)]
pub enum ToolType {
    /// encode_candles
    Perception,
    /// query_patterns
    Reasoning,
    /// validate_signal
    Decision,
    /// get_trade_recommendation
    Execution,
    /// analyze_regime
    Introspection,
}

/// One planned tool call.
#[derive(Debug, Clone)]
pub struct ToolCall {
    pub tool_name: String,
    /// The call's parameters: key and text value of each, in the order given.
    pub parameters: Vec<(String, String)>,
    pub reasoning: String,
    /// Confidence in hundredths: 85 stands for 0.85.
    pub confidence: u32,
    pub expected_outcome: String,
}

/// Entities found in a query.
#[derive(Debug, Clone)]
pub struct Entities {
    pub symbols: Vec<String>,
    pub patterns: Vec<String>,
    pub actions: Vec<String>,
    pub timeframes: Vec<String>,
}

/// The parsed intent of a query.
#[derive(Debug, Clone)]
pub struct IntentAnalysis {
    pub intent_type: String,
    pub relations: Vec<String>,
    pub entities: Entities,
    pub complexity: usize,
    pub requires_introspection: bool,
}

/// What one executed tool call produced.
#[derive(Debug, Clone)]
pub struct ExecutionResult {
    pub tool: String,
    /// The tool's reply: key and text value of each field.
    pub result: Vec<(String, String)>,
    /// Quality in hundredths: 90 stands for 0.9.
    pub quality: u32,
    pub reasoning: String,
}

/// The outcome of executing a plan.
#[derive(Debug, Clone)]
pub struct PlanOutcome {
    pub results: Vec<ExecutionResult>,
    pub plan_completed: bool,
    pub adaptations_made: i32,
}

// --- Mathematical models ---

/// Key/value texts.
pub open spec fn pairs(p: Seq<(String, String)>) -> Seq<(Seq<char>, Seq<char>)> {
    p.map_values(|kv: (String, String)| (kv.0@, kv.1@))
}

pub struct ToolCallModel {
    pub tool_name: Seq<char>,
    pub parameters: Seq<(Seq<char>, Seq<char>)>,
    pub reasoning: Seq<char>,
    pub confidence: u32,
    pub expected_outcome: Seq<char>,
}

impl View for ToolCall {
    type V = ToolCallModel;

    open spec fn view(&self) -> ToolCallModel {
        ToolCallModel {
            tool_name: self.tool_name@,
            parameters: pairs(self.parameters@),
            reasoning: self.reasoning@,
            confidence: self.confidence,
            expected_outcome: self.expected_outcome@,
        }
    }
}

pub struct EntitiesModel {
    pub symbols: Seq<Seq<char>>,
    pub patterns: Seq<Seq<char>>,
    pub actions: Seq<Seq<char>>,
    pub timeframes: Seq<Seq<char>>,
}

impl View for Entities {
    type V = EntitiesModel;

    open spec fn view(&self) -> EntitiesModel {
        EntitiesModel {
            symbols: texts(self.symbols@),
            patterns: texts(self.patterns@),
            actions: texts(self.actions@),
            timeframes: texts(self.timeframes@),
        }
    }
}

pub struct IntentModel {
    pub intent_type: Seq<char>,
    pub relations: Seq<Seq<char>>,
    pub entities: EntitiesModel,
    pub complexity: nat,
    pub requires_introspection: bool,
}

impl View for IntentAnalysis {
    type V = IntentModel;

    open spec fn view(&self) -> IntentModel {
        IntentModel {
            intent_type: self.intent_type@,
            relations: texts(self.relations@),
            entities: self.entities@,
            complexity: self.complexity as nat,
            requires_introspection: self.requires_introspection,
        }
    }
}

pub struct ExecutionResultModel {
    pub tool: Seq<char>,
    pub result: Seq<(Seq<char>, Seq<char>)>,
    pub quality: u32,
    pub reasoning: Seq<char>,
}

impl View for ExecutionResult {
    type V = ExecutionResultModel;

    open spec fn view(&self) -> ExecutionResultModel {
        ExecutionResultModel {
            tool: self.tool@,
            result: pairs(self.result@),
            quality: self.quality,
            reasoning: self.reasoning@,
        }
    }
}

/// The models of a sequence of tool calls.
pub open spec fn calls(v: Seq<ToolCall>) -> Seq<ToolCallModel> {
    v.map_values(|c: ToolCall| c@)
}

/// The models of a sequence of execution results.
pub open spec fn results(v: Seq<ExecutionResult>) -> Seq<ExecutionResultModel> {
    v.map_values(|r: ExecutionResult| r@)
}

/// The first text of `s`, or `default` when there is none.
pub open spec fn first_or(s: Seq<Seq<char>>, default: Seq<char>) -> Seq<char> {
    if s.len() > 0 {
        s[0]
    } else {
        default
    }
}

/// The intent class of a query, given its lowercase text: the first group of
/// keywords that it mentions decides.
pub open spec fn intent_class(lower: Seq<char>) -> Seq<char> {
    if mentions(lower, "encode"@) || mentions(lower, "convert"@) || mentions(lower, "pattern"@) {
        "PERCEPTION"@
    } else if mentions(lower, "query"@) || mentions(lower, "search"@) || mentions(
        lower,
        "similar"@,
    ) {
        "REASONING"@
    } else if mentions(lower, "validate"@) || mentions(lower, "check"@) || mentions(
        lower,
        "should i"@,
    ) {
        "DECISION"@
    } else if mentions(lower, "trade"@) || mentions(lower, "buy"@) || mentions(lower, "sell"@) {
        "EXECUTION"@
    } else if mentions(lower, "analyze"@) || mentions(lower, "regime"@) {
        "INTROSPECTION"@
    } else {
        "COMPOSITE"@
    }
}

/// Whether a query, given its lowercase text, asks the planner to explain itself.
pub open spec fn wants_introspection(lower: Seq<char>) -> bool {
    mentions(lower, "why"@) || mentions(lower, "how did you"@) || mentions(lower, "explain"@)
        || mentions(lower, "what happened"@) || mentions(lower, "confidence"@) || mentions(
        lower,
        "doubt"@,
    )
}

/// The action words the entity extractor looks for, in order.
pub open spec fn action_words() -> Seq<Seq<char>> {
    seq!["buy"@, "sell"@, "hold"@, "validate"@, "check"@, "encode"@]
}

/// The (ASCII) uppercase forms of those of `words` that `lower` mentions, in order.
pub open spec fn mentioned_actions(lower: Seq<char>, words: Seq<Seq<char>>) -> Seq<Seq<char>>
    decreases words.len(),
{
    if words.len() == 0 {
        Seq::empty()
    } else {
        let rest = mentioned_actions(lower, words.drop_last());
        if mentions(lower, words.last()) {
            rest.push(ascii_uppercase(words.last()))
        } else {
            rest
        }
    }
}

/// The pattern-token expression of the entity extractor.
pub open spec fn pattern_regex() -> Seq<char> {
    "[IXBUDWw]{3,}"@
}

/// The instrument-symbol expression of the entity extractor.
pub open spec fn symbol_regex() -> Seq<char> {
    "\\b[A-Z]{6,7}\\b"@
}

/// The entities of `query`.
pub open spec fn spec_entities(query: Seq<char>) -> EntitiesModel {
    EntitiesModel {
        symbols: regex_matches(symbol_regex(), query)->0,
        patterns: regex_matches(pattern_regex(), query)->0,
        actions: mentioned_actions(lowered(query), action_words()),
        timeframes: Seq::empty(),
    }
}

/// The intent analysis of `query`.
pub open spec fn spec_intent(query: Seq<char>) -> IntentModel {
    IntentModel {
        intent_type: intent_class(lowered(query)),
        relations: spec_relations(),
        entities: spec_entities(query),
        complexity: spec_relations().len(),
        requires_introspection: wants_introspection(lowered(query)),
    }
}

/// `regex::Regex::new(pattern)` followed by `find_iter(haystack)`, for the
/// two entity expressions only: both are valid expressions well under the
/// default size limit, so `new` succeeds, and the text of each match is
/// returned in order; the result is named by `regex_matches`.
#[verifier::external_body]
fn entity_matches(pattern: &str, haystack: &str) -> (r: Vec<String>)
    requires
        pattern@ == pattern_regex() || pattern@ == symbol_regex(),
    ensures
        regex_matches(pattern@, haystack@) == Some(texts(r@)),
{
    let re = regex::Regex::new(pattern).unwrap();
    re.find_iter(haystack).map(|m| m.as_str().to_string()).collect()
}

/// A tool-call model.
pub open spec fn call(
    tool_name: Seq<char>,
    parameters: Seq<(Seq<char>, Seq<char>)>,
    reasoning: Seq<char>,
    confidence: u32,
    expected_outcome: Seq<char>,
) -> ToolCallModel {
    ToolCallModel { tool_name, parameters, reasoning, confidence, expected_outcome }
}

/// The calls that an intent's type and entities plan, before the optional
/// introspection step. A perception or reasoning intent without patterns
/// falls back to the composite pipeline.
pub open spec fn core_plan(i: IntentModel) -> Seq<ToolCallModel> {
    let e = i.entities;
    let first_pattern = first_or(e.patterns, ""@);
    if i.intent_type == "PERCEPTION"@ && e.patterns.len() > 0 {
        seq![
            call(
                "encode_candles"@,
                seq![("ohlcv_data"@, "INPUT_DATA"@)],
                "User wants to encode "@ + decimal(e.patterns.len()) + " pattern(s)"@,
                90,
                "Symbolic pattern sequence"@,
            ),
        ]
    } else if i.intent_type == "REASONING"@ && e.patterns.len() > 0 {
        seq![
            call(
                "query_patterns"@,
                seq![("pattern_sequence"@, first_pattern)],
                "Query vector DB for similar historical patterns"@,
                85,
                "Ensemble prediction with confidence scores"@,
            ),
        ]
    } else if i.intent_type == "DECISION"@ {
        seq![
            call(
                "validate_signal"@,
                seq![
                    ("pattern_sequence"@, first_pattern),
                    ("proposed_action"@, first_or(e.actions, "HOLD"@)),
                ],
                "Validate "@ + first_or(e.actions, "UNKNOWN"@) + " against pattern history"@,
                80,
                "Validation result with recommendation"@,
            ),
        ]
    } else if i.intent_type == "EXECUTION"@ {
        seq![
            call(
                "analyze_regime"@,
                seq![("pattern_sequence"@, first_pattern)],
                "First: assess market regime for position sizing"@,
                90,
                "Regime classification (TRENDING/CHOP/ALGORITHMIC)"@,
            ),
            call(
                "get_trade_recommendation"@,
                seq![
                    ("symbol"@, first_or(e.symbols, "EURUSD"@)),
                    ("current_patterns"@, first_pattern),
                ],
                "Generate complete trade plan with sizing"@,
                85,
                "Trade recommendation with position size"@,
            ),
        ]
    } else if i.intent_type == "INTROSPECTION"@ {
        seq![
            call(
                "analyze_regime"@,
                seq![("pattern_sequence"@, first_pattern)],
                "Self-analysis of current market state"@,
                90,
                "Regime metrics and stability assessment"@,
            ),
        ]
    } else {
        composite_prefix(e.patterns.len() == 0) + composite_pipeline()
    }
}

/// The encoding step that opens the composite pipeline when no pattern is given.
pub open spec fn composite_prefix(no_patterns: bool) -> Seq<ToolCallModel> {
    if no_patterns {
        seq![
            call(
                "encode_candles"@,
                seq![("ohlcv_data"@, "INPUT_DATA"@)],
                "No patterns provided - must encode first"@,
                90,
                "Pattern sequence from raw data"@,
            ),
        ]
    } else {
        Seq::empty()
    }
}

/// The standard fallback pipeline: query, validate, recommend.
pub open spec fn composite_pipeline() -> Seq<ToolCallModel> {
    seq![
        call(
            "query_patterns"@,
            seq![("pattern_sequence"@, "FROM_PREVIOUS"@)],
            "Retrieve historical context"@,
            85,
            "Pattern matches"@,
        ),
        call(
            "validate_signal"@,
            seq![("pattern_sequence"@, "FROM_PREVIOUS"@), ("proposed_action"@, "INFERRED"@)],
            "Check signal validity"@,
            80,
            "Validation result"@,
        ),
        call(
            "get_trade_recommendation"@,
            seq![("symbol"@, "INFERRED"@), ("current_patterns"@, "FROM_PREVIOUS"@)],
            "Final recommendation"@,
            85,
            "Complete trade plan"@,
        ),
    ]
}

/// The metacognitive step appended when the query asks for introspection.
pub open spec fn introspection_call() -> ToolCallModel {
    call(
        "analyze_regime"@,
        seq![("pattern_sequence"@, "FROM_PREVIOUS"@)],
        "Metacognitive: analyze why this decision was made"@,
        90,
        "Explanation of market conditions"@,
    )
}

/// The full plan for an intent.
pub open spec fn spec_plan(i: IntentModel) -> Seq<ToolCallModel> {
    if i.requires_introspection {
        core_plan(i).push(introspection_call())
    } else {
        core_plan(i)
    }
}

/// The reply of the simulated tool `tool_name`.
pub open spec fn simulated_reply(tool_name: Seq<char>) -> Seq<(Seq<char>, Seq<char>)> {
    seq![
        ("tool_name"@, tool_name),
        ("status"@, "success"@),
        ("data"@, "Simulated result from "@ + tool_name),
    ]
}

/// The value under "status" in a reply; a later entry overrides an earlier one.
pub open spec fn status_of(reply: Seq<(Seq<char>, Seq<char>)>) -> Option<Seq<char>>
    decreases reply.len(),
{
    if reply.len() == 0 {
        None
    } else if reply.last().0 == "status"@ {
        Some(reply.last().1)
    } else {
        status_of(reply.drop_last())
    }
}

/// The critic's quality for a reply, in hundredths: 90 for a successful reply,
/// else 30.
pub open spec fn quality_of(reply: Seq<(Seq<char>, Seq<char>)>) -> u32 {
    if status_of(reply) == Some("success"@) {
        90
    } else {
        30
    }
}

/// The result of executing one planned call.
pub open spec fn executed(c: ToolCallModel) -> ExecutionResultModel {
    ExecutionResultModel {
        tool: c.tool_name,
        result: simulated_reply(c.tool_name),
        quality: quality_of(simulated_reply(c.tool_name)),
        reasoning: c.reasoning,
    }
}

/// A simulated tool always reports success, so the critic rates it 0.9.
pub proof fn law_simulated_reply_is_good(tool_name: Seq<char>)
    ensures
        quality_of(simulated_reply(tool_name)) == 90,
{
    reveal_strlit("status");
    reveal_strlit("data");
    let r = simulated_reply(tool_name);
    assert(r.drop_last() =~= seq![("tool_name"@, tool_name), ("status"@, "success"@)]);
    assert(r.last().0 == "data"@);
    assert("data"@.len() != "status"@.len());
    assert(r.drop_last().last().0 == "status"@);
    assert(status_of(r.drop_last()) == Some("success"@));
    assert(status_of(r) == status_of(r.drop_last()));
}

/// The intent class follows the keyword groups in priority order: any of
/// encode/convert/pattern makes a perception query; else any of
/// query/search/similar a reasoning query; else validate/check/"should i" a
/// decision; else trade/buy/sell an execution; else analyze/regime an
/// introspection; a query with none of them is composite.
pub proof fn law_intent_keyword_priority(l: Seq<char>)
    ensures
        (mentions(l, "encode"@) || mentions(l, "convert"@) || mentions(l, "pattern"@))
            ==> intent_class(l) == "PERCEPTION"@,
        !(mentions(l, "encode"@) || mentions(l, "convert"@) || mentions(l, "pattern"@)) && (
        mentions(l, "query"@) || mentions(l, "search"@) || mentions(l, "similar"@))
            ==> intent_class(l) == "REASONING"@,
        !(mentions(l, "encode"@) || mentions(l, "convert"@) || mentions(l, "pattern"@)) && !(
        mentions(l, "query"@) || mentions(l, "search"@) || mentions(l, "similar"@)) && (mentions(
            l,
            "validate"@,
        ) || mentions(l, "check"@) || mentions(l, "should i"@)) ==> intent_class(l)
            == "DECISION"@,
        !(mentions(l, "encode"@) || mentions(l, "convert"@) || mentions(l, "pattern"@)) && !(
        mentions(l, "query"@) || mentions(l, "search"@) || mentions(l, "similar"@)) && !(mentions(
            l,
            "validate"@,
        ) || mentions(l, "check"@) || mentions(l, "should i"@)) && (mentions(l, "trade"@)
            || mentions(l, "buy"@) || mentions(l, "sell"@)) ==> intent_class(l) == "EXECUTION"@,
        !(mentions(l, "encode"@) || mentions(l, "convert"@) || mentions(l, "pattern"@)) && !(
        mentions(l, "query"@) || mentions(l, "search"@) || mentions(l, "similar"@)) && !(mentions(
            l,
            "validate"@,
        ) || mentions(l, "check"@) || mentions(l, "should i"@)) && !(mentions(l, "trade"@)
            || mentions(l, "buy"@) || mentions(l, "sell"@)) && (mentions(l, "analyze"@)
            || mentions(l, "regime"@)) ==> intent_class(l) == "INTROSPECTION"@,
        !(mentions(l, "encode"@) || mentions(l, "convert"@) || mentions(l, "pattern"@)) && !(
        mentions(l, "query"@) || mentions(l, "search"@) || mentions(l, "similar"@)) && !(mentions(
            l,
            "validate"@,
        ) || mentions(l, "check"@) || mentions(l, "should i"@)) && !(mentions(l, "trade"@)
            || mentions(l, "buy"@) || mentions(l, "sell"@)) && !(mentions(l, "analyze"@)
            || mentions(l, "regime"@)) ==> intent_class(l) == "COMPOSITE"@,
{
}

/// A query asks for introspection exactly when it mentions one of why, "how
/// did you", explain, "what happened", confidence or doubt.
pub proof fn law_introspection_triggers(l: Seq<char>)
    ensures
        wants_introspection(l) == (mentions(l, "why"@) || mentions(l, "how did you"@) || mentions(
            l,
            "explain"@,
        ) || mentions(l, "what happened"@) || mentions(l, "confidence"@) || mentions(
            l,
            "doubt"@,
        )),
{
}

/// The action words found in a lowercase query: BUY, SELL, HOLD, VALIDATE,
/// CHECK and ENCODE, each reported exactly when the query mentions the
/// lowercase word, in that order.
pub proof fn law_actions_are_the_mentioned_words(l: Seq<char>)
    ensures
        mentioned_actions(l, action_words()) == (if mentions(l, "buy"@) {
            seq!["BUY"@]
        } else {
            Seq::<Seq<char>>::empty()
        })
            + (if mentions(l, "sell"@) {
            seq!["SELL"@]
        } else {
            Seq::<Seq<char>>::empty()
        })
            + (if mentions(l, "hold"@) {
            seq!["HOLD"@]
        } else {
            Seq::<Seq<char>>::empty()
        })
            + (if mentions(l, "validate"@) {
            seq!["VALIDATE"@]
        } else {
            Seq::<Seq<char>>::empty()
        })
            + (if mentions(l, "check"@) {
            seq!["CHECK"@]
        } else {
            Seq::<Seq<char>>::empty()
        })
            + (if mentions(l, "encode"@) {
            seq!["ENCODE"@]
        } else {
            Seq::<Seq<char>>::empty()
        }),
{
    let w = action_words();
    reveal_strlit("buy");
    reveal_strlit("sell");
    reveal_strlit("hold");
    reveal_strlit("validate");
    reveal_strlit("check");
    reveal_strlit("encode");
    reveal_strlit("BUY");
    reveal_strlit("SELL");
    reveal_strlit("HOLD");
    reveal_strlit("VALIDATE");
    reveal_strlit("CHECK");
    reveal_strlit("ENCODE");
    assert(ascii_uppercase("buy"@) =~= "BUY"@);
    assert(ascii_uppercase("sell"@) =~= "SELL"@);
    assert(ascii_uppercase("hold"@) =~= "HOLD"@);
    assert(ascii_uppercase("validate"@) =~= "VALIDATE"@);
    assert(ascii_uppercase("check"@) =~= "CHECK"@);
    assert(ascii_uppercase("encode"@) =~= "ENCODE"@);
    let w5 = w.drop_last();
    let w4 = w5.drop_last();
    let w3 = w4.drop_last();
    let w2 = w3.drop_last();
    let w1 = w2.drop_last();
    let w0 = w1.drop_last();
    assert(w5 =~= seq!["buy"@, "sell"@, "hold"@, "validate"@, "check"@]);
    assert(w4 =~= seq!["buy"@, "sell"@, "hold"@, "validate"@]);
    assert(w3 =~= seq!["buy"@, "sell"@, "hold"@]);
    assert(w2 =~= seq!["buy"@, "sell"@]);
    assert(w1 =~= seq!["buy"@]);
    assert(w0 =~= Seq::<Seq<char>>::empty());
    let e = Seq::<Seq<char>>::empty();
    assert(mentioned_actions(l, w0) =~= e);
    let m1 = mentioned_actions(l, w1);
    assert(m1 =~= e + (if mentions(l, "buy"@) { seq!["BUY"@] } else { e }));
    let m2 = mentioned_actions(l, w2);
    assert(m2 =~= m1 + (if mentions(l, "sell"@) { seq!["SELL"@] } else { e }));
    let m3 = mentioned_actions(l, w3);
    assert(m3 =~= m2 + (if mentions(l, "hold"@) { seq!["HOLD"@] } else { e }));
    let m4 = mentioned_actions(l, w4);
    assert(m4 =~= m3 + (if mentions(l, "validate"@) { seq!["VALIDATE"@] } else { e }));
    let m5 = mentioned_actions(l, w5);
    assert(m5 =~= m4 + (if mentions(l, "check"@) { seq!["CHECK"@] } else { e }));
    let m6 = mentioned_actions(l, w);
    assert(m6 =~= m5 + (if mentions(l, "encode"@) { seq!["ENCODE"@] } else { e }));
}

/// The six intent class names are pairwise different.
proof fn lemma_intent_names_differ()
    ensures
        "PERCEPTION"@ != "REASONING"@,
        "PERCEPTION"@ != "DECISION"@,
        "PERCEPTION"@ != "EXECUTION"@,
        "PERCEPTION"@ != "INTROSPECTION"@,
        "REASONING"@ != "DECISION"@,
        "REASONING"@ != "EXECUTION"@,
        "REASONING"@ != "INTROSPECTION"@,
        "DECISION"@ != "EXECUTION"@,
        "DECISION"@ != "INTROSPECTION"@,
        "EXECUTION"@ != "INTROSPECTION"@,
{
    reveal_strlit("PERCEPTION");
    reveal_strlit("REASONING");
    reveal_strlit("DECISION");
    reveal_strlit("EXECUTION");
    reveal_strlit("INTROSPECTION");
    assert("PERCEPTION"@.len() == 10);
    assert("REASONING"@.len() == 9);
    assert("DECISION"@.len() == 8);
    assert("EXECUTION"@.len() == 9);
    assert("INTROSPECTION"@.len() == 13);
    assert("REASONING"@[0] != "EXECUTION"@[0]);
}

/// The plan begins with the calls that the intent's type and entities plan.
proof fn lemma_plan_starts_with_core(i: IntentModel, k: int)
    requires
        0 <= k < core_plan(i).len(),
    ensures
        spec_plan(i)[k] == core_plan(i)[k],
{
}

/// A decision intent plans one validate_signal call at confidence 0.8 on the
/// first extracted pattern (empty when there is none) and the first action
/// (HOLD when there is none), explaining it with that action (UNKNOWN when
/// there is none); only introspection adds a step.
pub proof fn law_decision_plan(i: IntentModel)
    requires
        i.intent_type == "DECISION"@,
    ensures
        spec_plan(i).len() == (if i.requires_introspection {
            2int
        } else {
            1int
        }),
        spec_plan(i)[0].tool_name == "validate_signal"@,
        spec_plan(i)[0].parameters == seq![
            (
                "pattern_sequence"@,
                if i.entities.patterns.len() > 0 {
                    i.entities.patterns[0]
                } else {
                    ""@
                },
            ),
            (
                "proposed_action"@,
                if i.entities.actions.len() > 0 {
                    i.entities.actions[0]
                } else {
                    "HOLD"@
                },
            ),
        ],
        spec_plan(i)[0].reasoning == "Validate "@ + (if i.entities.actions.len() > 0 {
            i.entities.actions[0]
        } else {
            "UNKNOWN"@
        }) + " against pattern history"@,
        spec_plan(i)[0].confidence == 80,
{
    lemma_intent_names_differ();
    lemma_plan_starts_with_core(i, 0);
}

/// A perception intent with patterns plans one encode_candles call on the
/// input data at confidence 0.9, counting the patterns in its reasoning.
pub proof fn law_perception_plan(i: IntentModel)
    requires
        i.intent_type == "PERCEPTION"@,
        i.entities.patterns.len() > 0,
    ensures
        spec_plan(i).len() == (if i.requires_introspection {
            2int
        } else {
            1int
        }),
        spec_plan(i)[0].tool_name == "encode_candles"@,
        spec_plan(i)[0].parameters == seq![("ohlcv_data"@, "INPUT_DATA"@)],
        spec_plan(i)[0].reasoning == "User wants to encode "@ + decimal(i.entities.patterns.len())
            + " pattern(s)"@,
        spec_plan(i)[0].confidence == 90,
{
    lemma_intent_names_differ();
    lemma_plan_starts_with_core(i, 0);
}

/// A reasoning intent with patterns plans one query_patterns call on the first
/// pattern at confidence 0.85.
pub proof fn law_reasoning_plan(i: IntentModel)
    requires
        i.intent_type == "REASONING"@,
        i.entities.patterns.len() > 0,
    ensures
        spec_plan(i).len() == (if i.requires_introspection {
            2int
        } else {
            1int
        }),
        spec_plan(i)[0].tool_name == "query_patterns"@,
        spec_plan(i)[0].parameters == seq![("pattern_sequence"@, i.entities.patterns[0])],
        spec_plan(i)[0].confidence == 85,
{
    lemma_intent_names_differ();
    lemma_plan_starts_with_core(i, 0);
}

/// An execution intent plans a regime analysis on the first pattern (empty
/// when there is none), then a trade recommendation for the first symbol
/// (EURUSD when there is none) and that pattern.
pub proof fn law_execution_plan(i: IntentModel)
    requires
        i.intent_type == "EXECUTION"@,
    ensures
        spec_plan(i).len() == (if i.requires_introspection {
            3int
        } else {
            2int
        }),
        spec_plan(i)[0].tool_name == "analyze_regime"@,
        spec_plan(i)[0].parameters == seq![
            (
                "pattern_sequence"@,
                if i.entities.patterns.len() > 0 {
                    i.entities.patterns[0]
                } else {
                    ""@
                },
            ),
        ],
        spec_plan(i)[0].confidence == 90,
        spec_plan(i)[1].tool_name == "get_trade_recommendation"@,
        spec_plan(i)[1].parameters == seq![
            (
                "symbol"@,
                if i.entities.symbols.len() > 0 {
                    i.entities.symbols[0]
                } else {
                    "EURUSD"@
                },
            ),
            (
                "current_patterns"@,
                if i.entities.patterns.len() > 0 {
                    i.entities.patterns[0]
                } else {
                    ""@
                },
            ),
        ],
        spec_plan(i)[1].confidence == 85,
{
    lemma_intent_names_differ();
    lemma_plan_starts_with_core(i, 0);
    lemma_plan_starts_with_core(i, 1);
}

/// An introspection intent plans one regime analysis on the first pattern
/// (empty when there is none) at confidence 0.9.
pub proof fn law_introspection_plan(i: IntentModel)
    requires
        i.intent_type == "INTROSPECTION"@,
    ensures
        spec_plan(i).len() == (if i.requires_introspection {
            2int
        } else {
            1int
        }),
        spec_plan(i)[0].tool_name == "analyze_regime"@,
        spec_plan(i)[0].parameters == seq![
            (
                "pattern_sequence"@,
                if i.entities.patterns.len() > 0 {
                    i.entities.patterns[0]
                } else {
                    ""@
                },
            ),
        ],
        spec_plan(i)[0].reasoning == "Self-analysis of current market state"@,
{
    lemma_intent_names_differ();
    lemma_plan_starts_with_core(i, 0);
}

/// Any other intent, and a perception or reasoning intent without patterns,
/// runs the fallback pipeline: encoding first when no pattern is given, then
/// query_patterns, validate_signal and get_trade_recommendation.
pub proof fn law_fallback_plan(i: IntentModel)
    requires
        i.intent_type != "DECISION"@,
        i.intent_type != "EXECUTION"@,
        i.intent_type != "INTROSPECTION"@,
        (i.intent_type != "PERCEPTION"@ && i.intent_type != "REASONING"@)
            || i.entities.patterns.len() == 0,
    ensures
        spec_plan(i).len() == (if i.entities.patterns.len() == 0 {
            4int
        } else {
            3int
        }) + (if i.requires_introspection {
            1int
        } else {
            0int
        }),
        i.entities.patterns.len() == 0 ==> spec_plan(i)[0].tool_name == "encode_candles"@,
        spec_plan(i)[if i.entities.patterns.len() == 0 {
            1int
        } else {
            0int
        }].tool_name == "query_patterns"@,
        spec_plan(i)[if i.entities.patterns.len() == 0 {
            2int
        } else {
            1int
        }].tool_name == "validate_signal"@,
        spec_plan(i)[if i.entities.patterns.len() == 0 {
            3int
        } else {
            2int
        }].tool_name == "get_trade_recommendation"@,
{
    lemma_intent_names_differ();
    let n = if i.entities.patterns.len() == 0 {
        1int
    } else {
        0int
    };
    assert(core_plan(i) == composite_prefix(i.entities.patterns.len() == 0) + composite_pipeline());
    assert(composite_prefix(i.entities.patterns.len() == 0).len() == n);
    lemma_plan_starts_with_core(i, n);
    lemma_plan_starts_with_core(i, n + 1);
    lemma_plan_starts_with_core(i, n + 2);
    if n == 1 {
        lemma_plan_starts_with_core(i, 0);
    }
}

/// Every intent gets at least one tool call.
pub proof fn law_plan_never_empty(i: IntentModel)
    ensures
        spec_plan(i).len() >= 1,
{
}

/// A query that asks for introspection always closes its plan with the
/// metacognitive regime analysis, after the calls its intent plans.
pub proof fn law_introspection_closes_plan(i: IntentModel)
    requires
        i.requires_introspection,
    ensures
        spec_plan(i).len() == core_plan(i).len() + 1,
        spec_plan(i).last() == introspection_call(),
        spec_plan(i).drop_last() == core_plan(i),
{
    assert(spec_plan(i).drop_last() =~= core_plan(i));
}

/// Executing a plan yields one result per call, in the plan's order, naming the
/// call's tool, repeating its reasoning and rated 0.9.
pub proof fn law_execution_follows_plan(plan: Seq<ToolCallModel>, k: int)
    requires
        0 <= k < plan.len(),
    ensures
        plan.map_values(|c: ToolCallModel| executed(c)).len() == plan.len(),
        plan.map_values(|c: ToolCallModel| executed(c))[k].tool == plan[k].tool_name,
        plan.map_values(|c: ToolCallModel| executed(c))[k].reasoning == plan[k].reasoning,
        plan.map_values(|c: ToolCallModel| executed(c))[k].quality == 90,
        plan.map_values(|c: ToolCallModel| executed(c))[k].result == seq![
            ("tool_name"@, plan[k].tool_name),
            ("status"@, "success"@),
            ("data"@, "Simulated result from "@ + plan[k].tool_name),
        ],
{
    law_simulated_reply_is_good(plan[k].tool_name);
}

// --- Building blocks ---

fn owned(s: &str) -> (r: String)
    ensures
        r@ == s@,
{
    s.to_string()
}

fn is_text(s: &String, lit: &str) -> (b: bool)
    ensures
        b == (s@ == lit@),
{
    let l = owned(lit);
    s.eq(&l)
}

fn one_param(key: &str, value: String) -> (v: Vec<(String, String)>)
    ensures
        pairs(v@) == seq![(key@, value@)],
{
    let mut v: Vec<(String, String)> = Vec::new();
    v.push((owned(key), value));
    assert(pairs(v@) =~= seq![(key@, value@)]);
    v
}

fn two_params(k1: &str, v1: String, k2: &str, v2: String) -> (v: Vec<(String, String)>)
    ensures
        pairs(v@) == seq![(k1@, v1@), (k2@, v2@)],
{
    let mut v: Vec<(String, String)> = Vec::new();
    v.push((owned(k1), v1));
    v.push((owned(k2), v2));
    assert(pairs(v@) =~= seq![(k1@, v1@), (k2@, v2@)]);
    v
}

fn first_text(v: &Vec<String>, default: &str) -> (r: String)
    ensures
        r@ == first_or(texts(v@), default@),
{
    if v.len() > 0 {
        v[0].clone()
    } else {
        owned(default)
    }
}

fn make_call(
    name: &str,
    parameters: Vec<(String, String)>,
    reasoning: String,
    confidence: u32,
    outcome: &str,
) -> (c: ToolCall)
    ensures
        c@ == call(name@, pairs(parameters@), reasoning@, confidence, outcome@),
{
    ToolCall {
        tool_name: owned(name),
        parameters,
        reasoning,
        confidence,
        expected_outcome: owned(outcome),
    }
}

/// Appends the uppercase form of `word` to `actions` when `lower` mentions it.
fn note_action(actions: &mut Vec<String>, lower: &str, word: &str)
    requires
        is_ascii_text(word@),
    ensures
        texts(final(actions)@) == if mentions(lower@, word@) {
            texts(old(actions)@).push(ascii_uppercase(word@))
        } else {
            texts(old(actions)@)
        },
{
    if str_contains(lower, word) {
        actions.push(to_uppercase(word));
        assert(texts(actions@) =~= texts(old(actions)@).push(ascii_uppercase(word@)));
    }
}

// --- The selector ---

/// Picks, runs and reviews the tool calls that answer a query.
pub struct MetaCognitiveToolSelector {
    tool_history: Vec<String>,
    current_plan: Vec<ToolCall>,
}

impl MetaCognitiveToolSelector {
    /// The tools called so far.
    pub closed spec fn history(&self) -> Seq<Seq<char>> {
        texts(self.tool_history@)
    }

    /// The plan being worked on.
    pub closed spec fn plan(&self) -> Seq<ToolCallModel> {
        calls(self.current_plan@)
    }

    pub fn new() -> (s: Self)
        ensures
            s.history() == Seq::<Seq<char>>::empty(),
            s.plan() == Seq::<ToolCallModel>::empty(),
    {
        let s = MetaCognitiveToolSelector { tool_history: Vec::new(), current_plan: Vec::new() };
        assert(s.history() =~= Seq::<Seq<char>>::empty());
        assert(s.plan() =~= Seq::<ToolCallModel>::empty());
        s
    }

    /// Step 1: semantic parsing of the user's intent.
    pub fn analyze_intent(&self, user_query: &str) -> (a: IntentAnalysis)
        ensures
            a@ == spec_intent(user_query@),
    {
        let graph = build_semantic_graph(user_query);
        let relations = extract_relations(&graph);
        let intent_type = self.classify_intent(user_query, &relations);
        let entities = self.extract_entities(user_query);
        let complexity = relations.len();
        let requires_introspection = self.needs_introspection(user_query);
        let a = IntentAnalysis { intent_type, relations, entities, complexity, requires_introspection };
        assert(texts(a.relations@) =~= spec_relations());
        a
    }

    fn classify_intent(&self, query: &str, _relations: &Vec<String>) -> (t: String)
        ensures
            t@ == intent_class(lowered(query@)),
    {
        let lower = to_lowercase(query);
        let q = lower.as_str();
        if str_contains(q, "encode") || str_contains(q, "convert") || str_contains(q, "pattern") {
            owned("PERCEPTION")
        } else if str_contains(q, "query") || str_contains(q, "search") || str_contains(q, "similar") {
            owned("REASONING")
        } else if str_contains(q, "validate") || str_contains(q, "check") || str_contains(q, "should i") {
            owned("DECISION")
        } else if str_contains(q, "trade") || str_contains(q, "buy") || str_contains(q, "sell") {
            owned("EXECUTION")
        } else if str_contains(q, "analyze") || str_contains(q, "regime") {
            owned("INTROSPECTION")
        } else {
            owned("COMPOSITE")
        }
    }

    fn extract_entities(&self, query: &str) -> (e: Entities)
        ensures
            e@ == spec_entities(query@),
    {
        // Pattern tokens such as IXwXB.
        let patterns = entity_matches("[IXBUDWw]{3,}", query);
        // Instrument symbols such as EURUSD.
        let symbols = entity_matches("\\b[A-Z]{6,7}\\b", query);
        let lower = to_lowercase(query);
        let mut actions: Vec<String> = Vec::new();
        proof {
            reveal_strlit("buy");
            reveal_strlit("sell");
            reveal_strlit("hold");
            reveal_strlit("validate");
            reveal_strlit("check");
            reveal_strlit("encode");
        }
        note_action(&mut actions, lower.as_str(), "buy");
        note_action(&mut actions, lower.as_str(), "sell");
        note_action(&mut actions, lower.as_str(), "hold");
        note_action(&mut actions, lower.as_str(), "validate");
        note_action(&mut actions, lower.as_str(), "check");
        note_action(&mut actions, lower.as_str(), "encode");
        let ghost words = action_words();
        proof {
            let l = lowered(query@);
            assert(words.drop_last().drop_last().drop_last().drop_last().drop_last().drop_last()
                =~= Seq::<Seq<char>>::empty());
            assert(words.drop_last().drop_last().drop_last().drop_last().drop_last() =~= seq!["buy"@]);
            assert(words.drop_last().drop_last().drop_last().drop_last() =~= seq!["buy"@, "sell"@]);
            assert(words.drop_last().drop_last().drop_last() =~= seq!["buy"@, "sell"@, "hold"@]);
            assert(words.drop_last().drop_last() =~= seq!["buy"@, "sell"@, "hold"@, "validate"@]);
            assert(words.drop_last() =~= seq!["buy"@, "sell"@, "hold"@, "validate"@, "check"@]);
            reveal_with_fuel(mentioned_actions, 7);
        }
        let e = Entities { symbols, patterns, actions, timeframes: Vec::new() };
        assert(texts(e.timeframes@) =~= Seq::<Seq<char>>::empty());
        e
    }

    fn needs_introspection(&self, query: &str) -> (b: bool)
        ensures
            b == wants_introspection(lowered(query@)),
    {
        let lower = to_lowercase(query);
        let q = lower.as_str();
        str_contains(q, "why") || str_contains(q, "how did you") || str_contains(q, "explain")
            || str_contains(q, "what happened") || str_contains(q, "confidence") || str_contains(
            q,
            "doubt",
        )
    }

    /// Step 3: runs each planned call (actor) and rates its reply (critic).
    /// Every reply is good, so no call needs an adaptation.
    pub fn execute_plan(&mut self, plan: &[ToolCall]) -> (out: PlanOutcome)
        ensures
            *final(self) == *old(self),
            results(out.results@) == calls(plan@).map_values(|c: ToolCallModel| executed(c)),
            out.adaptations_made == 0,
            out.plan_completed,
    {
        let n = plan.len();
        let mut out: Vec<ExecutionResult> = Vec::new();
        let mut adaptations: i32 = 0;
        let mut i: usize = 0;
        while i < n
            invariant
                n == plan@.len(),
                i <= n,
                adaptations == 0,
                results(out@) == calls(plan@.take(i as int)).map_values(
                    |c: ToolCallModel| executed(c),
                ),
            decreases n - i,
        {
            let tool_call = &plan[i];
            // Actor: execute.
            let result = self.simulate_tool_execution(tool_call);
            // Critic: evaluate.
            let quality = self.evaluate_result_quality(&result, tool_call.expected_outcome.as_str());
            proof {
                law_simulated_reply_is_good(tool_call.tool_name@);
            }
            if quality < 50 {
                adaptations = adaptations + 1;
            }
            let r = ExecutionResult {
                tool: tool_call.tool_name.clone(),
                result,
                quality,
                reasoning: tool_call.reasoning.clone(),
            };
            let ghost prev = out@;
            out.push(r);
            proof {
                let f = |c: ToolCallModel| executed(c);
                assert(plan@.take(i + 1) =~= plan@.take(i as int).push(plan@[i as int]));
                assert(calls(plan@.take(i + 1)) =~= calls(plan@.take(i as int)).push(
                    plan@[i as int]@,
                ));
                assert(calls(plan@.take(i + 1)).map_values(f) =~= calls(
                    plan@.take(i as int),
                ).map_values(f).push(executed(plan@[i as int]@)));
                assert(results(out@) =~= results(prev).push(out@.last()@));
            }
            i = i + 1;
        }
        assert(plan@.take(n as int) =~= plan@);
        PlanOutcome { results: out, plan_completed: adaptations == 0, adaptations_made: adaptations }
    }

    fn simulate_tool_execution(&self, tool_call: &ToolCall) -> (r: Vec<(String, String)>)
        ensures
            pairs(r@) == simulated_reply(tool_call.tool_name@),
    {
        let mut r: Vec<(String, String)> = Vec::new();
        r.push((owned("tool_name"), tool_call.tool_name.clone()));
        r.push((owned("status"), owned("success")));
        r.push(
            (owned("data"), owned("Simulated result from ").concat(tool_call.tool_name.as_str())),
        );
        assert(pairs(r@) =~= simulated_reply(tool_call.tool_name@));
        r
    }

    fn evaluate_result_quality(&self, result: &Vec<(String, String)>, _expected: &str) -> (q: u32)
        ensures
            q == quality_of(pairs(result@)),
    {
        let n = result.len();
        let mut found: Option<usize> = None;
        let mut i: usize = 0;
        while i < n
            invariant
                n == result@.len(),
                i <= n,
                match found {
                    Some(k) => k < i && status_of(pairs(result@.take(i as int))) == Some(
                        result@[k as int].1@,
                    ),
                    None => status_of(pairs(result@.take(i as int))) is None,
                },
            decreases n - i,
        {
            proof {
                assert(pairs(result@.take(i + 1)).drop_last() =~= pairs(result@.take(i as int)));
            }
            if is_text(&result[i].0, "status") {
                found = Some(i);
            }
            i = i + 1;
        }
        assert(result@.take(n as int) =~= result@);
        match found {
            Some(k) => {
                if is_text(&result[k].1, "success") {
                    90
                } else {
                    30
                }
            },
            None => 30,
        }
    }

    /// Step 2: the tool execution plan for an intent.
    pub fn generate_tool_plan(&self, intent: &IntentAnalysis) -> (plan: Vec<ToolCall>)
        ensures
            calls(plan@) == spec_plan(intent@),
    {
        let mut plan: Vec<ToolCall> = Vec::new();
        let e = &intent.entities;
        let kind = &intent.intent_type;
        if is_text(kind, "PERCEPTION") && e.patterns.len() > 0 {
            let reasoning = owned("User wants to encode ").concat(
                usize_text(e.patterns.len()).as_str(),
            ).concat(" pattern(s)");
            plan.push(
                make_call(
                    "encode_candles",
                    one_param("ohlcv_data", owned("INPUT_DATA")),
                    reasoning,
                    90,
                    "Symbolic pattern sequence",
                ),
            );
        } else if is_text(kind, "REASONING") && e.patterns.len() > 0 {
            plan.push(
                make_call(
                    "query_patterns",
                    one_param("pattern_sequence", first_text(&e.patterns, "")),
                    owned("Query vector DB for similar historical patterns"),
                    85,
                    "Ensemble prediction with confidence scores",
                ),
            );
        } else if is_text(kind, "DECISION") {
            let reasoning = owned("Validate ").concat(first_text(&e.actions, "UNKNOWN").as_str()).concat(
                " against pattern history",
            );
            plan.push(
                make_call(
                    "validate_signal",
                    two_params(
                        "pattern_sequence",
                        first_text(&e.patterns, ""),
                        "proposed_action",
                        first_text(&e.actions, "HOLD"),
                    ),
                    reasoning,
                    80,
                    "Validation result with recommendation",
                ),
            );
        } else if is_text(kind, "EXECUTION") {
            // Composite: analyze regime, then recommend.
            plan.push(
                make_call(
                    "analyze_regime",
                    one_param("pattern_sequence", first_text(&e.patterns, "")),
                    owned("First: assess market regime for position sizing"),
                    90,
                    "Regime classification (TRENDING/CHOP/ALGORITHMIC)",
                ),
            );
            plan.push(
                make_call(
                    "get_trade_recommendation",
                    two_params(
                        "symbol",
                        first_text(&e.symbols, "EURUSD"),
                        "current_patterns",
                        first_text(&e.patterns, ""),
                    ),
                    owned("Generate complete trade plan with sizing"),
                    85,
                    "Trade recommendation with position size",
                ),
            );
        } else if is_text(kind, "INTROSPECTION") {
            plan.push(
                make_call(
                    "analyze_regime",
                    one_param("pattern_sequence", first_text(&e.patterns, "")),
                    owned("Self-analysis of current market state"),
                    90,
                    "Regime metrics and stability assessment",
                ),
            );
        } else {
            // Composite or unknown intent.
            if e.patterns.len() == 0 {
                plan.push(
                    make_call(
                        "encode_candles",
                        one_param("ohlcv_data", owned("INPUT_DATA")),
                        owned("No patterns provided - must encode first"),
                        90,
                        "Pattern sequence from raw data",
                    ),
                );
            }
            // Standard fallback pipeline.
            plan.push(
                make_call(
                    "query_patterns",
                    one_param("pattern_sequence", owned("FROM_PREVIOUS")),
                    owned("Retrieve historical context"),
                    85,
                    "Pattern matches",
                ),
            );
            plan.push(
                make_call(
                    "validate_signal",
                    two_params(
                        "pattern_sequence",
                        owned("FROM_PREVIOUS"),
                        "proposed_action",
                        owned("INFERRED"),
                    ),
                    owned("Check signal validity"),
                    80,
                    "Validation result",
                ),
            );
            plan.push(
                make_call(
                    "get_trade_recommendation",
                    two_params(
                        "symbol",
                        owned("INFERRED"),
                        "current_patterns",
                        owned("FROM_PREVIOUS"),
                    ),
                    owned("Final recommendation"),
                    85,
                    "Complete trade plan",
                ),
            );
        }
        let ghost core = calls(plan@);
        assert(core =~= core_plan(intent@));
        if intent.requires_introspection {
            plan.push(
                make_call(
                    "analyze_regime",
                    one_param("pattern_sequence", owned("FROM_PREVIOUS")),
                    owned("Metacognitive: analyze why this decision was made"),
                    90,
                    "Explanation of market conditions",
                ),
            );
        }
        assert(calls(plan@) =~= spec_plan(intent@));
        plan
    }
}

} // verus!
