//! The closed set of specialised agents and their descriptive texts.

use vstd::prelude::*;

verus! {

/// The specialised agents that a query can be routed to.
#[derive(Clone, Copy, Debug, PartialEq, Eq, Hash, Structural)]
pub enum AgentType {
    CodeAssistant,
    CodeEditor,
    EmailAgent,
    CalendarAgent,
    DocumentParser,
    KnowledgeAgent,
    Sage,
    TextAnalyzer,
    Quant,
    VisionAgent,
    AudioAgent,
    Reel,
    Harmonia,
    LedgerAgent,
    Deduct,
    Juris,
    Accord,
    Closer,
    Amplify,
    Talent,
    GrantAgent,
    Shield,
    Sentinel,
    WebScraper,
    Polyglot,
    Lexicon,
    CulturePulse,
    SchemaAgent,
    RouterAgent,
    TradingAgent,
    PortfolioAnalyzer,
    RiskManager,
    MarketAnalyzer,
    StrategyGenerator,
    ExecutionAgent,
    HealthAgent,
    TravelAgent,
    FitnessAgent,
    NutritionAgent,
    SleepAgent,
    MentalHealthAgent,
}

/// How the handlers of a plan are run.
#[derive(Clone, Copy, Debug, PartialEq, Eq, Hash, Structural)]
pub enum ExecutionStrategy {
    /// Only the primary handler runs.
    Single,
    /// The supporting handlers run concurrently.
    Parallel,
    /// The supporting handlers run one at a time, in selection order.
    Sequential,
    /// Reserved for plans whose later steps depend on earlier results; no
    /// selection rule produces it, and a dispatch treats it like `Single`.
    Conditional,
}

/// Number of agents in the catalogue.
pub const AGENT_COUNT: usize = 41;


/// Every agent once, in the order of the catalogue.
pub open spec fn catalogue() -> Seq<AgentType> {
    seq![
        AgentType::CodeAssistant,
        AgentType::CodeEditor,
        AgentType::EmailAgent,
        AgentType::CalendarAgent,
        AgentType::DocumentParser,
        AgentType::KnowledgeAgent,
        AgentType::Sage,
        AgentType::TextAnalyzer,
        AgentType::Quant,
        AgentType::VisionAgent,
        AgentType::AudioAgent,
        AgentType::Reel,
        AgentType::Harmonia,
        AgentType::LedgerAgent,
        AgentType::Deduct,
        AgentType::Juris,
        AgentType::Accord,
        AgentType::Closer,
        AgentType::Amplify,
        AgentType::Talent,
        AgentType::GrantAgent,
        AgentType::Shield,
        AgentType::Sentinel,
        AgentType::WebScraper,
        AgentType::Polyglot,
        AgentType::Lexicon,
        AgentType::CulturePulse,
        AgentType::SchemaAgent,
        AgentType::RouterAgent,
        AgentType::TradingAgent,
        AgentType::PortfolioAnalyzer,
        AgentType::RiskManager,
        AgentType::MarketAnalyzer,
        AgentType::StrategyGenerator,
        AgentType::ExecutionAgent,
        AgentType::HealthAgent,
        AgentType::TravelAgent,
        AgentType::FitnessAgent,
        AgentType::NutritionAgent,
        AgentType::SleepAgent,
        AgentType::MentalHealthAgent,
    ]
}

impl AgentType {
    /// The place of the agent in the catalogue.
    pub open spec fn ordinal(self) -> int {
        match self {
            AgentType::CodeAssistant => 0,
            AgentType::CodeEditor => 1,
            AgentType::EmailAgent => 2,
            AgentType::CalendarAgent => 3,
            AgentType::DocumentParser => 4,
            AgentType::KnowledgeAgent => 5,
            AgentType::Sage => 6,
            AgentType::TextAnalyzer => 7,
            AgentType::Quant => 8,
            AgentType::VisionAgent => 9,
            AgentType::AudioAgent => 10,
            AgentType::Reel => 11,
            AgentType::Harmonia => 12,
            AgentType::LedgerAgent => 13,
            AgentType::Deduct => 14,
            AgentType::Juris => 15,
            AgentType::Accord => 16,
            AgentType::Closer => 17,
            AgentType::Amplify => 18,
            AgentType::Talent => 19,
            AgentType::GrantAgent => 20,
            AgentType::Shield => 21,
            AgentType::Sentinel => 22,
            AgentType::WebScraper => 23,
            AgentType::Polyglot => 24,
            AgentType::Lexicon => 25,
            AgentType::CulturePulse => 26,
            AgentType::SchemaAgent => 27,
            AgentType::RouterAgent => 28,
            AgentType::TradingAgent => 29,
            AgentType::PortfolioAnalyzer => 30,
            AgentType::RiskManager => 31,
            AgentType::MarketAnalyzer => 32,
            AgentType::StrategyGenerator => 33,
            AgentType::ExecutionAgent => 34,
            AgentType::HealthAgent => 35,
            AgentType::TravelAgent => 36,
            AgentType::FitnessAgent => 37,
            AgentType::NutritionAgent => 38,
            AgentType::SleepAgent => 39,
            AgentType::MentalHealthAgent => 40,
        }
    }

    /// What the agent does, in a few words.
    pub open spec fn description_of(self) -> Seq<char> {
        match self {
            AgentType::CodeAssistant => "Software development assistance"@,
            AgentType::CodeEditor => "Embedded code editing with AI (Akashic)"@,
            AgentType::EmailAgent => "Email processing and analysis"@,
            AgentType::CalendarAgent => "Calendar and scheduling"@,
            AgentType::DocumentParser => "Document extraction and parsing"@,
            AgentType::KnowledgeAgent => "Semantic search and knowledge retrieval"@,
            AgentType::Sage => "Research and learning assistant"@,
            AgentType::TextAnalyzer => "NLP and text analysis"@,
            AgentType::Quant => "Data analysis and SQL queries"@,
            AgentType::VisionAgent => "Image understanding and analysis"@,
            AgentType::AudioAgent => "Speech-to-text and audio processing"@,
            AgentType::Reel => "Video intelligence and analysis"@,
            AgentType::Harmonia => "Music intelligence and analysis"@,
            AgentType::LedgerAgent => "Financial analysis and bookkeeping"@,
            AgentType::Deduct => "Tax preparation and optimization"@,
            AgentType::Juris => "Legal document analysis"@,
            AgentType::Accord => "Contract analysis and review"@,
            AgentType::Closer => "Sales and CRM assistance"@,
            AgentType::Amplify => "Marketing and growth"@,
            AgentType::Talent => "HR and recruitment"@,
            AgentType::GrantAgent => "Grant discovery and applications"@,
            AgentType::Shield => "Insurance analysis and recommendations"@,
            AgentType::Sentinel => "Regulatory compliance monitoring"@,
            AgentType::WebScraper => "Web content extraction"@,
            AgentType::Polyglot => "Language translation"@,
            AgentType::Lexicon => "Slang and modern language understanding"@,
            AgentType::CulturePulse => "Meme culture and trends"@,
            AgentType::SchemaAgent => "Data structuring and schemas"@,
            AgentType::RouterAgent => "Content routing and classification"@,
            AgentType::TradingAgent => "Trading execution (Delt integration)"@,
            AgentType::PortfolioAnalyzer => "Portfolio analysis and optimization"@,
            AgentType::RiskManager => "Risk assessment and management"@,
            AgentType::MarketAnalyzer => "Market analysis and insights"@,
            AgentType::StrategyGenerator => "Trading strategy generation"@,
            AgentType::ExecutionAgent => "Trade execution and monitoring"@,
            AgentType::HealthAgent => "Health tracking and analysis"@,
            AgentType::TravelAgent => "Travel planning and booking"@,
            AgentType::FitnessAgent => "Fitness tracking and coaching"@,
            AgentType::NutritionAgent => "Nutrition analysis and meal planning"@,
            AgentType::SleepAgent => "Sleep tracking and optimization"@,
            AgentType::MentalHealthAgent => "Mental wellness and mindfulness"@,
        }
    }

    /// Every agent once, in the order of the catalogue.
    pub fn all() -> (agents: Vec<AgentType>)
        ensures
            agents@ == catalogue(),
    {
        let agents = vec![
            AgentType::CodeAssistant,
            AgentType::CodeEditor,
            AgentType::EmailAgent,
            AgentType::CalendarAgent,
            AgentType::DocumentParser,
            AgentType::KnowledgeAgent,
            AgentType::Sage,
            AgentType::TextAnalyzer,
            AgentType::Quant,
            AgentType::VisionAgent,
            AgentType::AudioAgent,
            AgentType::Reel,
            AgentType::Harmonia,
            AgentType::LedgerAgent,
            AgentType::Deduct,
            AgentType::Juris,
            AgentType::Accord,
            AgentType::Closer,
            AgentType::Amplify,
            AgentType::Talent,
            AgentType::GrantAgent,
            AgentType::Shield,
            AgentType::Sentinel,
            AgentType::WebScraper,
            AgentType::Polyglot,
            AgentType::Lexicon,
            AgentType::CulturePulse,
            AgentType::SchemaAgent,
            AgentType::RouterAgent,
            AgentType::TradingAgent,
            AgentType::PortfolioAnalyzer,
            AgentType::RiskManager,
            AgentType::MarketAnalyzer,
            AgentType::StrategyGenerator,
            AgentType::ExecutionAgent,
            AgentType::HealthAgent,
            AgentType::TravelAgent,
            AgentType::FitnessAgent,
            AgentType::NutritionAgent,
            AgentType::SleepAgent,
            AgentType::MentalHealthAgent,
        ];
        assert(agents@ =~= catalogue());
        agents
    }

    /// What the agent does, in a few words.
    pub fn description(&self) -> (text: &'static str)
        ensures
            text@ == self.description_of(),
    {
        match self {
            AgentType::CodeAssistant => "Software development assistance",
            AgentType::CodeEditor => "Embedded code editing with AI (Akashic)",
            AgentType::EmailAgent => "Email processing and analysis",
            AgentType::CalendarAgent => "Calendar and scheduling",
            AgentType::DocumentParser => "Document extraction and parsing",
            AgentType::KnowledgeAgent => "Semantic search and knowledge retrieval",
            AgentType::Sage => "Research and learning assistant",
            AgentType::TextAnalyzer => "NLP and text analysis",
            AgentType::Quant => "Data analysis and SQL queries",
            AgentType::VisionAgent => "Image understanding and analysis",
            AgentType::AudioAgent => "Speech-to-text and audio processing",
            AgentType::Reel => "Video intelligence and analysis",
            AgentType::Harmonia => "Music intelligence and analysis",
            AgentType::LedgerAgent => "Financial analysis and bookkeeping",
            AgentType::Deduct => "Tax preparation and optimization",
            AgentType::Juris => "Legal document analysis",
            AgentType::Accord => "Contract analysis and review",
            AgentType::Closer => "Sales and CRM assistance",
            AgentType::Amplify => "Marketing and growth",
            AgentType::Talent => "HR and recruitment",
            AgentType::GrantAgent => "Grant discovery and applications",
            AgentType::Shield => "Insurance analysis and recommendations",
            AgentType::Sentinel => "Regulatory compliance monitoring",
            AgentType::WebScraper => "Web content extraction",
            AgentType::Polyglot => "Language translation",
            AgentType::Lexicon => "Slang and modern language understanding",
            AgentType::CulturePulse => "Meme culture and trends",
            AgentType::SchemaAgent => "Data structuring and schemas",
            AgentType::RouterAgent => "Content routing and classification",
            AgentType::TradingAgent => "Trading execution (Delt integration)",
            AgentType::PortfolioAnalyzer => "Portfolio analysis and optimization",
            AgentType::RiskManager => "Risk assessment and management",
            AgentType::MarketAnalyzer => "Market analysis and insights",
            AgentType::StrategyGenerator => "Trading strategy generation",
            AgentType::ExecutionAgent => "Trade execution and monitoring",
            AgentType::HealthAgent => "Health tracking and analysis",
            AgentType::TravelAgent => "Travel planning and booking",
            AgentType::FitnessAgent => "Fitness tracking and coaching",
            AgentType::NutritionAgent => "Nutrition analysis and meal planning",
            AgentType::SleepAgent => "Sleep tracking and optimization",
            AgentType::MentalHealthAgent => "Mental wellness and mindfulness",
        }
    }
}

/// Every agent stands in the catalogue, at the place of its ordinal.
pub proof fn catalogue_is_complete(agent: AgentType)
    ensures
        0 <= agent.ordinal() < AGENT_COUNT,
        catalogue()[agent.ordinal()] == agent,
        catalogue().contains(agent),
{
    assert(catalogue()[agent.ordinal()] == agent);
}

/// The catalogue holds as many entries as there are agents, and no agent twice.
pub proof fn catalogue_has_no_repeats()
    ensures
        catalogue().len() == AGENT_COUNT,
        catalogue().no_duplicates(),
{
    assert forall|i: int| 0 <= i < catalogue().len() implies (#[trigger] catalogue()[i]).ordinal()
        == i by {
        lemma_ordinal_of_entry(i);
    }
}

/// The entry at a place of the catalogue has that place as its ordinal.
proof fn lemma_ordinal_of_entry(i: int)
    requires
        0 <= i < 41,
    ensures
        catalogue()[i].ordinal() == i,
{
    let c = catalogue();
    if i < 10 {
        assert(c[0].ordinal() == 0 && c[1].ordinal() == 1 && c[2].ordinal() == 2 && c[3].ordinal()
            == 3 && c[4].ordinal() == 4);
        assert(c[5].ordinal() == 5 && c[6].ordinal() == 6 && c[7].ordinal() == 7 && c[8].ordinal()
            == 8 && c[9].ordinal() == 9);
    } else if i < 20 {
        assert(c[10].ordinal() == 10 && c[11].ordinal() == 11 && c[12].ordinal() == 12
            && c[13].ordinal() == 13 && c[14].ordinal() == 14);
        assert(c[15].ordinal() == 15 && c[16].ordinal() == 16 && c[17].ordinal() == 17
            && c[18].ordinal() == 18 && c[19].ordinal() == 19);
    } else if i < 30 {
        assert(c[20].ordinal() == 20 && c[21].ordinal() == 21 && c[22].ordinal() == 22
            && c[23].ordinal() == 23 && c[24].ordinal() == 24);
        assert(c[25].ordinal() == 25 && c[26].ordinal() == 26 && c[27].ordinal() == 27
            && c[28].ordinal() == 28 && c[29].ordinal() == 29);
    } else {
        assert(c[30].ordinal() == 30 && c[31].ordinal() == 31 && c[32].ordinal() == 32
            && c[33].ordinal() == 33 && c[34].ordinal() == 34);
        assert(c[35].ordinal() == 35 && c[36].ordinal() == 36 && c[37].ordinal() == 37
            && c[38].ordinal() == 38 && c[39].ordinal() == 39 && c[40].ordinal() == 40);
    }
}

} // verus!
