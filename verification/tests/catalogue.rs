use apollo::agents::{AgentType, AGENT_COUNT};
use apollo::plaid::PlaidEnvironment;
use apollo::text::{decimal_string, same_text, signed_decimal_string};

#[test]
fn catalogue_holds_every_agent_once() {
    let all = AgentType::all();
    assert_eq!(all.len(), AGENT_COUNT);
    assert_eq!(all.len(), 41);
    for (i, a) in all.iter().enumerate() {
        for b in &all[i + 1..] {
            assert_ne!(a, b);
        }
    }
    assert_eq!(all[0], AgentType::CodeAssistant);
    assert_eq!(all[5], AgentType::KnowledgeAgent);
    assert_eq!(all[40], AgentType::MentalHealthAgent);
}

#[test]
fn agents_are_described() {
    assert_eq!(AgentType::CodeAssistant.description(), "Software development assistance");
    assert_eq!(AgentType::EmailAgent.description(), "Email processing and analysis");
    assert_eq!(AgentType::LedgerAgent.description(), "Financial analysis and bookkeeping");
    assert_eq!(
        AgentType::KnowledgeAgent.description(),
        "Semantic search and knowledge retrieval"
    );
    assert_eq!(
        AgentType::TradingAgent.description(),
        "Trading execution (Delt integration)"
    );
    assert_eq!(
        AgentType::MentalHealthAgent.description(),
        "Mental wellness and mindfulness"
    );
    for agent in AgentType::all() {
        assert!(!agent.description().is_empty());
    }
}

#[test]
fn environments_have_their_addresses() {
    assert_eq!(PlaidEnvironment::Sandbox.base_url(), "https://sandbox.plaid.com");
    assert_eq!(PlaidEnvironment::Development.base_url(), "https://development.plaid.com");
    assert_eq!(PlaidEnvironment::Production.base_url(), "https://production.plaid.com");
}

#[test]
fn numbers_are_written_in_decimal() {
    assert_eq!(decimal_string(0), "0");
    assert_eq!(decimal_string(7), "7");
    assert_eq!(decimal_string(10), "10");
    assert_eq!(decimal_string(1_234_567_890), "1234567890");
    assert_eq!(decimal_string(u64::MAX), "18446744073709551615");
    assert_eq!(signed_decimal_string(0), "0");
    assert_eq!(signed_decimal_string(-1), "-1");
    assert_eq!(signed_decimal_string(i32::MAX), "2147483647");
    assert_eq!(signed_decimal_string(i32::MIN), "-2147483648");
}

#[test]
fn texts_are_compared_by_their_characters() {
    assert!(same_text("", ""));
    assert!(same_text("crypto", "crypto"));
    assert!(!same_text("crypto", "Crypto"));
    assert!(!same_text("crypto", "crypt"));
    assert!(same_text("naïve", "naïve"));
}
