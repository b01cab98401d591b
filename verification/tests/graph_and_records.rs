use reverse_period::config::{BitgetCredentials, BrokerCredentials, MetaTraderCredentials};
use reverse_period::neuro_symbolic::{build_semantic_graph, compile_blocks, extract_relations, Edge, Graph, Node};
use reverse_period::providers::{BitgetCandleResponse, BitgetProvider, MetaTraderProvider, RealtimeStream};

#[test]
fn semantic_graph_is_a_single_query_node() {
    let g = build_semantic_graph("anything at all");
    assert_eq!(g.nodes.len(), 1);
    assert_eq!(g.nodes[0].id, "1");
    assert_eq!(g.nodes[0].label, "Query");
    assert!(g.edges.is_empty());
}

#[test]
fn relations_are_fixed() {
    let g = build_semantic_graph("");
    assert_eq!(extract_relations(&g), vec!["entity_pattern".to_string(), "action_trade".to_string()]);
}

#[test]
fn compiled_blocks_equal_the_graph() {
    let g = Graph {
        nodes: vec![
            Node { id: "a".to_string(), label: "A".to_string() },
            Node { id: "b".to_string(), label: "B".to_string() },
        ],
        edges: vec![Edge { from: "a".to_string(), to: "b".to_string(), edge_type: "RELATION".to_string() }],
    };
    let c = compile_blocks(&g);
    assert_eq!(c.nodes.len(), 2);
    assert_eq!(c.nodes[1].label, "B");
    assert_eq!(c.edges[0].edge_type, "RELATION");
    assert_eq!(c.edges[0].to, "b");
}

#[test]
fn empty_credentials() {
    let c = BrokerCredentials::empty();
    assert!(c.bitget.is_none());
    assert!(c.metatrader.is_none());
    assert!(c.xm.is_none());
}

#[test]
fn providers_keep_their_settings() {
    let b = BitgetProvider::new("BTCUSDT", "1m");
    assert_eq!(b.symbol, "BTCUSDT");
    assert_eq!(b.interval, "1m");
    let creds = MetaTraderCredentials {
        login: "42".to_string(),
        password: "pw".to_string(),
        server: "XM-Real".to_string(),
        api_token: None,
    };
    let m = MetaTraderProvider::new(creds, "EURUSD");
    assert_eq!(m.symbol, "EURUSD");
    assert_eq!(m.credentials.server, "XM-Real");
    let r = RealtimeStream::new("EUR_USD");
    assert_eq!(r.instrument, "EUR_USD");
    let bg = BitgetCredentials { api_key: "k".to_string(), api_secret: "s".to_string(), passphrase: "p".to_string() };
    assert_eq!(bg.clone().api_key, "k");
    let resp = BitgetCandleResponse(vec![vec!["1".to_string()]]);
    assert_eq!(resp.0.len(), 1);
}

fn no_variables() -> reverse_period::config::CredentialVariables {
    reverse_period::config::CredentialVariables {
        bitget_api_key: None,
        bitget_api_secret: None,
        bitget_passphrase: None,
        metatrader_login: None,
        metatrader_password: None,
        metatrader_server: None,
        metatrader_api_token: None,
        xm_login: None,
        xm_password: None,
        xm_server: None,
    }
}

#[test]
fn no_variables_no_accounts() {
    let c = BrokerCredentials::from_variables(no_variables());
    assert!(c.bitget.is_none() && c.metatrader.is_none() && c.xm.is_none());
}

#[test]
fn secrets_without_key_give_no_account() {
    let mut v = no_variables();
    v.bitget_api_secret = Some("s".to_string());
    v.xm_password = Some("p".to_string());
    let c = BrokerCredentials::from_variables(v);
    assert!(c.bitget.is_none());
    assert!(c.xm.is_none());
}

#[test]
fn accounts_fill_missing_values_with_empty_text() {
    let mut v = no_variables();
    v.bitget_api_key = Some("key".to_string());
    v.metatrader_login = Some("100".to_string());
    v.metatrader_api_token = Some("tok".to_string());
    v.xm_login = Some("200".to_string());
    v.xm_server = Some("XMGlobal-Real".to_string());
    let c = BrokerCredentials::from_variables(v);
    let b = c.bitget.unwrap();
    assert_eq!(b.api_key, "key");
    assert_eq!(b.api_secret, "");
    assert_eq!(b.passphrase, "");
    let m = c.metatrader.unwrap();
    assert_eq!(m.login, "100");
    assert_eq!(m.password, "");
    assert_eq!(m.api_token, Some("tok".to_string()));
    let x = c.xm.unwrap();
    assert_eq!(x.login, "200");
    assert_eq!(x.server, "XMGlobal-Real");
    assert_eq!(x.api_token, None);
}
