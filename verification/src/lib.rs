use vstd::prelude::*;

pub mod text;
pub mod json;
pub mod table;
pub mod beijing_time;
pub mod tools;
pub mod tushare;
pub mod echo;
pub mod tool_args;
pub mod vendor_chain;
pub mod ask_user_question;
pub mod corpus_read;
pub mod coverage;
pub mod corpus_search;
pub mod crypto;
pub mod data_provider_tokens;
pub mod date_order;
pub mod delegate_research;
pub mod record_research_note;
pub mod recent_actions;
pub mod record_investment_action;
pub mod get_a_share_research_sources;
pub mod get_a_share_industry_context;
pub mod get_a_share_market_snapshot;
pub mod get_a_share_ownership_and_leverage;
pub mod get_capital_flow;
pub mod get_china_fund_context;
pub mod get_china_index_context;
pub mod get_china_macro_context;
pub mod get_financials;
pub mod get_candlesticks;
pub mod industry_landscape;
pub mod macro_indicators;
pub mod market_overview;
pub mod read_pdf;
pub mod research_sentiment;
pub mod sec_filing;
pub mod stock_overview;
pub mod market_pulse;
pub mod chart_data;

verus! {
} // verus!
