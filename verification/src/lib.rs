//! Client-side logic for the English Wikipedia web API: building query URLs,
//! decoding the two JSON response shapes, and a small closed error taxonomy.

mod decode;
mod errors;
mod json;
mod laws;
mod page;
mod urls;
mod wire;

pub use decode::decode_search;
pub use decode::decode_summary;
pub use decode::extract_summary;
pub use decode::model_int;
pub use decode::model_text;
pub use decode::page_entry_ok;
pub use decode::page_entry_value;
pub use decode::pages_ok;
pub use decode::pages_values;
pub use decode::summary_decode_spec;
pub use decode::summary_extract_spec;
pub use decode::summary_wire_spec;
pub use errors::ErrorView;
pub use errors::WikiError;
pub use errors::result_view;
pub use json::JsonModel;
pub use json::json_accepts;
pub use json::json_model;
pub use json::json_model_of;
pub use json::search_wire_of;
pub use laws::law_get_summary_repeatable;
pub use laws::law_malformed_search_is_json_error;
pub use laws::law_malformed_summary_is_json_error;
pub use laws::law_not_found_carries_original_term;
pub use laws::law_search_repeatable;
pub use laws::law_search_takes_first_match;
pub use laws::law_summary_repeatable;
pub use laws::law_summary_takes_first_extract;
pub use page::Page;
pub use page::PageView;
pub use page::search_spec;
pub use page::summary_spec;
pub use urls::build_search_url;
pub use urls::build_summary_url;
pub use urls::encode_spaces;
pub use urls::is_space_like;
pub use urls::law_search_term_segment_has_no_space;
pub use urls::search_url_of;
pub use urls::summary_url_of;
pub use urls::trim_spec;
pub use wire::Query;
pub use wire::RPage;
pub use wire::SearchResult;
pub use wire::SummaryResponse;
