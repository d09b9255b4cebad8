//! Typed client library for a game-statistics REST API.
//!
//! The heart of the crate is the season codec in [`season`]: a strict,
//! verified parser and formatter for the compact `e<episode>a<act>`
//! season identifier. Around it sit the response envelope (success or
//! failure, inferred from which fields the response carries) and the
//! request-side types that build endpoint URLs.

mod account_data;
mod client;
mod envelope;
mod json;
mod mmr_data;
mod season;

pub use account_data::AccountData;
pub use account_data::ProfileBanner;
pub use account_data::account_data_of;
pub use account_data::account_data_wf;
pub use account_data::account_payload_of;
pub use account_data::account_payload_wf;
pub use account_data::banner_of;
pub use account_data::banner_wf;
pub use account_data::decode_account_response;
pub use account_data::encode_account_response;
pub use account_data::region_from_text;
pub use mmr_data::CurrentActData;
pub use mmr_data::HighestRank;
pub use mmr_data::MMRData;
pub use mmr_data::RankImages;
pub use mmr_data::current_act_of;
pub use mmr_data::current_act_wf;
pub use mmr_data::decode_mmr_response;
pub use mmr_data::encode_mmr_response;
pub use mmr_data::highest_rank_of;
pub use mmr_data::highest_rank_wf;
pub use mmr_data::mmr_data_of;
pub use mmr_data::mmr_data_wf;
pub use mmr_data::mmr_payload_of;
pub use mmr_data::mmr_payload_wf;
pub use mmr_data::rank_images_of;
pub use mmr_data::rank_images_wf;
pub use envelope::ApiError;
pub use envelope::ApiResponse;
pub use envelope::DecodeError;
pub use envelope::ValorantAPIData;
pub use envelope::api_error_of;
pub use envelope::api_error_wf;
pub use envelope::envelope_from_parts;
pub use envelope::errors_array_of;
pub use envelope::errors_array_wf;
pub use envelope::errors_field_of;
pub use envelope::errors_field_wf;
pub use envelope::spec_status_of;
pub use json::json_array_of;
pub use json::json_bool_of;
pub use json::json_doc_of;
pub use json::json_field_of;
pub use json::json_i64_of;
pub use json::json_str_of;
pub use json::json_text_of;
pub use json::json_u64_of;
pub use json::spec_bool_field;
pub use json::spec_i32_field;
pub use json::spec_str_field;
pub use json::spec_u32_field;
pub use client::AccountRegion;
pub use client::ValorantApiType;
pub use client::ValorantClient;
pub use client::default_endpoint_text;
pub use client::region_text;
pub use client::url_text;
pub use season::EpisodeAndAct;
pub use season::SeasonError;
pub use season::digit_char;
pub use season::digit_value;
pub use season::is_digit_char;
pub use season::lemma_act_out_of_range_rejected;
pub use season::lemma_token_in_range;
pub use season::lemma_parse_format_round_trip;
pub use season::lemma_wrong_marker_rejected;
pub use season::token_text;
pub use season::valid_token_text;
