//! The matchmaking-rank payload: the account's current competitive
//! standing and its highest rank, whose season field carries the
//! [`EpisodeAndAct`] token decoded by the verified season codec.

use vstd::prelude::*;
use vstd::string::StringExecFns;
use crate::envelope::ApiResponse;
use crate::envelope::DecodeError;
use crate::envelope::ValorantAPIData;
use crate::envelope::decode_errors;
use crate::envelope::decode_status;
use crate::envelope::encode_api_errors;
use crate::envelope::envelope_from_parts;
use crate::envelope::errors_field_of;
use crate::envelope::errors_field_wf;
use crate::envelope::spec_status_of;
use crate::json::get_bool_field;
use crate::json::get_i32_field;
use crate::json::get_str_field;
use crate::json::get_u32_field;
use crate::json::json_doc_of;
use crate::json::json_field_of;
use crate::json::json_from_str;
use crate::json::json_get;
use crate::json::json_bool_value;
use crate::json::json_i64_value;
use crate::json::json_object_from_pairs;
use crate::json::json_string_value;
use crate::json::json_text_of;
use crate::json::json_to_text;
use crate::json::json_u64_value;
use crate::json::lemma_texts_differ_at;
use crate::json::lemma_texts_differ_in_len;
use crate::json::spec_bool_field;
use crate::json::spec_i32_field;
use crate::json::spec_str_field;
use crate::json::spec_u32_field;
use crate::json::json_array_value;
use crate::season::EpisodeAndAct;
use crate::season::digit_value;
use crate::season::lemma_parse_format_round_trip;
use crate::season::lemma_token_in_range;
use crate::season::valid_token_text;

verus! {

/// The icon set of a competitive tier.
#[derive(Debug)]
pub struct RankImages {
    pub small: String,
    pub large: String,
    pub triangle_down: String,
    pub triangle_up: String,
}

/// The account's standing in the current act.
#[derive(Debug)]
pub struct CurrentActData {
    pub current_tier: u32,
    pub current_tier_patched: String,
    pub images: RankImages,
    pub ranking_in_tier: u32,
    pub mmr_change_to_last_game: i32,
    pub elo: u32,
    pub games_needed_for_rating: u32,
    pub old: bool,
}

/// The highest rank the account ever reached, and in which season.
#[derive(Debug)]
pub struct HighestRank {
    pub old: bool,
    pub tier: u32,
    pub patched_tier: String,
    pub season: EpisodeAndAct,
}

/// The matchmaking-rank payload of one account.
#[derive(Debug)]
pub struct MMRData {
    pub puuid: String,
    pub name: String,
    pub tag: String,
    pub current_data: CurrentActData,
    pub highest_rank: HighestRank,
}

impl ValorantAPIData for MMRData {

}

/// A JSON object holds a well-formed icon set: all four image fields
/// present as strings.
pub open spec fn rank_images_wf(v: serde_json::Value) -> bool {
    &&& spec_str_field(v, "small"@) is Some
    &&& spec_str_field(v, "large"@) is Some
    &&& spec_str_field(v, "triangle_down"@) is Some
    &&& spec_str_field(v, "triangle_up"@) is Some
}

/// `im` is the icon set read from the JSON object `v`.
pub open spec fn rank_images_of(v: serde_json::Value, im: RankImages) -> bool {
    &&& spec_str_field(v, "small"@) == Some(im.small@)
    &&& spec_str_field(v, "large"@) == Some(im.large@)
    &&& spec_str_field(v, "triangle_down"@) == Some(im.triangle_down@)
    &&& spec_str_field(v, "triangle_up"@) == Some(im.triangle_up@)
}

/// A JSON object holds a well-formed current-act record.
pub open spec fn current_act_wf(v: serde_json::Value) -> bool {
    &&& spec_u32_field(v, "currenttier"@) is Some
    &&& spec_str_field(v, "currenttierpatched"@) is Some
    &&& json_field_of(v, "images"@) matches Some(f) && rank_images_wf(f)
    &&& spec_u32_field(v, "ranking_in_tier"@) is Some
    &&& spec_i32_field(v, "mmr_change_to_last_game"@) is Some
    &&& spec_u32_field(v, "elo"@) is Some
    &&& spec_u32_field(v, "games_needed_for_rating"@) is Some
    &&& spec_bool_field(v, "old"@) is Some
}

/// `c` is the current-act record read from the JSON object `v`.
pub open spec fn current_act_of(v: serde_json::Value, c: CurrentActData) -> bool {
    &&& spec_u32_field(v, "currenttier"@) == Some(c.current_tier)
    &&& spec_str_field(v, "currenttierpatched"@) == Some(c.current_tier_patched@)
    &&& json_field_of(v, "images"@) matches Some(f) && rank_images_of(f, c.images)
    &&& spec_u32_field(v, "ranking_in_tier"@) == Some(c.ranking_in_tier)
    &&& spec_i32_field(v, "mmr_change_to_last_game"@) == Some(c.mmr_change_to_last_game)
    &&& spec_u32_field(v, "elo"@) == Some(c.elo)
    &&& spec_u32_field(v, "games_needed_for_rating"@) == Some(c.games_needed_for_rating)
    &&& spec_bool_field(v, "old"@) == Some(c.old)
}

/// A JSON object holds a well-formed highest-rank record; its `season`
/// field must be a valid season token text.
pub open spec fn highest_rank_wf(v: serde_json::Value) -> bool {
    &&& spec_bool_field(v, "old"@) is Some
    &&& spec_u32_field(v, "tier"@) is Some
    &&& spec_str_field(v, "patched_tier"@) is Some
    &&& spec_str_field(v, "season"@) matches Some(t) && valid_token_text(t)
}

/// `h` is the highest-rank record read from the JSON object `v`: plain
/// fields copied, and the season token parsed from the valid token text.
pub open spec fn highest_rank_of(v: serde_json::Value, h: HighestRank) -> bool {
    &&& spec_bool_field(v, "old"@) == Some(h.old)
    &&& spec_u32_field(v, "tier"@) == Some(h.tier)
    &&& spec_str_field(v, "patched_tier"@) == Some(h.patched_tier@)
    &&& spec_str_field(v, "season"@) matches Some(t) && valid_token_text(t)
        && h.season.spec_episode() == digit_value(t[1]) && h.season.spec_act() == digit_value(t[3])
}

/// A JSON object holds a well-formed matchmaking-rank payload.
pub open spec fn mmr_data_wf(v: serde_json::Value) -> bool {
    &&& spec_str_field(v, "puuid"@) is Some
    &&& spec_str_field(v, "name"@) is Some
    &&& spec_str_field(v, "tag"@) is Some
    &&& json_field_of(v, "current_data"@) matches Some(f) && current_act_wf(f)
    &&& json_field_of(v, "highest_rank"@) matches Some(f) && highest_rank_wf(f)
}

/// `d` is the matchmaking-rank payload read from the JSON object `v`.
pub open spec fn mmr_data_of(v: serde_json::Value, d: MMRData) -> bool {
    &&& spec_str_field(v, "puuid"@) == Some(d.puuid@)
    &&& spec_str_field(v, "name"@) == Some(d.name@)
    &&& spec_str_field(v, "tag"@) == Some(d.tag@)
    &&& json_field_of(v, "current_data"@) matches Some(f) && current_act_of(f, d.current_data)
    &&& json_field_of(v, "highest_rank"@) matches Some(f) && highest_rank_of(f, d.highest_rank)
}

/// A response document holds a well-formed matchmaking-rank `data` field.
pub open spec fn mmr_payload_wf(doc: serde_json::Value) -> bool {
    json_field_of(doc, "data"@) matches Some(f) && mmr_data_wf(f)
}

/// `d` is the matchmaking-rank payload read from the `data` field of
/// `doc`.
pub open spec fn mmr_payload_of(doc: serde_json::Value, d: MMRData) -> bool {
    json_field_of(doc, "data"@) matches Some(f) && mmr_data_of(f, d)
}

/// Render the icon set as a JSON object: the mirror of
/// [`decode_rank_images`].
fn encode_rank_images(im: &RankImages) -> (v: serde_json::Value)
    ensures
        rank_images_wf(v),
        rank_images_of(v, *im),
{
    proof {
        reveal_strlit("small");
        reveal_strlit("large");
        reveal_strlit("triangle_down");
        reveal_strlit("triangle_up");
    }
    let mut pairs: Vec<(String, serde_json::Value)> = Vec::new();
    pairs.push((String::from_str("small"), json_string_value(im.small.clone())));
    pairs.push((String::from_str("large"), json_string_value(im.large.clone())));
    pairs.push((String::from_str("triangle_down"), json_string_value(im.triangle_down.clone())));
    pairs.push((String::from_str("triangle_up"), json_string_value(im.triangle_up.clone())));
    proof {
        assert(pairs@[0].0@ == "small"@);
        assert(pairs@[1].0@ == "large"@);
        assert(pairs@[2].0@ == "triangle_down"@);
        assert(pairs@[3].0@ == "triangle_up"@);
        lemma_texts_differ_at("small"@, "large"@, 0);
        lemma_texts_differ_at("small"@, "triangle_down"@, 0);
        lemma_texts_differ_at("small"@, "triangle_up"@, 0);
        lemma_texts_differ_at("large"@, "triangle_down"@, 0);
        lemma_texts_differ_at("large"@, "triangle_up"@, 0);
        lemma_texts_differ_at("triangle_down"@, "triangle_up"@, 9);
    }
    let v = json_object_from_pairs(pairs);
    v
}

/// The icon set read from a JSON object; nothing when a field is missing
/// or ill-typed.
fn decode_rank_images(v: &serde_json::Value) -> (r: Option<RankImages>)
    ensures
        r is Some <==> rank_images_wf(*v),
        r matches Some(im) ==> rank_images_of(*v, im),
{
    let small = match get_str_field(v, "small") {
        Some(s) => s,
        None => {
            return None;
        },
    };
    let large = match get_str_field(v, "large") {
        Some(s) => s,
        None => {
            return None;
        },
    };
    let triangle_down = match get_str_field(v, "triangle_down") {
        Some(s) => s,
        None => {
            return None;
        },
    };
    let triangle_up = match get_str_field(v, "triangle_up") {
        Some(s) => s,
        None => {
            return None;
        },
    };
    Some(RankImages { small, large, triangle_down, triangle_up })
}

/// The current-act record read from a JSON object.
fn decode_current_act(v: &serde_json::Value) -> (r: Option<CurrentActData>)
    ensures
        r is Some <==> current_act_wf(*v),
        r matches Some(c) ==> current_act_of(*v, c),
{
    let current_tier = match get_u32_field(v, "currenttier") {
        Some(n) => n,
        None => {
            return None;
        },
    };
    let current_tier_patched = match get_str_field(v, "currenttierpatched") {
        Some(s) => s,
        None => {
            return None;
        },
    };
    let images = match json_get(v, "images") {
        Some(f) => match decode_rank_images(f) {
            Some(im) => im,
            None => {
                return None;
            },
        },
        None => {
            return None;
        },
    };
    let ranking_in_tier = match get_u32_field(v, "ranking_in_tier") {
        Some(n) => n,
        None => {
            return None;
        },
    };
    let mmr_change_to_last_game = match get_i32_field(v, "mmr_change_to_last_game") {
        Some(n) => n,
        None => {
            return None;
        },
    };
    let elo = match get_u32_field(v, "elo") {
        Some(n) => n,
        None => {
            return None;
        },
    };
    let games_needed_for_rating = match get_u32_field(v, "games_needed_for_rating") {
        Some(n) => n,
        None => {
            return None;
        },
    };
    let old = match get_bool_field(v, "old") {
        Some(b) => b,
        None => {
            return None;
        },
    };
    Some(
        CurrentActData {
            current_tier,
            current_tier_patched,
            images,
            ranking_in_tier,
            mmr_change_to_last_game,
            elo,
            games_needed_for_rating,
            old,
        },
    )
}

/// The highest-rank record read from a JSON object. Its `season` field is
/// the token text, run through the verified season codec: an ill-formed
/// token makes the whole record ill-formed.
fn decode_highest_rank(v: &serde_json::Value) -> (r: Option<HighestRank>)
    ensures
        r is Some <==> highest_rank_wf(*v),
        r matches Some(h) ==> highest_rank_of(*v, h),
{
    let old = match get_bool_field(v, "old") {
        Some(b) => b,
        None => {
            return None;
        },
    };
    let tier = match get_u32_field(v, "tier") {
        Some(n) => n,
        None => {
            return None;
        },
    };
    let patched_tier = match get_str_field(v, "patched_tier") {
        Some(s) => s,
        None => {
            return None;
        },
    };
    let season_text = match get_str_field(v, "season") {
        Some(s) => s,
        None => {
            return None;
        },
    };
    let season = match EpisodeAndAct::parse(season_text.as_str()) {
        Ok(t) => t,
        Err(_) => {
            return None;
        },
    };
    Some(HighestRank { old, tier, patched_tier, season })
}

/// The full matchmaking-rank payload read from a JSON object.
pub(crate) fn decode_mmr_data(v: &serde_json::Value) -> (r: Option<MMRData>)
    ensures
        r is Some <==> mmr_data_wf(*v),
        r matches Some(d) ==> mmr_data_of(*v, d),
{
    let puuid = match get_str_field(v, "puuid") {
        Some(s) => s,
        None => {
            return None;
        },
    };
    let name = match get_str_field(v, "name") {
        Some(s) => s,
        None => {
            return None;
        },
    };
    let tag = match get_str_field(v, "tag") {
        Some(s) => s,
        None => {
            return None;
        },
    };
    let current_data = match json_get(v, "current_data") {
        Some(f) => match decode_current_act(f) {
            Some(c) => c,
            None => {
                return None;
            },
        },
        None => {
            return None;
        },
    };
    let highest_rank = match json_get(v, "highest_rank") {
        Some(f) => match decode_highest_rank(f) {
            Some(h) => h,
            None => {
                return None;
            },
        },
        None => {
            return None;
        },
    };
    Some(MMRData { puuid, name, tag, current_data, highest_rank })
}

/// Decode a response body into a matchmaking-rank envelope.
///
/// The body must be well-formed JSON with a numeric `status`; the
/// envelope variant is then selected from whether the body held a
/// well-formed `data` payload or a well-formed `errors` list: a payload
/// without errors is a success carrying the payload, a present error
/// list is a failure carrying it verbatim, and a body with neither is a
/// malformed envelope. The contract states this selection rule over the
/// body itself.
pub fn decode_mmr_response(body: &str) -> (r: Result<ApiResponse<MMRData>, DecodeError>)
    ensures
        json_doc_of(body@) is None ==> r == Err::<ApiResponse<MMRData>, DecodeError>(
            DecodeError::MalformedEnvelope,
        ),
        json_doc_of(body@) matches Some(doc) ==> {
            &&& spec_status_of(doc) is None ==> r == Err::<ApiResponse<MMRData>, DecodeError>(
                DecodeError::MalformedEnvelope,
            )
            &&& spec_status_of(doc) matches Some(status) ==> {
                &&& (mmr_payload_wf(doc) && !errors_field_wf(doc)) <==> (r matches Ok(env)
                    && env is Success)
                &&& errors_field_wf(doc) <==> (r matches Ok(env) && env is Failure)
                &&& (!mmr_payload_wf(doc) && !errors_field_wf(doc)) <==> r == Err::<
                    ApiResponse<MMRData>,
                    DecodeError,
                >(DecodeError::MalformedEnvelope)
                &&& r matches Ok(ApiResponse::Success { status: st, data: d }) ==> st == status
                    && mmr_payload_of(doc, d)
                &&& r matches Ok(ApiResponse::Failure { status: st, errors: es }) ==> st == status
                    && errors_field_of(doc, es@)
            }
        },
{
    let v = match json_from_str(body) {
        Some(v) => v,
        None => {
            return Err(DecodeError::MalformedEnvelope);
        },
    };
    let status = match decode_status(&v) {
        Some(s) => s,
        None => {
            return Err(DecodeError::MalformedEnvelope);
        },
    };
    let data = match json_get(&v, "data") {
        Some(f) => decode_mmr_data(f),
        None => None,
    };
    let errors = decode_errors(&v);
    envelope_from_parts(status, data, errors)
}


/// Render the current-act record as a JSON object: the mirror of
/// [`decode_current_act`].
fn encode_current_act(c: &CurrentActData) -> (v: serde_json::Value)
    ensures
        current_act_wf(v),
        current_act_of(v, *c),
{
    proof {
        reveal_strlit("currenttier");
        reveal_strlit("currenttierpatched");
        reveal_strlit("images");
        reveal_strlit("ranking_in_tier");
        reveal_strlit("mmr_change_to_last_game");
        reveal_strlit("elo");
        reveal_strlit("games_needed_for_rating");
        reveal_strlit("old");
        lemma_texts_differ_in_len("currenttier"@, "currenttierpatched"@);
        lemma_texts_differ_at("currenttier"@, "images"@, 0);
        lemma_texts_differ_at("currenttier"@, "ranking_in_tier"@, 0);
        lemma_texts_differ_at("currenttier"@, "mmr_change_to_last_game"@, 0);
        lemma_texts_differ_at("currenttier"@, "elo"@, 0);
        lemma_texts_differ_at("currenttier"@, "games_needed_for_rating"@, 0);
        lemma_texts_differ_at("currenttier"@, "old"@, 0);
        lemma_texts_differ_at("currenttierpatched"@, "images"@, 0);
        lemma_texts_differ_at("currenttierpatched"@, "ranking_in_tier"@, 0);
        lemma_texts_differ_at("currenttierpatched"@, "mmr_change_to_last_game"@, 0);
        lemma_texts_differ_at("currenttierpatched"@, "elo"@, 0);
        lemma_texts_differ_at("currenttierpatched"@, "games_needed_for_rating"@, 0);
        lemma_texts_differ_at("currenttierpatched"@, "old"@, 0);
        lemma_texts_differ_at("images"@, "ranking_in_tier"@, 0);
        lemma_texts_differ_at("images"@, "mmr_change_to_last_game"@, 0);
        lemma_texts_differ_at("images"@, "elo"@, 0);
        lemma_texts_differ_at("images"@, "games_needed_for_rating"@, 0);
        lemma_texts_differ_at("images"@, "old"@, 0);
        lemma_texts_differ_at("ranking_in_tier"@, "mmr_change_to_last_game"@, 0);
        lemma_texts_differ_at("ranking_in_tier"@, "elo"@, 0);
        lemma_texts_differ_at("ranking_in_tier"@, "games_needed_for_rating"@, 0);
        lemma_texts_differ_at("ranking_in_tier"@, "old"@, 0);
        lemma_texts_differ_at("mmr_change_to_last_game"@, "elo"@, 0);
        lemma_texts_differ_at("mmr_change_to_last_game"@, "games_needed_for_rating"@, 0);
        lemma_texts_differ_at("mmr_change_to_last_game"@, "old"@, 0);
        lemma_texts_differ_at("elo"@, "games_needed_for_rating"@, 0);
        lemma_texts_differ_at("elo"@, "old"@, 0);
        lemma_texts_differ_at("games_needed_for_rating"@, "old"@, 0);
    }
    let images = encode_rank_images(&c.images);
    let mut pairs: Vec<(String, serde_json::Value)> = Vec::new();
    pairs.push((String::from_str("currenttier"), json_u64_value(c.current_tier as u64)));
    pairs.push(
        (String::from_str("currenttierpatched"), json_string_value(c.current_tier_patched.clone())),
    );
    pairs.push((String::from_str("images"), images));
    pairs.push((String::from_str("ranking_in_tier"), json_u64_value(c.ranking_in_tier as u64)));
    pairs.push(
        (
            String::from_str("mmr_change_to_last_game"),
            json_i64_value(c.mmr_change_to_last_game as i64),
        ),
    );
    pairs.push((String::from_str("elo"), json_u64_value(c.elo as u64)));
    pairs.push(
        (String::from_str("games_needed_for_rating"), json_u64_value(c.games_needed_for_rating as u64)),
    );
    pairs.push((String::from_str("old"), json_bool_value(c.old)));
    proof {
        assert(pairs@[0].0@ == "currenttier"@);
        assert(pairs@[1].0@ == "currenttierpatched"@);
        assert(pairs@[2].0@ == "images"@);
        assert(pairs@[3].0@ == "ranking_in_tier"@);
        assert(pairs@[4].0@ == "mmr_change_to_last_game"@);
        assert(pairs@[5].0@ == "elo"@);
        assert(pairs@[6].0@ == "games_needed_for_rating"@);
        assert(pairs@[7].0@ == "old"@);
    }
    json_object_from_pairs(pairs)
}

/// Render the highest-rank record as a JSON object, its season as the
/// canonical token text: the mirror of [`decode_highest_rank`].
fn encode_highest_rank(h: &HighestRank) -> (v: serde_json::Value)
    ensures
        highest_rank_wf(v),
        highest_rank_of(v, *h),
{
    proof {
        reveal_strlit("old");
        reveal_strlit("tier");
        reveal_strlit("patched_tier");
        reveal_strlit("season");
        lemma_texts_differ_at("old"@, "tier"@, 0);
        lemma_texts_differ_at("old"@, "patched_tier"@, 0);
        lemma_texts_differ_at("old"@, "season"@, 0);
        lemma_texts_differ_at("tier"@, "patched_tier"@, 0);
        lemma_texts_differ_at("tier"@, "season"@, 0);
        lemma_texts_differ_at("patched_tier"@, "season"@, 0);
        use_type_invariant(&h.season);
        lemma_token_in_range(h.season);
        lemma_parse_format_round_trip(h.season.spec_episode() as int, h.season.spec_act() as int);
    }
    let season_text = h.season.to_value();
    let mut pairs: Vec<(String, serde_json::Value)> = Vec::new();
    pairs.push((String::from_str("old"), json_bool_value(h.old)));
    pairs.push((String::from_str("tier"), json_u64_value(h.tier as u64)));
    pairs.push((String::from_str("patched_tier"), json_string_value(h.patched_tier.clone())));
    pairs.push((String::from_str("season"), json_string_value(season_text)));
    proof {
        assert(pairs@[0].0@ == "old"@);
        assert(pairs@[1].0@ == "tier"@);
        assert(pairs@[2].0@ == "patched_tier"@);
        assert(pairs@[3].0@ == "season"@);
    }
    json_object_from_pairs(pairs)
}

/// Render the full matchmaking-rank payload as a JSON object: the mirror
/// of [`decode_mmr_data`].
pub(crate) fn encode_mmr_data(d: &MMRData) -> (v: serde_json::Value)
    ensures
        mmr_data_wf(v),
        mmr_data_of(v, *d),
{
    proof {
        reveal_strlit("puuid");
        reveal_strlit("name");
        reveal_strlit("tag");
        reveal_strlit("current_data");
        reveal_strlit("highest_rank");
        lemma_texts_differ_at("puuid"@, "name"@, 0);
        lemma_texts_differ_at("puuid"@, "tag"@, 0);
        lemma_texts_differ_at("puuid"@, "current_data"@, 0);
        lemma_texts_differ_at("puuid"@, "highest_rank"@, 0);
        lemma_texts_differ_at("name"@, "tag"@, 0);
        lemma_texts_differ_at("name"@, "current_data"@, 0);
        lemma_texts_differ_at("name"@, "highest_rank"@, 0);
        lemma_texts_differ_at("tag"@, "current_data"@, 0);
        lemma_texts_differ_at("tag"@, "highest_rank"@, 0);
        lemma_texts_differ_at("current_data"@, "highest_rank"@, 0);
    }
    let current_data = encode_current_act(&d.current_data);
    let highest_rank = encode_highest_rank(&d.highest_rank);
    let mut pairs: Vec<(String, serde_json::Value)> = Vec::new();
    pairs.push((String::from_str("puuid"), json_string_value(d.puuid.clone())));
    pairs.push((String::from_str("name"), json_string_value(d.name.clone())));
    pairs.push((String::from_str("tag"), json_string_value(d.tag.clone())));
    pairs.push((String::from_str("current_data"), current_data));
    pairs.push((String::from_str("highest_rank"), highest_rank));
    proof {
        assert(pairs@[0].0@ == "puuid"@);
        assert(pairs@[1].0@ == "name"@);
        assert(pairs@[2].0@ == "tag"@);
        assert(pairs@[3].0@ == "current_data"@);
        assert(pairs@[4].0@ == "highest_rank"@);
    }
    json_object_from_pairs(pairs)
}

/// Render a matchmaking-rank envelope back to a JSON response body: the
/// mirror of [`decode_mmr_response`]. Only the fields of the populated
/// variant are emitted: `status` and `data` for a success, `status` and
/// `errors` for a failure. The contract pins the document the text
/// renders; that the text parses back to that document is checked by the
/// crate's tests, not assumed.
pub fn encode_mmr_response(env: &ApiResponse<MMRData>) -> (r: String)
    ensures
        env matches ApiResponse::Success { status, data } ==> (exists|doc: serde_json::Value|
            {
                &&& r@ == #[trigger] json_text_of(doc)
                &&& spec_status_of(doc) == Some(*status)
                &&& mmr_payload_wf(doc)
                &&& mmr_payload_of(doc, *data)
                &&& !errors_field_wf(doc)
            }),
        env matches ApiResponse::Failure { status, errors } ==> (exists|doc: serde_json::Value|
            {
                &&& r@ == #[trigger] json_text_of(doc)
                &&& spec_status_of(doc) == Some(*status)
                &&& errors_field_wf(doc)
                &&& errors_field_of(doc, errors@)
                &&& !mmr_payload_wf(doc)
            }),
{
    match env {
        ApiResponse::Success { status, data } => {
            proof {
            reveal_strlit("status");
            reveal_strlit("data");
            reveal_strlit("errors");
            lemma_texts_differ_at("status"@, "data"@, 0);
            lemma_texts_differ_at("status"@, "errors"@, 0);
            lemma_texts_differ_at("data"@, "errors"@, 0);
            }
            let payload = encode_mmr_data(data);
            let mut pairs: Vec<(String, serde_json::Value)> = Vec::new();
            pairs.push((String::from_str("status"), json_u64_value(*status as u64)));
            pairs.push((String::from_str("data"), payload));
            proof {
            assert(pairs@[0].0@ == "status"@);
            assert(pairs@[1].0@ == "data"@);
            }
            let doc = json_object_from_pairs(pairs);
            let r = json_to_text(&doc);
            proof {
                assert(json_field_of(doc, "errors"@) is None);
            }
            r
        },
        ApiResponse::Failure { status, errors } => {
            proof {
            reveal_strlit("status");
            reveal_strlit("errors");
            reveal_strlit("data");
            lemma_texts_differ_at("status"@, "errors"@, 0);
            lemma_texts_differ_at("status"@, "data"@, 0);
            lemma_texts_differ_at("errors"@, "data"@, 0);
            }
            let error_vals = encode_api_errors(errors);
            let mut pairs: Vec<(String, serde_json::Value)> = Vec::new();
            pairs.push((String::from_str("status"), json_u64_value(*status as u64)));
            pairs.push((String::from_str("errors"), json_array_value(error_vals)));
            proof {
            assert(pairs@[0].0@ == "status"@);
            assert(pairs@[1].0@ == "errors"@);
            }
            let doc = json_object_from_pairs(pairs);
            let r = json_to_text(&doc);
            proof {
                assert(json_field_of(doc, "data"@) is None);
            }
            r
        },
    }
}

} // verus!
