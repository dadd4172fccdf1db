//! The HELP and TYPE lines of the metrics page: which they are, that each header
//! block is made of them, and that no two of them are the same.
use vstd::prelude::*;
use crate::prometheus::{
    cache_help, comment_lines, errors_help, lemma_cl_step, lemma_comment_line, not_modified_help, race_help,
    refreshes_help, requests_help, whole_lines,
};

verus! {

/// The HELP and TYPE lines of the metrics page, in order.
pub open spec fn header_lines() -> Seq<Seq<char>> {
    seq![
        "# HELP madcap_fast_requests_total Total API requests handled\n"@,
        "# TYPE madcap_fast_requests_total counter\n"@,
        "# HELP madcap_fast_responses_not_modified_total Total 304 responses\n"@,
        "# TYPE madcap_fast_responses_not_modified_total counter\n"@,
        "# HELP madcap_fast_upstream_refreshes_total Successful upstream refreshes\n"@,
        "# TYPE madcap_fast_upstream_refreshes_total counter\n"@,
        "# HELP madcap_fast_upstream_errors_total Upstream refresh failures\n"@,
        "# TYPE madcap_fast_upstream_errors_total counter\n"@,
        "# HELP madcap_fast_cache_age_seconds Age of the cached snapshot per slug\n"@,
        "# TYPE madcap_fast_cache_age_seconds gauge\n"@,
        "# HELP madcap_fast_cache_body_bytes Raw JSON body size per cached slug\n"@,
        "# TYPE madcap_fast_cache_body_bytes gauge\n"@,
        "# HELP madcap_fast_upstream_last_ms Last upstream refresh duration per slug\n"@,
        "# TYPE madcap_fast_upstream_last_ms gauge\n"@,
        "# HELP madcap_event_total_km Advertised total course distance in km (parsed from info.distance)\n"@,
        "# TYPE madcap_event_total_km gauge\n"@,
        "# HELP madcap_event_cactus_km Virtual cactus pacer position in km (elapsed fraction of event time x total km)\n"@,
        "# TYPE madcap_event_cactus_km gauge\n"@,
        "# HELP madcap_event_participants Participant count in the event\n"@,
        "# TYPE madcap_event_participants gauge\n"@,
        "# HELP madcap_event_active Riders with any ping or REGISTERED/ACTIVE status\n"@,
        "# TYPE madcap_event_active gauge\n"@,
        "# HELP madcap_event_sleeping Riders currently flagged sleeping\n"@,
        "# TYPE madcap_event_sleeping gauge\n"@,
        "# HELP madcap_event_started Riders with non-zero distance\n"@,
        "# TYPE madcap_event_started gauge\n"@,
        "# HELP madcap_event_finished Riders within 0.5 km of the course total\n"@,
        "# TYPE madcap_event_finished gauge\n"@,
        "# HELP madcap_rider_distance_km Distance covered by the rider in km\n"@,
        "# TYPE madcap_rider_distance_km gauge\n"@,
        "# HELP madcap_rider_cactus_delta_km Rider distance minus the cactus pacer position in km (positive = ahead)\n"@,
        "# TYPE madcap_rider_cactus_delta_km gauge\n"@,
        "# HELP madcap_rider_speed_kmh Current reported speed in km/h\n"@,
        "# TYPE madcap_rider_speed_kmh gauge\n"@,
        "# HELP madcap_rider_overall_rank Overall rank (1 = leader)\n"@,
        "# TYPE madcap_rider_overall_rank gauge\n"@,
        "# HELP madcap_rider_category_rank Rank within the rider's category\n"@,
        "# TYPE madcap_rider_category_rank gauge\n"@,
        "# HELP madcap_rider_battery_pct Tracker battery percentage\n"@,
        "# TYPE madcap_rider_battery_pct gauge\n"@,
        "# HELP madcap_rider_sleeping 1 if the rider is currently flagged sleeping, else 0\n"@,
        "# TYPE madcap_rider_sleeping gauge\n"@,
        "# HELP madcap_rider_distance_to_next_cp_km Straight-line distance to the next checkpoint\n"@,
        "# TYPE madcap_rider_distance_to_next_cp_km gauge\n"@,
    ]
}

proof fn lemma_header_line_0()
    ensures
        comment_lines("# HELP madcap_fast_requests_total Total API requests handled\n"@) == seq!["# HELP madcap_fast_requests_total Total API requests handled\n"@],
        whole_lines("# HELP madcap_fast_requests_total Total API requests handled\n"@),
{
    reveal_strlit("# HELP madcap_fast_requests_total Total API requests handled\n");
    lemma_comment_line("# HELP madcap_fast_requests_total Total API requests handled\n"@);
}

proof fn lemma_header_line_1()
    ensures
        comment_lines("# TYPE madcap_fast_requests_total counter\n"@) == seq!["# TYPE madcap_fast_requests_total counter\n"@],
        whole_lines("# TYPE madcap_fast_requests_total counter\n"@),
{
    reveal_strlit("# TYPE madcap_fast_requests_total counter\n");
    lemma_comment_line("# TYPE madcap_fast_requests_total counter\n"@);
}

proof fn lemma_header_line_2()
    ensures
        comment_lines("# HELP madcap_fast_responses_not_modified_total Total 304 responses\n"@) == seq!["# HELP madcap_fast_responses_not_modified_total Total 304 responses\n"@],
        whole_lines("# HELP madcap_fast_responses_not_modified_total Total 304 responses\n"@),
{
    reveal_strlit("# HELP madcap_fast_responses_not_modified_total Total 304 responses\n");
    lemma_comment_line("# HELP madcap_fast_responses_not_modified_total Total 304 responses\n"@);
}

proof fn lemma_header_line_3()
    ensures
        comment_lines("# TYPE madcap_fast_responses_not_modified_total counter\n"@) == seq!["# TYPE madcap_fast_responses_not_modified_total counter\n"@],
        whole_lines("# TYPE madcap_fast_responses_not_modified_total counter\n"@),
{
    reveal_strlit("# TYPE madcap_fast_responses_not_modified_total counter\n");
    lemma_comment_line("# TYPE madcap_fast_responses_not_modified_total counter\n"@);
}

proof fn lemma_header_line_4()
    ensures
        comment_lines("# HELP madcap_fast_upstream_refreshes_total Successful upstream refreshes\n"@) == seq!["# HELP madcap_fast_upstream_refreshes_total Successful upstream refreshes\n"@],
        whole_lines("# HELP madcap_fast_upstream_refreshes_total Successful upstream refreshes\n"@),
{
    reveal_strlit("# HELP madcap_fast_upstream_refreshes_total Successful upstream refreshes\n");
    lemma_comment_line("# HELP madcap_fast_upstream_refreshes_total Successful upstream refreshes\n"@);
}

proof fn lemma_header_line_5()
    ensures
        comment_lines("# TYPE madcap_fast_upstream_refreshes_total counter\n"@) == seq!["# TYPE madcap_fast_upstream_refreshes_total counter\n"@],
        whole_lines("# TYPE madcap_fast_upstream_refreshes_total counter\n"@),
{
    reveal_strlit("# TYPE madcap_fast_upstream_refreshes_total counter\n");
    lemma_comment_line("# TYPE madcap_fast_upstream_refreshes_total counter\n"@);
}

proof fn lemma_header_line_6()
    ensures
        comment_lines("# HELP madcap_fast_upstream_errors_total Upstream refresh failures\n"@) == seq!["# HELP madcap_fast_upstream_errors_total Upstream refresh failures\n"@],
        whole_lines("# HELP madcap_fast_upstream_errors_total Upstream refresh failures\n"@),
{
    reveal_strlit("# HELP madcap_fast_upstream_errors_total Upstream refresh failures\n");
    lemma_comment_line("# HELP madcap_fast_upstream_errors_total Upstream refresh failures\n"@);
}

proof fn lemma_header_line_7()
    ensures
        comment_lines("# TYPE madcap_fast_upstream_errors_total counter\n"@) == seq!["# TYPE madcap_fast_upstream_errors_total counter\n"@],
        whole_lines("# TYPE madcap_fast_upstream_errors_total counter\n"@),
{
    reveal_strlit("# TYPE madcap_fast_upstream_errors_total counter\n");
    lemma_comment_line("# TYPE madcap_fast_upstream_errors_total counter\n"@);
}

proof fn lemma_header_line_8()
    ensures
        comment_lines("# HELP madcap_fast_cache_age_seconds Age of the cached snapshot per slug\n"@) == seq!["# HELP madcap_fast_cache_age_seconds Age of the cached snapshot per slug\n"@],
        whole_lines("# HELP madcap_fast_cache_age_seconds Age of the cached snapshot per slug\n"@),
{
    reveal_strlit("# HELP madcap_fast_cache_age_seconds Age of the cached snapshot per slug\n");
    lemma_comment_line("# HELP madcap_fast_cache_age_seconds Age of the cached snapshot per slug\n"@);
}

proof fn lemma_header_line_9()
    ensures
        comment_lines("# TYPE madcap_fast_cache_age_seconds gauge\n"@) == seq!["# TYPE madcap_fast_cache_age_seconds gauge\n"@],
        whole_lines("# TYPE madcap_fast_cache_age_seconds gauge\n"@),
{
    reveal_strlit("# TYPE madcap_fast_cache_age_seconds gauge\n");
    lemma_comment_line("# TYPE madcap_fast_cache_age_seconds gauge\n"@);
}

proof fn lemma_header_line_10()
    ensures
        comment_lines("# HELP madcap_fast_cache_body_bytes Raw JSON body size per cached slug\n"@) == seq!["# HELP madcap_fast_cache_body_bytes Raw JSON body size per cached slug\n"@],
        whole_lines("# HELP madcap_fast_cache_body_bytes Raw JSON body size per cached slug\n"@),
{
    reveal_strlit("# HELP madcap_fast_cache_body_bytes Raw JSON body size per cached slug\n");
    lemma_comment_line("# HELP madcap_fast_cache_body_bytes Raw JSON body size per cached slug\n"@);
}

proof fn lemma_header_line_11()
    ensures
        comment_lines("# TYPE madcap_fast_cache_body_bytes gauge\n"@) == seq!["# TYPE madcap_fast_cache_body_bytes gauge\n"@],
        whole_lines("# TYPE madcap_fast_cache_body_bytes gauge\n"@),
{
    reveal_strlit("# TYPE madcap_fast_cache_body_bytes gauge\n");
    lemma_comment_line("# TYPE madcap_fast_cache_body_bytes gauge\n"@);
}

proof fn lemma_header_line_12()
    ensures
        comment_lines("# HELP madcap_fast_upstream_last_ms Last upstream refresh duration per slug\n"@) == seq!["# HELP madcap_fast_upstream_last_ms Last upstream refresh duration per slug\n"@],
        whole_lines("# HELP madcap_fast_upstream_last_ms Last upstream refresh duration per slug\n"@),
{
    reveal_strlit("# HELP madcap_fast_upstream_last_ms Last upstream refresh duration per slug\n");
    lemma_comment_line("# HELP madcap_fast_upstream_last_ms Last upstream refresh duration per slug\n"@);
}

proof fn lemma_header_line_13()
    ensures
        comment_lines("# TYPE madcap_fast_upstream_last_ms gauge\n"@) == seq!["# TYPE madcap_fast_upstream_last_ms gauge\n"@],
        whole_lines("# TYPE madcap_fast_upstream_last_ms gauge\n"@),
{
    reveal_strlit("# TYPE madcap_fast_upstream_last_ms gauge\n");
    lemma_comment_line("# TYPE madcap_fast_upstream_last_ms gauge\n"@);
}

proof fn lemma_header_line_14()
    ensures
        comment_lines("# HELP madcap_event_total_km Advertised total course distance in km (parsed from info.distance)\n"@) == seq!["# HELP madcap_event_total_km Advertised total course distance in km (parsed from info.distance)\n"@],
        whole_lines("# HELP madcap_event_total_km Advertised total course distance in km (parsed from info.distance)\n"@),
{
    reveal_strlit("# HELP madcap_event_total_km Advertised total course distance in km (parsed from info.distance)\n");
    lemma_comment_line("# HELP madcap_event_total_km Advertised total course distance in km (parsed from info.distance)\n"@);
}

proof fn lemma_header_line_15()
    ensures
        comment_lines("# TYPE madcap_event_total_km gauge\n"@) == seq!["# TYPE madcap_event_total_km gauge\n"@],
        whole_lines("# TYPE madcap_event_total_km gauge\n"@),
{
    reveal_strlit("# TYPE madcap_event_total_km gauge\n");
    lemma_comment_line("# TYPE madcap_event_total_km gauge\n"@);
}

proof fn lemma_header_line_16()
    ensures
        comment_lines("# HELP madcap_event_cactus_km Virtual cactus pacer position in km (elapsed fraction of event time x total km)\n"@) == seq!["# HELP madcap_event_cactus_km Virtual cactus pacer position in km (elapsed fraction of event time x total km)\n"@],
        whole_lines("# HELP madcap_event_cactus_km Virtual cactus pacer position in km (elapsed fraction of event time x total km)\n"@),
{
    reveal_strlit("# HELP madcap_event_cactus_km Virtual cactus pacer position in km (elapsed fraction of event time x total km)\n");
    lemma_comment_line("# HELP madcap_event_cactus_km Virtual cactus pacer position in km (elapsed fraction of event time x total km)\n"@);
}

proof fn lemma_header_line_17()
    ensures
        comment_lines("# TYPE madcap_event_cactus_km gauge\n"@) == seq!["# TYPE madcap_event_cactus_km gauge\n"@],
        whole_lines("# TYPE madcap_event_cactus_km gauge\n"@),
{
    reveal_strlit("# TYPE madcap_event_cactus_km gauge\n");
    lemma_comment_line("# TYPE madcap_event_cactus_km gauge\n"@);
}

proof fn lemma_header_line_18()
    ensures
        comment_lines("# HELP madcap_event_participants Participant count in the event\n"@) == seq!["# HELP madcap_event_participants Participant count in the event\n"@],
        whole_lines("# HELP madcap_event_participants Participant count in the event\n"@),
{
    reveal_strlit("# HELP madcap_event_participants Participant count in the event\n");
    lemma_comment_line("# HELP madcap_event_participants Participant count in the event\n"@);
}

proof fn lemma_header_line_19()
    ensures
        comment_lines("# TYPE madcap_event_participants gauge\n"@) == seq!["# TYPE madcap_event_participants gauge\n"@],
        whole_lines("# TYPE madcap_event_participants gauge\n"@),
{
    reveal_strlit("# TYPE madcap_event_participants gauge\n");
    lemma_comment_line("# TYPE madcap_event_participants gauge\n"@);
}

proof fn lemma_header_line_20()
    ensures
        comment_lines("# HELP madcap_event_active Riders with any ping or REGISTERED/ACTIVE status\n"@) == seq!["# HELP madcap_event_active Riders with any ping or REGISTERED/ACTIVE status\n"@],
        whole_lines("# HELP madcap_event_active Riders with any ping or REGISTERED/ACTIVE status\n"@),
{
    reveal_strlit("# HELP madcap_event_active Riders with any ping or REGISTERED/ACTIVE status\n");
    lemma_comment_line("# HELP madcap_event_active Riders with any ping or REGISTERED/ACTIVE status\n"@);
}

proof fn lemma_header_line_21()
    ensures
        comment_lines("# TYPE madcap_event_active gauge\n"@) == seq!["# TYPE madcap_event_active gauge\n"@],
        whole_lines("# TYPE madcap_event_active gauge\n"@),
{
    reveal_strlit("# TYPE madcap_event_active gauge\n");
    lemma_comment_line("# TYPE madcap_event_active gauge\n"@);
}

proof fn lemma_header_line_22()
    ensures
        comment_lines("# HELP madcap_event_sleeping Riders currently flagged sleeping\n"@) == seq!["# HELP madcap_event_sleeping Riders currently flagged sleeping\n"@],
        whole_lines("# HELP madcap_event_sleeping Riders currently flagged sleeping\n"@),
{
    reveal_strlit("# HELP madcap_event_sleeping Riders currently flagged sleeping\n");
    lemma_comment_line("# HELP madcap_event_sleeping Riders currently flagged sleeping\n"@);
}

proof fn lemma_header_line_23()
    ensures
        comment_lines("# TYPE madcap_event_sleeping gauge\n"@) == seq!["# TYPE madcap_event_sleeping gauge\n"@],
        whole_lines("# TYPE madcap_event_sleeping gauge\n"@),
{
    reveal_strlit("# TYPE madcap_event_sleeping gauge\n");
    lemma_comment_line("# TYPE madcap_event_sleeping gauge\n"@);
}

proof fn lemma_header_line_24()
    ensures
        comment_lines("# HELP madcap_event_started Riders with non-zero distance\n"@) == seq!["# HELP madcap_event_started Riders with non-zero distance\n"@],
        whole_lines("# HELP madcap_event_started Riders with non-zero distance\n"@),
{
    reveal_strlit("# HELP madcap_event_started Riders with non-zero distance\n");
    lemma_comment_line("# HELP madcap_event_started Riders with non-zero distance\n"@);
}

proof fn lemma_header_line_25()
    ensures
        comment_lines("# TYPE madcap_event_started gauge\n"@) == seq!["# TYPE madcap_event_started gauge\n"@],
        whole_lines("# TYPE madcap_event_started gauge\n"@),
{
    reveal_strlit("# TYPE madcap_event_started gauge\n");
    lemma_comment_line("# TYPE madcap_event_started gauge\n"@);
}

proof fn lemma_header_line_26()
    ensures
        comment_lines("# HELP madcap_event_finished Riders within 0.5 km of the course total\n"@) == seq!["# HELP madcap_event_finished Riders within 0.5 km of the course total\n"@],
        whole_lines("# HELP madcap_event_finished Riders within 0.5 km of the course total\n"@),
{
    reveal_strlit("# HELP madcap_event_finished Riders within 0.5 km of the course total\n");
    lemma_comment_line("# HELP madcap_event_finished Riders within 0.5 km of the course total\n"@);
}

proof fn lemma_header_line_27()
    ensures
        comment_lines("# TYPE madcap_event_finished gauge\n"@) == seq!["# TYPE madcap_event_finished gauge\n"@],
        whole_lines("# TYPE madcap_event_finished gauge\n"@),
{
    reveal_strlit("# TYPE madcap_event_finished gauge\n");
    lemma_comment_line("# TYPE madcap_event_finished gauge\n"@);
}

proof fn lemma_header_line_28()
    ensures
        comment_lines("# HELP madcap_rider_distance_km Distance covered by the rider in km\n"@) == seq!["# HELP madcap_rider_distance_km Distance covered by the rider in km\n"@],
        whole_lines("# HELP madcap_rider_distance_km Distance covered by the rider in km\n"@),
{
    reveal_strlit("# HELP madcap_rider_distance_km Distance covered by the rider in km\n");
    lemma_comment_line("# HELP madcap_rider_distance_km Distance covered by the rider in km\n"@);
}

proof fn lemma_header_line_29()
    ensures
        comment_lines("# TYPE madcap_rider_distance_km gauge\n"@) == seq!["# TYPE madcap_rider_distance_km gauge\n"@],
        whole_lines("# TYPE madcap_rider_distance_km gauge\n"@),
{
    reveal_strlit("# TYPE madcap_rider_distance_km gauge\n");
    lemma_comment_line("# TYPE madcap_rider_distance_km gauge\n"@);
}

proof fn lemma_header_line_30()
    ensures
        comment_lines("# HELP madcap_rider_cactus_delta_km Rider distance minus the cactus pacer position in km (positive = ahead)\n"@) == seq!["# HELP madcap_rider_cactus_delta_km Rider distance minus the cactus pacer position in km (positive = ahead)\n"@],
        whole_lines("# HELP madcap_rider_cactus_delta_km Rider distance minus the cactus pacer position in km (positive = ahead)\n"@),
{
    reveal_strlit("# HELP madcap_rider_cactus_delta_km Rider distance minus the cactus pacer position in km (positive = ahead)\n");
    lemma_comment_line("# HELP madcap_rider_cactus_delta_km Rider distance minus the cactus pacer position in km (positive = ahead)\n"@);
}

proof fn lemma_header_line_31()
    ensures
        comment_lines("# TYPE madcap_rider_cactus_delta_km gauge\n"@) == seq!["# TYPE madcap_rider_cactus_delta_km gauge\n"@],
        whole_lines("# TYPE madcap_rider_cactus_delta_km gauge\n"@),
{
    reveal_strlit("# TYPE madcap_rider_cactus_delta_km gauge\n");
    lemma_comment_line("# TYPE madcap_rider_cactus_delta_km gauge\n"@);
}

proof fn lemma_header_line_32()
    ensures
        comment_lines("# HELP madcap_rider_speed_kmh Current reported speed in km/h\n"@) == seq!["# HELP madcap_rider_speed_kmh Current reported speed in km/h\n"@],
        whole_lines("# HELP madcap_rider_speed_kmh Current reported speed in km/h\n"@),
{
    reveal_strlit("# HELP madcap_rider_speed_kmh Current reported speed in km/h\n");
    lemma_comment_line("# HELP madcap_rider_speed_kmh Current reported speed in km/h\n"@);
}

proof fn lemma_header_line_33()
    ensures
        comment_lines("# TYPE madcap_rider_speed_kmh gauge\n"@) == seq!["# TYPE madcap_rider_speed_kmh gauge\n"@],
        whole_lines("# TYPE madcap_rider_speed_kmh gauge\n"@),
{
    reveal_strlit("# TYPE madcap_rider_speed_kmh gauge\n");
    lemma_comment_line("# TYPE madcap_rider_speed_kmh gauge\n"@);
}

proof fn lemma_header_line_34()
    ensures
        comment_lines("# HELP madcap_rider_overall_rank Overall rank (1 = leader)\n"@) == seq!["# HELP madcap_rider_overall_rank Overall rank (1 = leader)\n"@],
        whole_lines("# HELP madcap_rider_overall_rank Overall rank (1 = leader)\n"@),
{
    reveal_strlit("# HELP madcap_rider_overall_rank Overall rank (1 = leader)\n");
    lemma_comment_line("# HELP madcap_rider_overall_rank Overall rank (1 = leader)\n"@);
}

proof fn lemma_header_line_35()
    ensures
        comment_lines("# TYPE madcap_rider_overall_rank gauge\n"@) == seq!["# TYPE madcap_rider_overall_rank gauge\n"@],
        whole_lines("# TYPE madcap_rider_overall_rank gauge\n"@),
{
    reveal_strlit("# TYPE madcap_rider_overall_rank gauge\n");
    lemma_comment_line("# TYPE madcap_rider_overall_rank gauge\n"@);
}

proof fn lemma_header_line_36()
    ensures
        comment_lines("# HELP madcap_rider_category_rank Rank within the rider's category\n"@) == seq!["# HELP madcap_rider_category_rank Rank within the rider's category\n"@],
        whole_lines("# HELP madcap_rider_category_rank Rank within the rider's category\n"@),
{
    reveal_strlit("# HELP madcap_rider_category_rank Rank within the rider's category\n");
    lemma_comment_line("# HELP madcap_rider_category_rank Rank within the rider's category\n"@);
}

proof fn lemma_header_line_37()
    ensures
        comment_lines("# TYPE madcap_rider_category_rank gauge\n"@) == seq!["# TYPE madcap_rider_category_rank gauge\n"@],
        whole_lines("# TYPE madcap_rider_category_rank gauge\n"@),
{
    reveal_strlit("# TYPE madcap_rider_category_rank gauge\n");
    lemma_comment_line("# TYPE madcap_rider_category_rank gauge\n"@);
}

proof fn lemma_header_line_38()
    ensures
        comment_lines("# HELP madcap_rider_battery_pct Tracker battery percentage\n"@) == seq!["# HELP madcap_rider_battery_pct Tracker battery percentage\n"@],
        whole_lines("# HELP madcap_rider_battery_pct Tracker battery percentage\n"@),
{
    reveal_strlit("# HELP madcap_rider_battery_pct Tracker battery percentage\n");
    lemma_comment_line("# HELP madcap_rider_battery_pct Tracker battery percentage\n"@);
}

proof fn lemma_header_line_39()
    ensures
        comment_lines("# TYPE madcap_rider_battery_pct gauge\n"@) == seq!["# TYPE madcap_rider_battery_pct gauge\n"@],
        whole_lines("# TYPE madcap_rider_battery_pct gauge\n"@),
{
    reveal_strlit("# TYPE madcap_rider_battery_pct gauge\n");
    lemma_comment_line("# TYPE madcap_rider_battery_pct gauge\n"@);
}

proof fn lemma_header_line_40()
    ensures
        comment_lines("# HELP madcap_rider_sleeping 1 if the rider is currently flagged sleeping, else 0\n"@) == seq!["# HELP madcap_rider_sleeping 1 if the rider is currently flagged sleeping, else 0\n"@],
        whole_lines("# HELP madcap_rider_sleeping 1 if the rider is currently flagged sleeping, else 0\n"@),
{
    reveal_strlit("# HELP madcap_rider_sleeping 1 if the rider is currently flagged sleeping, else 0\n");
    lemma_comment_line("# HELP madcap_rider_sleeping 1 if the rider is currently flagged sleeping, else 0\n"@);
}

proof fn lemma_header_line_41()
    ensures
        comment_lines("# TYPE madcap_rider_sleeping gauge\n"@) == seq!["# TYPE madcap_rider_sleeping gauge\n"@],
        whole_lines("# TYPE madcap_rider_sleeping gauge\n"@),
{
    reveal_strlit("# TYPE madcap_rider_sleeping gauge\n");
    lemma_comment_line("# TYPE madcap_rider_sleeping gauge\n"@);
}

proof fn lemma_header_line_42()
    ensures
        comment_lines("# HELP madcap_rider_distance_to_next_cp_km Straight-line distance to the next checkpoint\n"@) == seq!["# HELP madcap_rider_distance_to_next_cp_km Straight-line distance to the next checkpoint\n"@],
        whole_lines("# HELP madcap_rider_distance_to_next_cp_km Straight-line distance to the next checkpoint\n"@),
{
    reveal_strlit("# HELP madcap_rider_distance_to_next_cp_km Straight-line distance to the next checkpoint\n");
    lemma_comment_line("# HELP madcap_rider_distance_to_next_cp_km Straight-line distance to the next checkpoint\n"@);
}

proof fn lemma_header_line_43()
    ensures
        comment_lines("# TYPE madcap_rider_distance_to_next_cp_km gauge\n"@) == seq!["# TYPE madcap_rider_distance_to_next_cp_km gauge\n"@],
        whole_lines("# TYPE madcap_rider_distance_to_next_cp_km gauge\n"@),
{
    reveal_strlit("# TYPE madcap_rider_distance_to_next_cp_km gauge\n");
    lemma_comment_line("# TYPE madcap_rider_distance_to_next_cp_km gauge\n"@);
}

pub(crate) proof fn lemma_requests_help_lines()
    ensures
        comment_lines(requests_help()) == header_lines().subrange(0, 2),
        whole_lines(requests_help()),
{
    lemma_header_line_0();
    lemma_header_line_1();
    lemma_cl_step("# HELP madcap_fast_requests_total Total API requests handled\n"@, "# TYPE madcap_fast_requests_total counter\n"@);
    assert(comment_lines(requests_help()) =~= header_lines().subrange(0, 2));
}

pub(crate) proof fn lemma_not_modified_help_lines()
    ensures
        comment_lines(not_modified_help()) == header_lines().subrange(2, 4),
        whole_lines(not_modified_help()),
{
    lemma_header_line_2();
    lemma_header_line_3();
    lemma_cl_step("# HELP madcap_fast_responses_not_modified_total Total 304 responses\n"@, "# TYPE madcap_fast_responses_not_modified_total counter\n"@);
    assert(comment_lines(not_modified_help()) =~= header_lines().subrange(2, 4));
}

pub(crate) proof fn lemma_refreshes_help_lines()
    ensures
        comment_lines(refreshes_help()) == header_lines().subrange(4, 6),
        whole_lines(refreshes_help()),
{
    lemma_header_line_4();
    lemma_header_line_5();
    lemma_cl_step("# HELP madcap_fast_upstream_refreshes_total Successful upstream refreshes\n"@, "# TYPE madcap_fast_upstream_refreshes_total counter\n"@);
    assert(comment_lines(refreshes_help()) =~= header_lines().subrange(4, 6));
}

pub(crate) proof fn lemma_errors_help_lines()
    ensures
        comment_lines(errors_help()) == header_lines().subrange(6, 8),
        whole_lines(errors_help()),
{
    lemma_header_line_6();
    lemma_header_line_7();
    lemma_cl_step("# HELP madcap_fast_upstream_errors_total Upstream refresh failures\n"@, "# TYPE madcap_fast_upstream_errors_total counter\n"@);
    assert(comment_lines(errors_help()) =~= header_lines().subrange(6, 8));
}

pub(crate) proof fn lemma_cache_help_lines()
    ensures
        comment_lines(cache_help()) == header_lines().subrange(8, 14),
        whole_lines(cache_help()),
{
    lemma_header_line_8();
    lemma_header_line_9();
    lemma_header_line_10();
    lemma_header_line_11();
    lemma_header_line_12();
    lemma_header_line_13();
    lemma_cl_step("# HELP madcap_fast_cache_age_seconds Age of the cached snapshot per slug\n"@, "# TYPE madcap_fast_cache_age_seconds gauge\n"@);
    lemma_cl_step("# HELP madcap_fast_cache_age_seconds Age of the cached snapshot per slug\n"@ + "# TYPE madcap_fast_cache_age_seconds gauge\n"@, "# HELP madcap_fast_cache_body_bytes Raw JSON body size per cached slug\n"@);
    lemma_cl_step("# HELP madcap_fast_cache_age_seconds Age of the cached snapshot per slug\n"@ + "# TYPE madcap_fast_cache_age_seconds gauge\n"@ + "# HELP madcap_fast_cache_body_bytes Raw JSON body size per cached slug\n"@, "# TYPE madcap_fast_cache_body_bytes gauge\n"@);
    lemma_cl_step("# HELP madcap_fast_cache_age_seconds Age of the cached snapshot per slug\n"@ + "# TYPE madcap_fast_cache_age_seconds gauge\n"@ + "# HELP madcap_fast_cache_body_bytes Raw JSON body size per cached slug\n"@ + "# TYPE madcap_fast_cache_body_bytes gauge\n"@, "# HELP madcap_fast_upstream_last_ms Last upstream refresh duration per slug\n"@);
    lemma_cl_step("# HELP madcap_fast_cache_age_seconds Age of the cached snapshot per slug\n"@ + "# TYPE madcap_fast_cache_age_seconds gauge\n"@ + "# HELP madcap_fast_cache_body_bytes Raw JSON body size per cached slug\n"@ + "# TYPE madcap_fast_cache_body_bytes gauge\n"@ + "# HELP madcap_fast_upstream_last_ms Last upstream refresh duration per slug\n"@, "# TYPE madcap_fast_upstream_last_ms gauge\n"@);
    assert(comment_lines(cache_help()) =~= header_lines().subrange(8, 14));
}

#[verifier::rlimit(100)]
pub(crate) proof fn lemma_race_help_lines()
    ensures
        comment_lines(race_help()) == header_lines().subrange(14, 44),
        whole_lines(race_help()),
{
    lemma_header_line_14();
    lemma_header_line_15();
    lemma_header_line_16();
    lemma_header_line_17();
    lemma_header_line_18();
    lemma_header_line_19();
    lemma_header_line_20();
    lemma_header_line_21();
    lemma_header_line_22();
    lemma_header_line_23();
    lemma_header_line_24();
    lemma_header_line_25();
    lemma_header_line_26();
    lemma_header_line_27();
    lemma_header_line_28();
    lemma_header_line_29();
    lemma_header_line_30();
    lemma_header_line_31();
    lemma_header_line_32();
    lemma_header_line_33();
    lemma_header_line_34();
    lemma_header_line_35();
    lemma_header_line_36();
    lemma_header_line_37();
    lemma_header_line_38();
    lemma_header_line_39();
    lemma_header_line_40();
    lemma_header_line_41();
    lemma_header_line_42();
    lemma_header_line_43();
    lemma_cl_step("# HELP madcap_event_total_km Advertised total course distance in km (parsed from info.distance)\n"@, "# TYPE madcap_event_total_km gauge\n"@);
    lemma_cl_step("# HELP madcap_event_total_km Advertised total course distance in km (parsed from info.distance)\n"@ + "# TYPE madcap_event_total_km gauge\n"@, "# HELP madcap_event_cactus_km Virtual cactus pacer position in km (elapsed fraction of event time x total km)\n"@);
    lemma_cl_step("# HELP madcap_event_total_km Advertised total course distance in km (parsed from info.distance)\n"@ + "# TYPE madcap_event_total_km gauge\n"@ + "# HELP madcap_event_cactus_km Virtual cactus pacer position in km (elapsed fraction of event time x total km)\n"@, "# TYPE madcap_event_cactus_km gauge\n"@);
    lemma_cl_step("# HELP madcap_event_total_km Advertised total course distance in km (parsed from info.distance)\n"@ + "# TYPE madcap_event_total_km gauge\n"@ + "# HELP madcap_event_cactus_km Virtual cactus pacer position in km (elapsed fraction of event time x total km)\n"@ + "# TYPE madcap_event_cactus_km gauge\n"@, "# HELP madcap_event_participants Participant count in the event\n"@);
    lemma_cl_step("# HELP madcap_event_total_km Advertised total course distance in km (parsed from info.distance)\n"@ + "# TYPE madcap_event_total_km gauge\n"@ + "# HELP madcap_event_cactus_km Virtual cactus pacer position in km (elapsed fraction of event time x total km)\n"@ + "# TYPE madcap_event_cactus_km gauge\n"@ + "# HELP madcap_event_participants Participant count in the event\n"@, "# TYPE madcap_event_participants gauge\n"@);
    lemma_cl_step("# HELP madcap_event_total_km Advertised total course distance in km (parsed from info.distance)\n"@ + "# TYPE madcap_event_total_km gauge\n"@ + "# HELP madcap_event_cactus_km Virtual cactus pacer position in km (elapsed fraction of event time x total km)\n"@ + "# TYPE madcap_event_cactus_km gauge\n"@ + "# HELP madcap_event_participants Participant count in the event\n"@ + "# TYPE madcap_event_participants gauge\n"@, "# HELP madcap_event_active Riders with any ping or REGISTERED/ACTIVE status\n"@);
    lemma_cl_step("# HELP madcap_event_total_km Advertised total course distance in km (parsed from info.distance)\n"@ + "# TYPE madcap_event_total_km gauge\n"@ + "# HELP madcap_event_cactus_km Virtual cactus pacer position in km (elapsed fraction of event time x total km)\n"@ + "# TYPE madcap_event_cactus_km gauge\n"@ + "# HELP madcap_event_participants Participant count in the event\n"@ + "# TYPE madcap_event_participants gauge\n"@ + "# HELP madcap_event_active Riders with any ping or REGISTERED/ACTIVE status\n"@, "# TYPE madcap_event_active gauge\n"@);
    lemma_cl_step("# HELP madcap_event_total_km Advertised total course distance in km (parsed from info.distance)\n"@ + "# TYPE madcap_event_total_km gauge\n"@ + "# HELP madcap_event_cactus_km Virtual cactus pacer position in km (elapsed fraction of event time x total km)\n"@ + "# TYPE madcap_event_cactus_km gauge\n"@ + "# HELP madcap_event_participants Participant count in the event\n"@ + "# TYPE madcap_event_participants gauge\n"@ + "# HELP madcap_event_active Riders with any ping or REGISTERED/ACTIVE status\n"@ + "# TYPE madcap_event_active gauge\n"@, "# HELP madcap_event_sleeping Riders currently flagged sleeping\n"@);
    lemma_cl_step("# HELP madcap_event_total_km Advertised total course distance in km (parsed from info.distance)\n"@ + "# TYPE madcap_event_total_km gauge\n"@ + "# HELP madcap_event_cactus_km Virtual cactus pacer position in km (elapsed fraction of event time x total km)\n"@ + "# TYPE madcap_event_cactus_km gauge\n"@ + "# HELP madcap_event_participants Participant count in the event\n"@ + "# TYPE madcap_event_participants gauge\n"@ + "# HELP madcap_event_active Riders with any ping or REGISTERED/ACTIVE status\n"@ + "# TYPE madcap_event_active gauge\n"@ + "# HELP madcap_event_sleeping Riders currently flagged sleeping\n"@, "# TYPE madcap_event_sleeping gauge\n"@);
    lemma_cl_step("# HELP madcap_event_total_km Advertised total course distance in km (parsed from info.distance)\n"@ + "# TYPE madcap_event_total_km gauge\n"@ + "# HELP madcap_event_cactus_km Virtual cactus pacer position in km (elapsed fraction of event time x total km)\n"@ + "# TYPE madcap_event_cactus_km gauge\n"@ + "# HELP madcap_event_participants Participant count in the event\n"@ + "# TYPE madcap_event_participants gauge\n"@ + "# HELP madcap_event_active Riders with any ping or REGISTERED/ACTIVE status\n"@ + "# TYPE madcap_event_active gauge\n"@ + "# HELP madcap_event_sleeping Riders currently flagged sleeping\n"@ + "# TYPE madcap_event_sleeping gauge\n"@, "# HELP madcap_event_started Riders with non-zero distance\n"@);
    lemma_cl_step("# HELP madcap_event_total_km Advertised total course distance in km (parsed from info.distance)\n"@ + "# TYPE madcap_event_total_km gauge\n"@ + "# HELP madcap_event_cactus_km Virtual cactus pacer position in km (elapsed fraction of event time x total km)\n"@ + "# TYPE madcap_event_cactus_km gauge\n"@ + "# HELP madcap_event_participants Participant count in the event\n"@ + "# TYPE madcap_event_participants gauge\n"@ + "# HELP madcap_event_active Riders with any ping or REGISTERED/ACTIVE status\n"@ + "# TYPE madcap_event_active gauge\n"@ + "# HELP madcap_event_sleeping Riders currently flagged sleeping\n"@ + "# TYPE madcap_event_sleeping gauge\n"@ + "# HELP madcap_event_started Riders with non-zero distance\n"@, "# TYPE madcap_event_started gauge\n"@);
    lemma_cl_step("# HELP madcap_event_total_km Advertised total course distance in km (parsed from info.distance)\n"@ + "# TYPE madcap_event_total_km gauge\n"@ + "# HELP madcap_event_cactus_km Virtual cactus pacer position in km (elapsed fraction of event time x total km)\n"@ + "# TYPE madcap_event_cactus_km gauge\n"@ + "# HELP madcap_event_participants Participant count in the event\n"@ + "# TYPE madcap_event_participants gauge\n"@ + "# HELP madcap_event_active Riders with any ping or REGISTERED/ACTIVE status\n"@ + "# TYPE madcap_event_active gauge\n"@ + "# HELP madcap_event_sleeping Riders currently flagged sleeping\n"@ + "# TYPE madcap_event_sleeping gauge\n"@ + "# HELP madcap_event_started Riders with non-zero distance\n"@ + "# TYPE madcap_event_started gauge\n"@, "# HELP madcap_event_finished Riders within 0.5 km of the course total\n"@);
    lemma_cl_step("# HELP madcap_event_total_km Advertised total course distance in km (parsed from info.distance)\n"@ + "# TYPE madcap_event_total_km gauge\n"@ + "# HELP madcap_event_cactus_km Virtual cactus pacer position in km (elapsed fraction of event time x total km)\n"@ + "# TYPE madcap_event_cactus_km gauge\n"@ + "# HELP madcap_event_participants Participant count in the event\n"@ + "# TYPE madcap_event_participants gauge\n"@ + "# HELP madcap_event_active Riders with any ping or REGISTERED/ACTIVE status\n"@ + "# TYPE madcap_event_active gauge\n"@ + "# HELP madcap_event_sleeping Riders currently flagged sleeping\n"@ + "# TYPE madcap_event_sleeping gauge\n"@ + "# HELP madcap_event_started Riders with non-zero distance\n"@ + "# TYPE madcap_event_started gauge\n"@ + "# HELP madcap_event_finished Riders within 0.5 km of the course total\n"@, "# TYPE madcap_event_finished gauge\n"@);
    lemma_cl_step("# HELP madcap_event_total_km Advertised total course distance in km (parsed from info.distance)\n"@ + "# TYPE madcap_event_total_km gauge\n"@ + "# HELP madcap_event_cactus_km Virtual cactus pacer position in km (elapsed fraction of event time x total km)\n"@ + "# TYPE madcap_event_cactus_km gauge\n"@ + "# HELP madcap_event_participants Participant count in the event\n"@ + "# TYPE madcap_event_participants gauge\n"@ + "# HELP madcap_event_active Riders with any ping or REGISTERED/ACTIVE status\n"@ + "# TYPE madcap_event_active gauge\n"@ + "# HELP madcap_event_sleeping Riders currently flagged sleeping\n"@ + "# TYPE madcap_event_sleeping gauge\n"@ + "# HELP madcap_event_started Riders with non-zero distance\n"@ + "# TYPE madcap_event_started gauge\n"@ + "# HELP madcap_event_finished Riders within 0.5 km of the course total\n"@ + "# TYPE madcap_event_finished gauge\n"@, "# HELP madcap_rider_distance_km Distance covered by the rider in km\n"@);
    lemma_cl_step("# HELP madcap_event_total_km Advertised total course distance in km (parsed from info.distance)\n"@ + "# TYPE madcap_event_total_km gauge\n"@ + "# HELP madcap_event_cactus_km Virtual cactus pacer position in km (elapsed fraction of event time x total km)\n"@ + "# TYPE madcap_event_cactus_km gauge\n"@ + "# HELP madcap_event_participants Participant count in the event\n"@ + "# TYPE madcap_event_participants gauge\n"@ + "# HELP madcap_event_active Riders with any ping or REGISTERED/ACTIVE status\n"@ + "# TYPE madcap_event_active gauge\n"@ + "# HELP madcap_event_sleeping Riders currently flagged sleeping\n"@ + "# TYPE madcap_event_sleeping gauge\n"@ + "# HELP madcap_event_started Riders with non-zero distance\n"@ + "# TYPE madcap_event_started gauge\n"@ + "# HELP madcap_event_finished Riders within 0.5 km of the course total\n"@ + "# TYPE madcap_event_finished gauge\n"@ + "# HELP madcap_rider_distance_km Distance covered by the rider in km\n"@, "# TYPE madcap_rider_distance_km gauge\n"@);
    lemma_cl_step("# HELP madcap_event_total_km Advertised total course distance in km (parsed from info.distance)\n"@ + "# TYPE madcap_event_total_km gauge\n"@ + "# HELP madcap_event_cactus_km Virtual cactus pacer position in km (elapsed fraction of event time x total km)\n"@ + "# TYPE madcap_event_cactus_km gauge\n"@ + "# HELP madcap_event_participants Participant count in the event\n"@ + "# TYPE madcap_event_participants gauge\n"@ + "# HELP madcap_event_active Riders with any ping or REGISTERED/ACTIVE status\n"@ + "# TYPE madcap_event_active gauge\n"@ + "# HELP madcap_event_sleeping Riders currently flagged sleeping\n"@ + "# TYPE madcap_event_sleeping gauge\n"@ + "# HELP madcap_event_started Riders with non-zero distance\n"@ + "# TYPE madcap_event_started gauge\n"@ + "# HELP madcap_event_finished Riders within 0.5 km of the course total\n"@ + "# TYPE madcap_event_finished gauge\n"@ + "# HELP madcap_rider_distance_km Distance covered by the rider in km\n"@ + "# TYPE madcap_rider_distance_km gauge\n"@, "# HELP madcap_rider_cactus_delta_km Rider distance minus the cactus pacer position in km (positive = ahead)\n"@);
    lemma_cl_step("# HELP madcap_event_total_km Advertised total course distance in km (parsed from info.distance)\n"@ + "# TYPE madcap_event_total_km gauge\n"@ + "# HELP madcap_event_cactus_km Virtual cactus pacer position in km (elapsed fraction of event time x total km)\n"@ + "# TYPE madcap_event_cactus_km gauge\n"@ + "# HELP madcap_event_participants Participant count in the event\n"@ + "# TYPE madcap_event_participants gauge\n"@ + "# HELP madcap_event_active Riders with any ping or REGISTERED/ACTIVE status\n"@ + "# TYPE madcap_event_active gauge\n"@ + "# HELP madcap_event_sleeping Riders currently flagged sleeping\n"@ + "# TYPE madcap_event_sleeping gauge\n"@ + "# HELP madcap_event_started Riders with non-zero distance\n"@ + "# TYPE madcap_event_started gauge\n"@ + "# HELP madcap_event_finished Riders within 0.5 km of the course total\n"@ + "# TYPE madcap_event_finished gauge\n"@ + "# HELP madcap_rider_distance_km Distance covered by the rider in km\n"@ + "# TYPE madcap_rider_distance_km gauge\n"@ + "# HELP madcap_rider_cactus_delta_km Rider distance minus the cactus pacer position in km (positive = ahead)\n"@, "# TYPE madcap_rider_cactus_delta_km gauge\n"@);
    lemma_cl_step("# HELP madcap_event_total_km Advertised total course distance in km (parsed from info.distance)\n"@ + "# TYPE madcap_event_total_km gauge\n"@ + "# HELP madcap_event_cactus_km Virtual cactus pacer position in km (elapsed fraction of event time x total km)\n"@ + "# TYPE madcap_event_cactus_km gauge\n"@ + "# HELP madcap_event_participants Participant count in the event\n"@ + "# TYPE madcap_event_participants gauge\n"@ + "# HELP madcap_event_active Riders with any ping or REGISTERED/ACTIVE status\n"@ + "# TYPE madcap_event_active gauge\n"@ + "# HELP madcap_event_sleeping Riders currently flagged sleeping\n"@ + "# TYPE madcap_event_sleeping gauge\n"@ + "# HELP madcap_event_started Riders with non-zero distance\n"@ + "# TYPE madcap_event_started gauge\n"@ + "# HELP madcap_event_finished Riders within 0.5 km of the course total\n"@ + "# TYPE madcap_event_finished gauge\n"@ + "# HELP madcap_rider_distance_km Distance covered by the rider in km\n"@ + "# TYPE madcap_rider_distance_km gauge\n"@ + "# HELP madcap_rider_cactus_delta_km Rider distance minus the cactus pacer position in km (positive = ahead)\n"@ + "# TYPE madcap_rider_cactus_delta_km gauge\n"@, "# HELP madcap_rider_speed_kmh Current reported speed in km/h\n"@);
    lemma_cl_step("# HELP madcap_event_total_km Advertised total course distance in km (parsed from info.distance)\n"@ + "# TYPE madcap_event_total_km gauge\n"@ + "# HELP madcap_event_cactus_km Virtual cactus pacer position in km (elapsed fraction of event time x total km)\n"@ + "# TYPE madcap_event_cactus_km gauge\n"@ + "# HELP madcap_event_participants Participant count in the event\n"@ + "# TYPE madcap_event_participants gauge\n"@ + "# HELP madcap_event_active Riders with any ping or REGISTERED/ACTIVE status\n"@ + "# TYPE madcap_event_active gauge\n"@ + "# HELP madcap_event_sleeping Riders currently flagged sleeping\n"@ + "# TYPE madcap_event_sleeping gauge\n"@ + "# HELP madcap_event_started Riders with non-zero distance\n"@ + "# TYPE madcap_event_started gauge\n"@ + "# HELP madcap_event_finished Riders within 0.5 km of the course total\n"@ + "# TYPE madcap_event_finished gauge\n"@ + "# HELP madcap_rider_distance_km Distance covered by the rider in km\n"@ + "# TYPE madcap_rider_distance_km gauge\n"@ + "# HELP madcap_rider_cactus_delta_km Rider distance minus the cactus pacer position in km (positive = ahead)\n"@ + "# TYPE madcap_rider_cactus_delta_km gauge\n"@ + "# HELP madcap_rider_speed_kmh Current reported speed in km/h\n"@, "# TYPE madcap_rider_speed_kmh gauge\n"@);
    lemma_cl_step("# HELP madcap_event_total_km Advertised total course distance in km (parsed from info.distance)\n"@ + "# TYPE madcap_event_total_km gauge\n"@ + "# HELP madcap_event_cactus_km Virtual cactus pacer position in km (elapsed fraction of event time x total km)\n"@ + "# TYPE madcap_event_cactus_km gauge\n"@ + "# HELP madcap_event_participants Participant count in the event\n"@ + "# TYPE madcap_event_participants gauge\n"@ + "# HELP madcap_event_active Riders with any ping or REGISTERED/ACTIVE status\n"@ + "# TYPE madcap_event_active gauge\n"@ + "# HELP madcap_event_sleeping Riders currently flagged sleeping\n"@ + "# TYPE madcap_event_sleeping gauge\n"@ + "# HELP madcap_event_started Riders with non-zero distance\n"@ + "# TYPE madcap_event_started gauge\n"@ + "# HELP madcap_event_finished Riders within 0.5 km of the course total\n"@ + "# TYPE madcap_event_finished gauge\n"@ + "# HELP madcap_rider_distance_km Distance covered by the rider in km\n"@ + "# TYPE madcap_rider_distance_km gauge\n"@ + "# HELP madcap_rider_cactus_delta_km Rider distance minus the cactus pacer position in km (positive = ahead)\n"@ + "# TYPE madcap_rider_cactus_delta_km gauge\n"@ + "# HELP madcap_rider_speed_kmh Current reported speed in km/h\n"@ + "# TYPE madcap_rider_speed_kmh gauge\n"@, "# HELP madcap_rider_overall_rank Overall rank (1 = leader)\n"@);
    lemma_cl_step("# HELP madcap_event_total_km Advertised total course distance in km (parsed from info.distance)\n"@ + "# TYPE madcap_event_total_km gauge\n"@ + "# HELP madcap_event_cactus_km Virtual cactus pacer position in km (elapsed fraction of event time x total km)\n"@ + "# TYPE madcap_event_cactus_km gauge\n"@ + "# HELP madcap_event_participants Participant count in the event\n"@ + "# TYPE madcap_event_participants gauge\n"@ + "# HELP madcap_event_active Riders with any ping or REGISTERED/ACTIVE status\n"@ + "# TYPE madcap_event_active gauge\n"@ + "# HELP madcap_event_sleeping Riders currently flagged sleeping\n"@ + "# TYPE madcap_event_sleeping gauge\n"@ + "# HELP madcap_event_started Riders with non-zero distance\n"@ + "# TYPE madcap_event_started gauge\n"@ + "# HELP madcap_event_finished Riders within 0.5 km of the course total\n"@ + "# TYPE madcap_event_finished gauge\n"@ + "# HELP madcap_rider_distance_km Distance covered by the rider in km\n"@ + "# TYPE madcap_rider_distance_km gauge\n"@ + "# HELP madcap_rider_cactus_delta_km Rider distance minus the cactus pacer position in km (positive = ahead)\n"@ + "# TYPE madcap_rider_cactus_delta_km gauge\n"@ + "# HELP madcap_rider_speed_kmh Current reported speed in km/h\n"@ + "# TYPE madcap_rider_speed_kmh gauge\n"@ + "# HELP madcap_rider_overall_rank Overall rank (1 = leader)\n"@, "# TYPE madcap_rider_overall_rank gauge\n"@);
    lemma_cl_step("# HELP madcap_event_total_km Advertised total course distance in km (parsed from info.distance)\n"@ + "# TYPE madcap_event_total_km gauge\n"@ + "# HELP madcap_event_cactus_km Virtual cactus pacer position in km (elapsed fraction of event time x total km)\n"@ + "# TYPE madcap_event_cactus_km gauge\n"@ + "# HELP madcap_event_participants Participant count in the event\n"@ + "# TYPE madcap_event_participants gauge\n"@ + "# HELP madcap_event_active Riders with any ping or REGISTERED/ACTIVE status\n"@ + "# TYPE madcap_event_active gauge\n"@ + "# HELP madcap_event_sleeping Riders currently flagged sleeping\n"@ + "# TYPE madcap_event_sleeping gauge\n"@ + "# HELP madcap_event_started Riders with non-zero distance\n"@ + "# TYPE madcap_event_started gauge\n"@ + "# HELP madcap_event_finished Riders within 0.5 km of the course total\n"@ + "# TYPE madcap_event_finished gauge\n"@ + "# HELP madcap_rider_distance_km Distance covered by the rider in km\n"@ + "# TYPE madcap_rider_distance_km gauge\n"@ + "# HELP madcap_rider_cactus_delta_km Rider distance minus the cactus pacer position in km (positive = ahead)\n"@ + "# TYPE madcap_rider_cactus_delta_km gauge\n"@ + "# HELP madcap_rider_speed_kmh Current reported speed in km/h\n"@ + "# TYPE madcap_rider_speed_kmh gauge\n"@ + "# HELP madcap_rider_overall_rank Overall rank (1 = leader)\n"@ + "# TYPE madcap_rider_overall_rank gauge\n"@, "# HELP madcap_rider_category_rank Rank within the rider's category\n"@);
    lemma_cl_step("# HELP madcap_event_total_km Advertised total course distance in km (parsed from info.distance)\n"@ + "# TYPE madcap_event_total_km gauge\n"@ + "# HELP madcap_event_cactus_km Virtual cactus pacer position in km (elapsed fraction of event time x total km)\n"@ + "# TYPE madcap_event_cactus_km gauge\n"@ + "# HELP madcap_event_participants Participant count in the event\n"@ + "# TYPE madcap_event_participants gauge\n"@ + "# HELP madcap_event_active Riders with any ping or REGISTERED/ACTIVE status\n"@ + "# TYPE madcap_event_active gauge\n"@ + "# HELP madcap_event_sleeping Riders currently flagged sleeping\n"@ + "# TYPE madcap_event_sleeping gauge\n"@ + "# HELP madcap_event_started Riders with non-zero distance\n"@ + "# TYPE madcap_event_started gauge\n"@ + "# HELP madcap_event_finished Riders within 0.5 km of the course total\n"@ + "# TYPE madcap_event_finished gauge\n"@ + "# HELP madcap_rider_distance_km Distance covered by the rider in km\n"@ + "# TYPE madcap_rider_distance_km gauge\n"@ + "# HELP madcap_rider_cactus_delta_km Rider distance minus the cactus pacer position in km (positive = ahead)\n"@ + "# TYPE madcap_rider_cactus_delta_km gauge\n"@ + "# HELP madcap_rider_speed_kmh Current reported speed in km/h\n"@ + "# TYPE madcap_rider_speed_kmh gauge\n"@ + "# HELP madcap_rider_overall_rank Overall rank (1 = leader)\n"@ + "# TYPE madcap_rider_overall_rank gauge\n"@ + "# HELP madcap_rider_category_rank Rank within the rider's category\n"@, "# TYPE madcap_rider_category_rank gauge\n"@);
    lemma_cl_step("# HELP madcap_event_total_km Advertised total course distance in km (parsed from info.distance)\n"@ + "# TYPE madcap_event_total_km gauge\n"@ + "# HELP madcap_event_cactus_km Virtual cactus pacer position in km (elapsed fraction of event time x total km)\n"@ + "# TYPE madcap_event_cactus_km gauge\n"@ + "# HELP madcap_event_participants Participant count in the event\n"@ + "# TYPE madcap_event_participants gauge\n"@ + "# HELP madcap_event_active Riders with any ping or REGISTERED/ACTIVE status\n"@ + "# TYPE madcap_event_active gauge\n"@ + "# HELP madcap_event_sleeping Riders currently flagged sleeping\n"@ + "# TYPE madcap_event_sleeping gauge\n"@ + "# HELP madcap_event_started Riders with non-zero distance\n"@ + "# TYPE madcap_event_started gauge\n"@ + "# HELP madcap_event_finished Riders within 0.5 km of the course total\n"@ + "# TYPE madcap_event_finished gauge\n"@ + "# HELP madcap_rider_distance_km Distance covered by the rider in km\n"@ + "# TYPE madcap_rider_distance_km gauge\n"@ + "# HELP madcap_rider_cactus_delta_km Rider distance minus the cactus pacer position in km (positive = ahead)\n"@ + "# TYPE madcap_rider_cactus_delta_km gauge\n"@ + "# HELP madcap_rider_speed_kmh Current reported speed in km/h\n"@ + "# TYPE madcap_rider_speed_kmh gauge\n"@ + "# HELP madcap_rider_overall_rank Overall rank (1 = leader)\n"@ + "# TYPE madcap_rider_overall_rank gauge\n"@ + "# HELP madcap_rider_category_rank Rank within the rider's category\n"@ + "# TYPE madcap_rider_category_rank gauge\n"@, "# HELP madcap_rider_battery_pct Tracker battery percentage\n"@);
    lemma_cl_step("# HELP madcap_event_total_km Advertised total course distance in km (parsed from info.distance)\n"@ + "# TYPE madcap_event_total_km gauge\n"@ + "# HELP madcap_event_cactus_km Virtual cactus pacer position in km (elapsed fraction of event time x total km)\n"@ + "# TYPE madcap_event_cactus_km gauge\n"@ + "# HELP madcap_event_participants Participant count in the event\n"@ + "# TYPE madcap_event_participants gauge\n"@ + "# HELP madcap_event_active Riders with any ping or REGISTERED/ACTIVE status\n"@ + "# TYPE madcap_event_active gauge\n"@ + "# HELP madcap_event_sleeping Riders currently flagged sleeping\n"@ + "# TYPE madcap_event_sleeping gauge\n"@ + "# HELP madcap_event_started Riders with non-zero distance\n"@ + "# TYPE madcap_event_started gauge\n"@ + "# HELP madcap_event_finished Riders within 0.5 km of the course total\n"@ + "# TYPE madcap_event_finished gauge\n"@ + "# HELP madcap_rider_distance_km Distance covered by the rider in km\n"@ + "# TYPE madcap_rider_distance_km gauge\n"@ + "# HELP madcap_rider_cactus_delta_km Rider distance minus the cactus pacer position in km (positive = ahead)\n"@ + "# TYPE madcap_rider_cactus_delta_km gauge\n"@ + "# HELP madcap_rider_speed_kmh Current reported speed in km/h\n"@ + "# TYPE madcap_rider_speed_kmh gauge\n"@ + "# HELP madcap_rider_overall_rank Overall rank (1 = leader)\n"@ + "# TYPE madcap_rider_overall_rank gauge\n"@ + "# HELP madcap_rider_category_rank Rank within the rider's category\n"@ + "# TYPE madcap_rider_category_rank gauge\n"@ + "# HELP madcap_rider_battery_pct Tracker battery percentage\n"@, "# TYPE madcap_rider_battery_pct gauge\n"@);
    lemma_cl_step("# HELP madcap_event_total_km Advertised total course distance in km (parsed from info.distance)\n"@ + "# TYPE madcap_event_total_km gauge\n"@ + "# HELP madcap_event_cactus_km Virtual cactus pacer position in km (elapsed fraction of event time x total km)\n"@ + "# TYPE madcap_event_cactus_km gauge\n"@ + "# HELP madcap_event_participants Participant count in the event\n"@ + "# TYPE madcap_event_participants gauge\n"@ + "# HELP madcap_event_active Riders with any ping or REGISTERED/ACTIVE status\n"@ + "# TYPE madcap_event_active gauge\n"@ + "# HELP madcap_event_sleeping Riders currently flagged sleeping\n"@ + "# TYPE madcap_event_sleeping gauge\n"@ + "# HELP madcap_event_started Riders with non-zero distance\n"@ + "# TYPE madcap_event_started gauge\n"@ + "# HELP madcap_event_finished Riders within 0.5 km of the course total\n"@ + "# TYPE madcap_event_finished gauge\n"@ + "# HELP madcap_rider_distance_km Distance covered by the rider in km\n"@ + "# TYPE madcap_rider_distance_km gauge\n"@ + "# HELP madcap_rider_cactus_delta_km Rider distance minus the cactus pacer position in km (positive = ahead)\n"@ + "# TYPE madcap_rider_cactus_delta_km gauge\n"@ + "# HELP madcap_rider_speed_kmh Current reported speed in km/h\n"@ + "# TYPE madcap_rider_speed_kmh gauge\n"@ + "# HELP madcap_rider_overall_rank Overall rank (1 = leader)\n"@ + "# TYPE madcap_rider_overall_rank gauge\n"@ + "# HELP madcap_rider_category_rank Rank within the rider's category\n"@ + "# TYPE madcap_rider_category_rank gauge\n"@ + "# HELP madcap_rider_battery_pct Tracker battery percentage\n"@ + "# TYPE madcap_rider_battery_pct gauge\n"@, "# HELP madcap_rider_sleeping 1 if the rider is currently flagged sleeping, else 0\n"@);
    lemma_cl_step("# HELP madcap_event_total_km Advertised total course distance in km (parsed from info.distance)\n"@ + "# TYPE madcap_event_total_km gauge\n"@ + "# HELP madcap_event_cactus_km Virtual cactus pacer position in km (elapsed fraction of event time x total km)\n"@ + "# TYPE madcap_event_cactus_km gauge\n"@ + "# HELP madcap_event_participants Participant count in the event\n"@ + "# TYPE madcap_event_participants gauge\n"@ + "# HELP madcap_event_active Riders with any ping or REGISTERED/ACTIVE status\n"@ + "# TYPE madcap_event_active gauge\n"@ + "# HELP madcap_event_sleeping Riders currently flagged sleeping\n"@ + "# TYPE madcap_event_sleeping gauge\n"@ + "# HELP madcap_event_started Riders with non-zero distance\n"@ + "# TYPE madcap_event_started gauge\n"@ + "# HELP madcap_event_finished Riders within 0.5 km of the course total\n"@ + "# TYPE madcap_event_finished gauge\n"@ + "# HELP madcap_rider_distance_km Distance covered by the rider in km\n"@ + "# TYPE madcap_rider_distance_km gauge\n"@ + "# HELP madcap_rider_cactus_delta_km Rider distance minus the cactus pacer position in km (positive = ahead)\n"@ + "# TYPE madcap_rider_cactus_delta_km gauge\n"@ + "# HELP madcap_rider_speed_kmh Current reported speed in km/h\n"@ + "# TYPE madcap_rider_speed_kmh gauge\n"@ + "# HELP madcap_rider_overall_rank Overall rank (1 = leader)\n"@ + "# TYPE madcap_rider_overall_rank gauge\n"@ + "# HELP madcap_rider_category_rank Rank within the rider's category\n"@ + "# TYPE madcap_rider_category_rank gauge\n"@ + "# HELP madcap_rider_battery_pct Tracker battery percentage\n"@ + "# TYPE madcap_rider_battery_pct gauge\n"@ + "# HELP madcap_rider_sleeping 1 if the rider is currently flagged sleeping, else 0\n"@, "# TYPE madcap_rider_sleeping gauge\n"@);
    lemma_cl_step("# HELP madcap_event_total_km Advertised total course distance in km (parsed from info.distance)\n"@ + "# TYPE madcap_event_total_km gauge\n"@ + "# HELP madcap_event_cactus_km Virtual cactus pacer position in km (elapsed fraction of event time x total km)\n"@ + "# TYPE madcap_event_cactus_km gauge\n"@ + "# HELP madcap_event_participants Participant count in the event\n"@ + "# TYPE madcap_event_participants gauge\n"@ + "# HELP madcap_event_active Riders with any ping or REGISTERED/ACTIVE status\n"@ + "# TYPE madcap_event_active gauge\n"@ + "# HELP madcap_event_sleeping Riders currently flagged sleeping\n"@ + "# TYPE madcap_event_sleeping gauge\n"@ + "# HELP madcap_event_started Riders with non-zero distance\n"@ + "# TYPE madcap_event_started gauge\n"@ + "# HELP madcap_event_finished Riders within 0.5 km of the course total\n"@ + "# TYPE madcap_event_finished gauge\n"@ + "# HELP madcap_rider_distance_km Distance covered by the rider in km\n"@ + "# TYPE madcap_rider_distance_km gauge\n"@ + "# HELP madcap_rider_cactus_delta_km Rider distance minus the cactus pacer position in km (positive = ahead)\n"@ + "# TYPE madcap_rider_cactus_delta_km gauge\n"@ + "# HELP madcap_rider_speed_kmh Current reported speed in km/h\n"@ + "# TYPE madcap_rider_speed_kmh gauge\n"@ + "# HELP madcap_rider_overall_rank Overall rank (1 = leader)\n"@ + "# TYPE madcap_rider_overall_rank gauge\n"@ + "# HELP madcap_rider_category_rank Rank within the rider's category\n"@ + "# TYPE madcap_rider_category_rank gauge\n"@ + "# HELP madcap_rider_battery_pct Tracker battery percentage\n"@ + "# TYPE madcap_rider_battery_pct gauge\n"@ + "# HELP madcap_rider_sleeping 1 if the rider is currently flagged sleeping, else 0\n"@ + "# TYPE madcap_rider_sleeping gauge\n"@, "# HELP madcap_rider_distance_to_next_cp_km Straight-line distance to the next checkpoint\n"@);
    lemma_cl_step("# HELP madcap_event_total_km Advertised total course distance in km (parsed from info.distance)\n"@ + "# TYPE madcap_event_total_km gauge\n"@ + "# HELP madcap_event_cactus_km Virtual cactus pacer position in km (elapsed fraction of event time x total km)\n"@ + "# TYPE madcap_event_cactus_km gauge\n"@ + "# HELP madcap_event_participants Participant count in the event\n"@ + "# TYPE madcap_event_participants gauge\n"@ + "# HELP madcap_event_active Riders with any ping or REGISTERED/ACTIVE status\n"@ + "# TYPE madcap_event_active gauge\n"@ + "# HELP madcap_event_sleeping Riders currently flagged sleeping\n"@ + "# TYPE madcap_event_sleeping gauge\n"@ + "# HELP madcap_event_started Riders with non-zero distance\n"@ + "# TYPE madcap_event_started gauge\n"@ + "# HELP madcap_event_finished Riders within 0.5 km of the course total\n"@ + "# TYPE madcap_event_finished gauge\n"@ + "# HELP madcap_rider_distance_km Distance covered by the rider in km\n"@ + "# TYPE madcap_rider_distance_km gauge\n"@ + "# HELP madcap_rider_cactus_delta_km Rider distance minus the cactus pacer position in km (positive = ahead)\n"@ + "# TYPE madcap_rider_cactus_delta_km gauge\n"@ + "# HELP madcap_rider_speed_kmh Current reported speed in km/h\n"@ + "# TYPE madcap_rider_speed_kmh gauge\n"@ + "# HELP madcap_rider_overall_rank Overall rank (1 = leader)\n"@ + "# TYPE madcap_rider_overall_rank gauge\n"@ + "# HELP madcap_rider_category_rank Rank within the rider's category\n"@ + "# TYPE madcap_rider_category_rank gauge\n"@ + "# HELP madcap_rider_battery_pct Tracker battery percentage\n"@ + "# TYPE madcap_rider_battery_pct gauge\n"@ + "# HELP madcap_rider_sleeping 1 if the rider is currently flagged sleeping, else 0\n"@ + "# TYPE madcap_rider_sleeping gauge\n"@ + "# HELP madcap_rider_distance_to_next_cp_km Straight-line distance to the next checkpoint\n"@, "# TYPE madcap_rider_distance_to_next_cp_km gauge\n"@);
    assert(comment_lines(race_help()) =~= header_lines().subrange(14, 44));
}

proof fn lemma_header_line_distinct_0()
    ensures
        forall|j: int| 0 < j < 44 ==> header_lines()[0] != #[trigger] header_lines()[j],
{
    reveal_strlit("# HELP madcap_fast_requests_total Total API requests handled\n");
    reveal_strlit("# TYPE madcap_fast_requests_total counter\n");
    assert("# HELP madcap_fast_requests_total Total API requests handled\n"@[2] != "# TYPE madcap_fast_requests_total counter\n"@[2]);
    reveal_strlit("# HELP madcap_fast_responses_not_modified_total Total 304 responses\n");
    assert("# HELP madcap_fast_requests_total Total API requests handled\n"@[21] != "# HELP madcap_fast_responses_not_modified_total Total 304 responses\n"@[21]);
    reveal_strlit("# TYPE madcap_fast_responses_not_modified_total counter\n");
    assert("# HELP madcap_fast_requests_total Total API requests handled\n"@[2] != "# TYPE madcap_fast_responses_not_modified_total counter\n"@[2]);
    reveal_strlit("# HELP madcap_fast_upstream_refreshes_total Successful upstream refreshes\n");
    assert("# HELP madcap_fast_requests_total Total API requests handled\n"@[19] != "# HELP madcap_fast_upstream_refreshes_total Successful upstream refreshes\n"@[19]);
    reveal_strlit("# TYPE madcap_fast_upstream_refreshes_total counter\n");
    assert("# HELP madcap_fast_requests_total Total API requests handled\n"@[2] != "# TYPE madcap_fast_upstream_refreshes_total counter\n"@[2]);
    reveal_strlit("# HELP madcap_fast_upstream_errors_total Upstream refresh failures\n");
    assert("# HELP madcap_fast_requests_total Total API requests handled\n"@[19] != "# HELP madcap_fast_upstream_errors_total Upstream refresh failures\n"@[19]);
    reveal_strlit("# TYPE madcap_fast_upstream_errors_total counter\n");
    assert("# HELP madcap_fast_requests_total Total API requests handled\n"@[2] != "# TYPE madcap_fast_upstream_errors_total counter\n"@[2]);
    reveal_strlit("# HELP madcap_fast_cache_age_seconds Age of the cached snapshot per slug\n");
    assert("# HELP madcap_fast_requests_total Total API requests handled\n"@[19] != "# HELP madcap_fast_cache_age_seconds Age of the cached snapshot per slug\n"@[19]);
    reveal_strlit("# TYPE madcap_fast_cache_age_seconds gauge\n");
    assert("# HELP madcap_fast_requests_total Total API requests handled\n"@[2] != "# TYPE madcap_fast_cache_age_seconds gauge\n"@[2]);
    reveal_strlit("# HELP madcap_fast_cache_body_bytes Raw JSON body size per cached slug\n");
    assert("# HELP madcap_fast_requests_total Total API requests handled\n"@[19] != "# HELP madcap_fast_cache_body_bytes Raw JSON body size per cached slug\n"@[19]);
    reveal_strlit("# TYPE madcap_fast_cache_body_bytes gauge\n");
    assert("# HELP madcap_fast_requests_total Total API requests handled\n"@[2] != "# TYPE madcap_fast_cache_body_bytes gauge\n"@[2]);
    reveal_strlit("# HELP madcap_fast_upstream_last_ms Last upstream refresh duration per slug\n");
    assert("# HELP madcap_fast_requests_total Total API requests handled\n"@[19] != "# HELP madcap_fast_upstream_last_ms Last upstream refresh duration per slug\n"@[19]);
    reveal_strlit("# TYPE madcap_fast_upstream_last_ms gauge\n");
    assert("# HELP madcap_fast_requests_total Total API requests handled\n"@[2] != "# TYPE madcap_fast_upstream_last_ms gauge\n"@[2]);
    reveal_strlit("# HELP madcap_event_total_km Advertised total course distance in km (parsed from info.distance)\n");
    assert("# HELP madcap_fast_requests_total Total API requests handled\n"@[14] != "# HELP madcap_event_total_km Advertised total course distance in km (parsed from info.distance)\n"@[14]);
    reveal_strlit("# TYPE madcap_event_total_km gauge\n");
    assert("# HELP madcap_fast_requests_total Total API requests handled\n"@[2] != "# TYPE madcap_event_total_km gauge\n"@[2]);
    reveal_strlit("# HELP madcap_event_cactus_km Virtual cactus pacer position in km (elapsed fraction of event time x total km)\n");
    assert("# HELP madcap_fast_requests_total Total API requests handled\n"@[14] != "# HELP madcap_event_cactus_km Virtual cactus pacer position in km (elapsed fraction of event time x total km)\n"@[14]);
    reveal_strlit("# TYPE madcap_event_cactus_km gauge\n");
    assert("# HELP madcap_fast_requests_total Total API requests handled\n"@[2] != "# TYPE madcap_event_cactus_km gauge\n"@[2]);
    reveal_strlit("# HELP madcap_event_participants Participant count in the event\n");
    assert("# HELP madcap_fast_requests_total Total API requests handled\n"@[14] != "# HELP madcap_event_participants Participant count in the event\n"@[14]);
    reveal_strlit("# TYPE madcap_event_participants gauge\n");
    assert("# HELP madcap_fast_requests_total Total API requests handled\n"@[2] != "# TYPE madcap_event_participants gauge\n"@[2]);
    reveal_strlit("# HELP madcap_event_active Riders with any ping or REGISTERED/ACTIVE status\n");
    assert("# HELP madcap_fast_requests_total Total API requests handled\n"@[14] != "# HELP madcap_event_active Riders with any ping or REGISTERED/ACTIVE status\n"@[14]);
    reveal_strlit("# TYPE madcap_event_active gauge\n");
    assert("# HELP madcap_fast_requests_total Total API requests handled\n"@[2] != "# TYPE madcap_event_active gauge\n"@[2]);
    reveal_strlit("# HELP madcap_event_sleeping Riders currently flagged sleeping\n");
    assert("# HELP madcap_fast_requests_total Total API requests handled\n"@[14] != "# HELP madcap_event_sleeping Riders currently flagged sleeping\n"@[14]);
    reveal_strlit("# TYPE madcap_event_sleeping gauge\n");
    assert("# HELP madcap_fast_requests_total Total API requests handled\n"@[2] != "# TYPE madcap_event_sleeping gauge\n"@[2]);
    reveal_strlit("# HELP madcap_event_started Riders with non-zero distance\n");
    assert("# HELP madcap_fast_requests_total Total API requests handled\n"@[14] != "# HELP madcap_event_started Riders with non-zero distance\n"@[14]);
    reveal_strlit("# TYPE madcap_event_started gauge\n");
    assert("# HELP madcap_fast_requests_total Total API requests handled\n"@[2] != "# TYPE madcap_event_started gauge\n"@[2]);
    reveal_strlit("# HELP madcap_event_finished Riders within 0.5 km of the course total\n");
    assert("# HELP madcap_fast_requests_total Total API requests handled\n"@[14] != "# HELP madcap_event_finished Riders within 0.5 km of the course total\n"@[14]);
    reveal_strlit("# TYPE madcap_event_finished gauge\n");
    assert("# HELP madcap_fast_requests_total Total API requests handled\n"@[2] != "# TYPE madcap_event_finished gauge\n"@[2]);
    reveal_strlit("# HELP madcap_rider_distance_km Distance covered by the rider in km\n");
    assert("# HELP madcap_fast_requests_total Total API requests handled\n"@[14] != "# HELP madcap_rider_distance_km Distance covered by the rider in km\n"@[14]);
    reveal_strlit("# TYPE madcap_rider_distance_km gauge\n");
    assert("# HELP madcap_fast_requests_total Total API requests handled\n"@[2] != "# TYPE madcap_rider_distance_km gauge\n"@[2]);
    reveal_strlit("# HELP madcap_rider_cactus_delta_km Rider distance minus the cactus pacer position in km (positive = ahead)\n");
    assert("# HELP madcap_fast_requests_total Total API requests handled\n"@[14] != "# HELP madcap_rider_cactus_delta_km Rider distance minus the cactus pacer position in km (positive = ahead)\n"@[14]);
    reveal_strlit("# TYPE madcap_rider_cactus_delta_km gauge\n");
    assert("# HELP madcap_fast_requests_total Total API requests handled\n"@[2] != "# TYPE madcap_rider_cactus_delta_km gauge\n"@[2]);
    reveal_strlit("# HELP madcap_rider_speed_kmh Current reported speed in km/h\n");
    assert("# HELP madcap_fast_requests_total Total API requests handled\n"@[14] != "# HELP madcap_rider_speed_kmh Current reported speed in km/h\n"@[14]);
    reveal_strlit("# TYPE madcap_rider_speed_kmh gauge\n");
    assert("# HELP madcap_fast_requests_total Total API requests handled\n"@[2] != "# TYPE madcap_rider_speed_kmh gauge\n"@[2]);
    reveal_strlit("# HELP madcap_rider_overall_rank Overall rank (1 = leader)\n");
    assert("# HELP madcap_fast_requests_total Total API requests handled\n"@[14] != "# HELP madcap_rider_overall_rank Overall rank (1 = leader)\n"@[14]);
    reveal_strlit("# TYPE madcap_rider_overall_rank gauge\n");
    assert("# HELP madcap_fast_requests_total Total API requests handled\n"@[2] != "# TYPE madcap_rider_overall_rank gauge\n"@[2]);
    reveal_strlit("# HELP madcap_rider_category_rank Rank within the rider's category\n");
    assert("# HELP madcap_fast_requests_total Total API requests handled\n"@[14] != "# HELP madcap_rider_category_rank Rank within the rider's category\n"@[14]);
    reveal_strlit("# TYPE madcap_rider_category_rank gauge\n");
    assert("# HELP madcap_fast_requests_total Total API requests handled\n"@[2] != "# TYPE madcap_rider_category_rank gauge\n"@[2]);
    reveal_strlit("# HELP madcap_rider_battery_pct Tracker battery percentage\n");
    assert("# HELP madcap_fast_requests_total Total API requests handled\n"@[14] != "# HELP madcap_rider_battery_pct Tracker battery percentage\n"@[14]);
    reveal_strlit("# TYPE madcap_rider_battery_pct gauge\n");
    assert("# HELP madcap_fast_requests_total Total API requests handled\n"@[2] != "# TYPE madcap_rider_battery_pct gauge\n"@[2]);
    reveal_strlit("# HELP madcap_rider_sleeping 1 if the rider is currently flagged sleeping, else 0\n");
    assert("# HELP madcap_fast_requests_total Total API requests handled\n"@[14] != "# HELP madcap_rider_sleeping 1 if the rider is currently flagged sleeping, else 0\n"@[14]);
    reveal_strlit("# TYPE madcap_rider_sleeping gauge\n");
    assert("# HELP madcap_fast_requests_total Total API requests handled\n"@[2] != "# TYPE madcap_rider_sleeping gauge\n"@[2]);
    reveal_strlit("# HELP madcap_rider_distance_to_next_cp_km Straight-line distance to the next checkpoint\n");
    assert("# HELP madcap_fast_requests_total Total API requests handled\n"@[14] != "# HELP madcap_rider_distance_to_next_cp_km Straight-line distance to the next checkpoint\n"@[14]);
    reveal_strlit("# TYPE madcap_rider_distance_to_next_cp_km gauge\n");
    assert("# HELP madcap_fast_requests_total Total API requests handled\n"@[2] != "# TYPE madcap_rider_distance_to_next_cp_km gauge\n"@[2]);
    assert forall|j: int| 0 < j < 44 implies header_lines()[0] != #[trigger] header_lines()[j] by {
    }
}

proof fn lemma_header_line_distinct_1()
    ensures
        forall|j: int| 1 < j < 44 ==> header_lines()[1] != #[trigger] header_lines()[j],
{
    reveal_strlit("# TYPE madcap_fast_requests_total counter\n");
    reveal_strlit("# HELP madcap_fast_responses_not_modified_total Total 304 responses\n");
    assert("# TYPE madcap_fast_requests_total counter\n"@[2] != "# HELP madcap_fast_responses_not_modified_total Total 304 responses\n"@[2]);
    reveal_strlit("# TYPE madcap_fast_responses_not_modified_total counter\n");
    assert("# TYPE madcap_fast_requests_total counter\n"@[21] != "# TYPE madcap_fast_responses_not_modified_total counter\n"@[21]);
    reveal_strlit("# HELP madcap_fast_upstream_refreshes_total Successful upstream refreshes\n");
    assert("# TYPE madcap_fast_requests_total counter\n"@[2] != "# HELP madcap_fast_upstream_refreshes_total Successful upstream refreshes\n"@[2]);
    reveal_strlit("# TYPE madcap_fast_upstream_refreshes_total counter\n");
    assert("# TYPE madcap_fast_requests_total counter\n"@[19] != "# TYPE madcap_fast_upstream_refreshes_total counter\n"@[19]);
    reveal_strlit("# HELP madcap_fast_upstream_errors_total Upstream refresh failures\n");
    assert("# TYPE madcap_fast_requests_total counter\n"@[2] != "# HELP madcap_fast_upstream_errors_total Upstream refresh failures\n"@[2]);
    reveal_strlit("# TYPE madcap_fast_upstream_errors_total counter\n");
    assert("# TYPE madcap_fast_requests_total counter\n"@[19] != "# TYPE madcap_fast_upstream_errors_total counter\n"@[19]);
    reveal_strlit("# HELP madcap_fast_cache_age_seconds Age of the cached snapshot per slug\n");
    assert("# TYPE madcap_fast_requests_total counter\n"@[2] != "# HELP madcap_fast_cache_age_seconds Age of the cached snapshot per slug\n"@[2]);
    reveal_strlit("# TYPE madcap_fast_cache_age_seconds gauge\n");
    assert("# TYPE madcap_fast_requests_total counter\n"@[19] != "# TYPE madcap_fast_cache_age_seconds gauge\n"@[19]);
    reveal_strlit("# HELP madcap_fast_cache_body_bytes Raw JSON body size per cached slug\n");
    assert("# TYPE madcap_fast_requests_total counter\n"@[2] != "# HELP madcap_fast_cache_body_bytes Raw JSON body size per cached slug\n"@[2]);
    reveal_strlit("# TYPE madcap_fast_cache_body_bytes gauge\n");
    assert("# TYPE madcap_fast_requests_total counter\n"@[19] != "# TYPE madcap_fast_cache_body_bytes gauge\n"@[19]);
    reveal_strlit("# HELP madcap_fast_upstream_last_ms Last upstream refresh duration per slug\n");
    assert("# TYPE madcap_fast_requests_total counter\n"@[2] != "# HELP madcap_fast_upstream_last_ms Last upstream refresh duration per slug\n"@[2]);
    reveal_strlit("# TYPE madcap_fast_upstream_last_ms gauge\n");
    assert("# TYPE madcap_fast_requests_total counter\n"@[19] != "# TYPE madcap_fast_upstream_last_ms gauge\n"@[19]);
    reveal_strlit("# HELP madcap_event_total_km Advertised total course distance in km (parsed from info.distance)\n");
    assert("# TYPE madcap_fast_requests_total counter\n"@[2] != "# HELP madcap_event_total_km Advertised total course distance in km (parsed from info.distance)\n"@[2]);
    reveal_strlit("# TYPE madcap_event_total_km gauge\n");
    assert("# TYPE madcap_fast_requests_total counter\n"@[14] != "# TYPE madcap_event_total_km gauge\n"@[14]);
    reveal_strlit("# HELP madcap_event_cactus_km Virtual cactus pacer position in km (elapsed fraction of event time x total km)\n");
    assert("# TYPE madcap_fast_requests_total counter\n"@[2] != "# HELP madcap_event_cactus_km Virtual cactus pacer position in km (elapsed fraction of event time x total km)\n"@[2]);
    reveal_strlit("# TYPE madcap_event_cactus_km gauge\n");
    assert("# TYPE madcap_fast_requests_total counter\n"@[14] != "# TYPE madcap_event_cactus_km gauge\n"@[14]);
    reveal_strlit("# HELP madcap_event_participants Participant count in the event\n");
    assert("# TYPE madcap_fast_requests_total counter\n"@[2] != "# HELP madcap_event_participants Participant count in the event\n"@[2]);
    reveal_strlit("# TYPE madcap_event_participants gauge\n");
    assert("# TYPE madcap_fast_requests_total counter\n"@[14] != "# TYPE madcap_event_participants gauge\n"@[14]);
    reveal_strlit("# HELP madcap_event_active Riders with any ping or REGISTERED/ACTIVE status\n");
    assert("# TYPE madcap_fast_requests_total counter\n"@[2] != "# HELP madcap_event_active Riders with any ping or REGISTERED/ACTIVE status\n"@[2]);
    reveal_strlit("# TYPE madcap_event_active gauge\n");
    assert("# TYPE madcap_fast_requests_total counter\n"@[14] != "# TYPE madcap_event_active gauge\n"@[14]);
    reveal_strlit("# HELP madcap_event_sleeping Riders currently flagged sleeping\n");
    assert("# TYPE madcap_fast_requests_total counter\n"@[2] != "# HELP madcap_event_sleeping Riders currently flagged sleeping\n"@[2]);
    reveal_strlit("# TYPE madcap_event_sleeping gauge\n");
    assert("# TYPE madcap_fast_requests_total counter\n"@[14] != "# TYPE madcap_event_sleeping gauge\n"@[14]);
    reveal_strlit("# HELP madcap_event_started Riders with non-zero distance\n");
    assert("# TYPE madcap_fast_requests_total counter\n"@[2] != "# HELP madcap_event_started Riders with non-zero distance\n"@[2]);
    reveal_strlit("# TYPE madcap_event_started gauge\n");
    assert("# TYPE madcap_fast_requests_total counter\n"@[14] != "# TYPE madcap_event_started gauge\n"@[14]);
    reveal_strlit("# HELP madcap_event_finished Riders within 0.5 km of the course total\n");
    assert("# TYPE madcap_fast_requests_total counter\n"@[2] != "# HELP madcap_event_finished Riders within 0.5 km of the course total\n"@[2]);
    reveal_strlit("# TYPE madcap_event_finished gauge\n");
    assert("# TYPE madcap_fast_requests_total counter\n"@[14] != "# TYPE madcap_event_finished gauge\n"@[14]);
    reveal_strlit("# HELP madcap_rider_distance_km Distance covered by the rider in km\n");
    assert("# TYPE madcap_fast_requests_total counter\n"@[2] != "# HELP madcap_rider_distance_km Distance covered by the rider in km\n"@[2]);
    reveal_strlit("# TYPE madcap_rider_distance_km gauge\n");
    assert("# TYPE madcap_fast_requests_total counter\n"@[14] != "# TYPE madcap_rider_distance_km gauge\n"@[14]);
    reveal_strlit("# HELP madcap_rider_cactus_delta_km Rider distance minus the cactus pacer position in km (positive = ahead)\n");
    assert("# TYPE madcap_fast_requests_total counter\n"@[2] != "# HELP madcap_rider_cactus_delta_km Rider distance minus the cactus pacer position in km (positive = ahead)\n"@[2]);
    reveal_strlit("# TYPE madcap_rider_cactus_delta_km gauge\n");
    assert("# TYPE madcap_fast_requests_total counter\n"@[14] != "# TYPE madcap_rider_cactus_delta_km gauge\n"@[14]);
    reveal_strlit("# HELP madcap_rider_speed_kmh Current reported speed in km/h\n");
    assert("# TYPE madcap_fast_requests_total counter\n"@[2] != "# HELP madcap_rider_speed_kmh Current reported speed in km/h\n"@[2]);
    reveal_strlit("# TYPE madcap_rider_speed_kmh gauge\n");
    assert("# TYPE madcap_fast_requests_total counter\n"@[14] != "# TYPE madcap_rider_speed_kmh gauge\n"@[14]);
    reveal_strlit("# HELP madcap_rider_overall_rank Overall rank (1 = leader)\n");
    assert("# TYPE madcap_fast_requests_total counter\n"@[2] != "# HELP madcap_rider_overall_rank Overall rank (1 = leader)\n"@[2]);
    reveal_strlit("# TYPE madcap_rider_overall_rank gauge\n");
    assert("# TYPE madcap_fast_requests_total counter\n"@[14] != "# TYPE madcap_rider_overall_rank gauge\n"@[14]);
    reveal_strlit("# HELP madcap_rider_category_rank Rank within the rider's category\n");
    assert("# TYPE madcap_fast_requests_total counter\n"@[2] != "# HELP madcap_rider_category_rank Rank within the rider's category\n"@[2]);
    reveal_strlit("# TYPE madcap_rider_category_rank gauge\n");
    assert("# TYPE madcap_fast_requests_total counter\n"@[14] != "# TYPE madcap_rider_category_rank gauge\n"@[14]);
    reveal_strlit("# HELP madcap_rider_battery_pct Tracker battery percentage\n");
    assert("# TYPE madcap_fast_requests_total counter\n"@[2] != "# HELP madcap_rider_battery_pct Tracker battery percentage\n"@[2]);
    reveal_strlit("# TYPE madcap_rider_battery_pct gauge\n");
    assert("# TYPE madcap_fast_requests_total counter\n"@[14] != "# TYPE madcap_rider_battery_pct gauge\n"@[14]);
    reveal_strlit("# HELP madcap_rider_sleeping 1 if the rider is currently flagged sleeping, else 0\n");
    assert("# TYPE madcap_fast_requests_total counter\n"@[2] != "# HELP madcap_rider_sleeping 1 if the rider is currently flagged sleeping, else 0\n"@[2]);
    reveal_strlit("# TYPE madcap_rider_sleeping gauge\n");
    assert("# TYPE madcap_fast_requests_total counter\n"@[14] != "# TYPE madcap_rider_sleeping gauge\n"@[14]);
    reveal_strlit("# HELP madcap_rider_distance_to_next_cp_km Straight-line distance to the next checkpoint\n");
    assert("# TYPE madcap_fast_requests_total counter\n"@[2] != "# HELP madcap_rider_distance_to_next_cp_km Straight-line distance to the next checkpoint\n"@[2]);
    reveal_strlit("# TYPE madcap_rider_distance_to_next_cp_km gauge\n");
    assert("# TYPE madcap_fast_requests_total counter\n"@[14] != "# TYPE madcap_rider_distance_to_next_cp_km gauge\n"@[14]);
    assert forall|j: int| 1 < j < 44 implies header_lines()[1] != #[trigger] header_lines()[j] by {
    }
}

proof fn lemma_header_line_distinct_2()
    ensures
        forall|j: int| 2 < j < 44 ==> header_lines()[2] != #[trigger] header_lines()[j],
{
    reveal_strlit("# HELP madcap_fast_responses_not_modified_total Total 304 responses\n");
    reveal_strlit("# TYPE madcap_fast_responses_not_modified_total counter\n");
    assert("# HELP madcap_fast_responses_not_modified_total Total 304 responses\n"@[2] != "# TYPE madcap_fast_responses_not_modified_total counter\n"@[2]);
    reveal_strlit("# HELP madcap_fast_upstream_refreshes_total Successful upstream refreshes\n");
    assert("# HELP madcap_fast_responses_not_modified_total Total 304 responses\n"@[19] != "# HELP madcap_fast_upstream_refreshes_total Successful upstream refreshes\n"@[19]);
    reveal_strlit("# TYPE madcap_fast_upstream_refreshes_total counter\n");
    assert("# HELP madcap_fast_responses_not_modified_total Total 304 responses\n"@[2] != "# TYPE madcap_fast_upstream_refreshes_total counter\n"@[2]);
    reveal_strlit("# HELP madcap_fast_upstream_errors_total Upstream refresh failures\n");
    assert("# HELP madcap_fast_responses_not_modified_total Total 304 responses\n"@[19] != "# HELP madcap_fast_upstream_errors_total Upstream refresh failures\n"@[19]);
    reveal_strlit("# TYPE madcap_fast_upstream_errors_total counter\n");
    assert("# HELP madcap_fast_responses_not_modified_total Total 304 responses\n"@[2] != "# TYPE madcap_fast_upstream_errors_total counter\n"@[2]);
    reveal_strlit("# HELP madcap_fast_cache_age_seconds Age of the cached snapshot per slug\n");
    assert("# HELP madcap_fast_responses_not_modified_total Total 304 responses\n"@[19] != "# HELP madcap_fast_cache_age_seconds Age of the cached snapshot per slug\n"@[19]);
    reveal_strlit("# TYPE madcap_fast_cache_age_seconds gauge\n");
    assert("# HELP madcap_fast_responses_not_modified_total Total 304 responses\n"@[2] != "# TYPE madcap_fast_cache_age_seconds gauge\n"@[2]);
    reveal_strlit("# HELP madcap_fast_cache_body_bytes Raw JSON body size per cached slug\n");
    assert("# HELP madcap_fast_responses_not_modified_total Total 304 responses\n"@[19] != "# HELP madcap_fast_cache_body_bytes Raw JSON body size per cached slug\n"@[19]);
    reveal_strlit("# TYPE madcap_fast_cache_body_bytes gauge\n");
    assert("# HELP madcap_fast_responses_not_modified_total Total 304 responses\n"@[2] != "# TYPE madcap_fast_cache_body_bytes gauge\n"@[2]);
    reveal_strlit("# HELP madcap_fast_upstream_last_ms Last upstream refresh duration per slug\n");
    assert("# HELP madcap_fast_responses_not_modified_total Total 304 responses\n"@[19] != "# HELP madcap_fast_upstream_last_ms Last upstream refresh duration per slug\n"@[19]);
    reveal_strlit("# TYPE madcap_fast_upstream_last_ms gauge\n");
    assert("# HELP madcap_fast_responses_not_modified_total Total 304 responses\n"@[2] != "# TYPE madcap_fast_upstream_last_ms gauge\n"@[2]);
    reveal_strlit("# HELP madcap_event_total_km Advertised total course distance in km (parsed from info.distance)\n");
    assert("# HELP madcap_fast_responses_not_modified_total Total 304 responses\n"@[14] != "# HELP madcap_event_total_km Advertised total course distance in km (parsed from info.distance)\n"@[14]);
    reveal_strlit("# TYPE madcap_event_total_km gauge\n");
    assert("# HELP madcap_fast_responses_not_modified_total Total 304 responses\n"@[2] != "# TYPE madcap_event_total_km gauge\n"@[2]);
    reveal_strlit("# HELP madcap_event_cactus_km Virtual cactus pacer position in km (elapsed fraction of event time x total km)\n");
    assert("# HELP madcap_fast_responses_not_modified_total Total 304 responses\n"@[14] != "# HELP madcap_event_cactus_km Virtual cactus pacer position in km (elapsed fraction of event time x total km)\n"@[14]);
    reveal_strlit("# TYPE madcap_event_cactus_km gauge\n");
    assert("# HELP madcap_fast_responses_not_modified_total Total 304 responses\n"@[2] != "# TYPE madcap_event_cactus_km gauge\n"@[2]);
    reveal_strlit("# HELP madcap_event_participants Participant count in the event\n");
    assert("# HELP madcap_fast_responses_not_modified_total Total 304 responses\n"@[14] != "# HELP madcap_event_participants Participant count in the event\n"@[14]);
    reveal_strlit("# TYPE madcap_event_participants gauge\n");
    assert("# HELP madcap_fast_responses_not_modified_total Total 304 responses\n"@[2] != "# TYPE madcap_event_participants gauge\n"@[2]);
    reveal_strlit("# HELP madcap_event_active Riders with any ping or REGISTERED/ACTIVE status\n");
    assert("# HELP madcap_fast_responses_not_modified_total Total 304 responses\n"@[14] != "# HELP madcap_event_active Riders with any ping or REGISTERED/ACTIVE status\n"@[14]);
    reveal_strlit("# TYPE madcap_event_active gauge\n");
    assert("# HELP madcap_fast_responses_not_modified_total Total 304 responses\n"@[2] != "# TYPE madcap_event_active gauge\n"@[2]);
    reveal_strlit("# HELP madcap_event_sleeping Riders currently flagged sleeping\n");
    assert("# HELP madcap_fast_responses_not_modified_total Total 304 responses\n"@[14] != "# HELP madcap_event_sleeping Riders currently flagged sleeping\n"@[14]);
    reveal_strlit("# TYPE madcap_event_sleeping gauge\n");
    assert("# HELP madcap_fast_responses_not_modified_total Total 304 responses\n"@[2] != "# TYPE madcap_event_sleeping gauge\n"@[2]);
    reveal_strlit("# HELP madcap_event_started Riders with non-zero distance\n");
    assert("# HELP madcap_fast_responses_not_modified_total Total 304 responses\n"@[14] != "# HELP madcap_event_started Riders with non-zero distance\n"@[14]);
    reveal_strlit("# TYPE madcap_event_started gauge\n");
    assert("# HELP madcap_fast_responses_not_modified_total Total 304 responses\n"@[2] != "# TYPE madcap_event_started gauge\n"@[2]);
    reveal_strlit("# HELP madcap_event_finished Riders within 0.5 km of the course total\n");
    assert("# HELP madcap_fast_responses_not_modified_total Total 304 responses\n"@[14] != "# HELP madcap_event_finished Riders within 0.5 km of the course total\n"@[14]);
    reveal_strlit("# TYPE madcap_event_finished gauge\n");
    assert("# HELP madcap_fast_responses_not_modified_total Total 304 responses\n"@[2] != "# TYPE madcap_event_finished gauge\n"@[2]);
    reveal_strlit("# HELP madcap_rider_distance_km Distance covered by the rider in km\n");
    assert("# HELP madcap_fast_responses_not_modified_total Total 304 responses\n"@[14] != "# HELP madcap_rider_distance_km Distance covered by the rider in km\n"@[14]);
    reveal_strlit("# TYPE madcap_rider_distance_km gauge\n");
    assert("# HELP madcap_fast_responses_not_modified_total Total 304 responses\n"@[2] != "# TYPE madcap_rider_distance_km gauge\n"@[2]);
    reveal_strlit("# HELP madcap_rider_cactus_delta_km Rider distance minus the cactus pacer position in km (positive = ahead)\n");
    assert("# HELP madcap_fast_responses_not_modified_total Total 304 responses\n"@[14] != "# HELP madcap_rider_cactus_delta_km Rider distance minus the cactus pacer position in km (positive = ahead)\n"@[14]);
    reveal_strlit("# TYPE madcap_rider_cactus_delta_km gauge\n");
    assert("# HELP madcap_fast_responses_not_modified_total Total 304 responses\n"@[2] != "# TYPE madcap_rider_cactus_delta_km gauge\n"@[2]);
    reveal_strlit("# HELP madcap_rider_speed_kmh Current reported speed in km/h\n");
    assert("# HELP madcap_fast_responses_not_modified_total Total 304 responses\n"@[14] != "# HELP madcap_rider_speed_kmh Current reported speed in km/h\n"@[14]);
    reveal_strlit("# TYPE madcap_rider_speed_kmh gauge\n");
    assert("# HELP madcap_fast_responses_not_modified_total Total 304 responses\n"@[2] != "# TYPE madcap_rider_speed_kmh gauge\n"@[2]);
    reveal_strlit("# HELP madcap_rider_overall_rank Overall rank (1 = leader)\n");
    assert("# HELP madcap_fast_responses_not_modified_total Total 304 responses\n"@[14] != "# HELP madcap_rider_overall_rank Overall rank (1 = leader)\n"@[14]);
    reveal_strlit("# TYPE madcap_rider_overall_rank gauge\n");
    assert("# HELP madcap_fast_responses_not_modified_total Total 304 responses\n"@[2] != "# TYPE madcap_rider_overall_rank gauge\n"@[2]);
    reveal_strlit("# HELP madcap_rider_category_rank Rank within the rider's category\n");
    assert("# HELP madcap_fast_responses_not_modified_total Total 304 responses\n"@[14] != "# HELP madcap_rider_category_rank Rank within the rider's category\n"@[14]);
    reveal_strlit("# TYPE madcap_rider_category_rank gauge\n");
    assert("# HELP madcap_fast_responses_not_modified_total Total 304 responses\n"@[2] != "# TYPE madcap_rider_category_rank gauge\n"@[2]);
    reveal_strlit("# HELP madcap_rider_battery_pct Tracker battery percentage\n");
    assert("# HELP madcap_fast_responses_not_modified_total Total 304 responses\n"@[14] != "# HELP madcap_rider_battery_pct Tracker battery percentage\n"@[14]);
    reveal_strlit("# TYPE madcap_rider_battery_pct gauge\n");
    assert("# HELP madcap_fast_responses_not_modified_total Total 304 responses\n"@[2] != "# TYPE madcap_rider_battery_pct gauge\n"@[2]);
    reveal_strlit("# HELP madcap_rider_sleeping 1 if the rider is currently flagged sleeping, else 0\n");
    assert("# HELP madcap_fast_responses_not_modified_total Total 304 responses\n"@[14] != "# HELP madcap_rider_sleeping 1 if the rider is currently flagged sleeping, else 0\n"@[14]);
    reveal_strlit("# TYPE madcap_rider_sleeping gauge\n");
    assert("# HELP madcap_fast_responses_not_modified_total Total 304 responses\n"@[2] != "# TYPE madcap_rider_sleeping gauge\n"@[2]);
    reveal_strlit("# HELP madcap_rider_distance_to_next_cp_km Straight-line distance to the next checkpoint\n");
    assert("# HELP madcap_fast_responses_not_modified_total Total 304 responses\n"@[14] != "# HELP madcap_rider_distance_to_next_cp_km Straight-line distance to the next checkpoint\n"@[14]);
    reveal_strlit("# TYPE madcap_rider_distance_to_next_cp_km gauge\n");
    assert("# HELP madcap_fast_responses_not_modified_total Total 304 responses\n"@[2] != "# TYPE madcap_rider_distance_to_next_cp_km gauge\n"@[2]);
    assert forall|j: int| 2 < j < 44 implies header_lines()[2] != #[trigger] header_lines()[j] by {
    }
}

proof fn lemma_header_line_distinct_3()
    ensures
        forall|j: int| 3 < j < 44 ==> header_lines()[3] != #[trigger] header_lines()[j],
{
    reveal_strlit("# TYPE madcap_fast_responses_not_modified_total counter\n");
    reveal_strlit("# HELP madcap_fast_upstream_refreshes_total Successful upstream refreshes\n");
    assert("# TYPE madcap_fast_responses_not_modified_total counter\n"@[2] != "# HELP madcap_fast_upstream_refreshes_total Successful upstream refreshes\n"@[2]);
    reveal_strlit("# TYPE madcap_fast_upstream_refreshes_total counter\n");
    assert("# TYPE madcap_fast_responses_not_modified_total counter\n"@[19] != "# TYPE madcap_fast_upstream_refreshes_total counter\n"@[19]);
    reveal_strlit("# HELP madcap_fast_upstream_errors_total Upstream refresh failures\n");
    assert("# TYPE madcap_fast_responses_not_modified_total counter\n"@[2] != "# HELP madcap_fast_upstream_errors_total Upstream refresh failures\n"@[2]);
    reveal_strlit("# TYPE madcap_fast_upstream_errors_total counter\n");
    assert("# TYPE madcap_fast_responses_not_modified_total counter\n"@[19] != "# TYPE madcap_fast_upstream_errors_total counter\n"@[19]);
    reveal_strlit("# HELP madcap_fast_cache_age_seconds Age of the cached snapshot per slug\n");
    assert("# TYPE madcap_fast_responses_not_modified_total counter\n"@[2] != "# HELP madcap_fast_cache_age_seconds Age of the cached snapshot per slug\n"@[2]);
    reveal_strlit("# TYPE madcap_fast_cache_age_seconds gauge\n");
    assert("# TYPE madcap_fast_responses_not_modified_total counter\n"@[19] != "# TYPE madcap_fast_cache_age_seconds gauge\n"@[19]);
    reveal_strlit("# HELP madcap_fast_cache_body_bytes Raw JSON body size per cached slug\n");
    assert("# TYPE madcap_fast_responses_not_modified_total counter\n"@[2] != "# HELP madcap_fast_cache_body_bytes Raw JSON body size per cached slug\n"@[2]);
    reveal_strlit("# TYPE madcap_fast_cache_body_bytes gauge\n");
    assert("# TYPE madcap_fast_responses_not_modified_total counter\n"@[19] != "# TYPE madcap_fast_cache_body_bytes gauge\n"@[19]);
    reveal_strlit("# HELP madcap_fast_upstream_last_ms Last upstream refresh duration per slug\n");
    assert("# TYPE madcap_fast_responses_not_modified_total counter\n"@[2] != "# HELP madcap_fast_upstream_last_ms Last upstream refresh duration per slug\n"@[2]);
    reveal_strlit("# TYPE madcap_fast_upstream_last_ms gauge\n");
    assert("# TYPE madcap_fast_responses_not_modified_total counter\n"@[19] != "# TYPE madcap_fast_upstream_last_ms gauge\n"@[19]);
    reveal_strlit("# HELP madcap_event_total_km Advertised total course distance in km (parsed from info.distance)\n");
    assert("# TYPE madcap_fast_responses_not_modified_total counter\n"@[2] != "# HELP madcap_event_total_km Advertised total course distance in km (parsed from info.distance)\n"@[2]);
    reveal_strlit("# TYPE madcap_event_total_km gauge\n");
    assert("# TYPE madcap_fast_responses_not_modified_total counter\n"@[14] != "# TYPE madcap_event_total_km gauge\n"@[14]);
    reveal_strlit("# HELP madcap_event_cactus_km Virtual cactus pacer position in km (elapsed fraction of event time x total km)\n");
    assert("# TYPE madcap_fast_responses_not_modified_total counter\n"@[2] != "# HELP madcap_event_cactus_km Virtual cactus pacer position in km (elapsed fraction of event time x total km)\n"@[2]);
    reveal_strlit("# TYPE madcap_event_cactus_km gauge\n");
    assert("# TYPE madcap_fast_responses_not_modified_total counter\n"@[14] != "# TYPE madcap_event_cactus_km gauge\n"@[14]);
    reveal_strlit("# HELP madcap_event_participants Participant count in the event\n");
    assert("# TYPE madcap_fast_responses_not_modified_total counter\n"@[2] != "# HELP madcap_event_participants Participant count in the event\n"@[2]);
    reveal_strlit("# TYPE madcap_event_participants gauge\n");
    assert("# TYPE madcap_fast_responses_not_modified_total counter\n"@[14] != "# TYPE madcap_event_participants gauge\n"@[14]);
    reveal_strlit("# HELP madcap_event_active Riders with any ping or REGISTERED/ACTIVE status\n");
    assert("# TYPE madcap_fast_responses_not_modified_total counter\n"@[2] != "# HELP madcap_event_active Riders with any ping or REGISTERED/ACTIVE status\n"@[2]);
    reveal_strlit("# TYPE madcap_event_active gauge\n");
    assert("# TYPE madcap_fast_responses_not_modified_total counter\n"@[14] != "# TYPE madcap_event_active gauge\n"@[14]);
    reveal_strlit("# HELP madcap_event_sleeping Riders currently flagged sleeping\n");
    assert("# TYPE madcap_fast_responses_not_modified_total counter\n"@[2] != "# HELP madcap_event_sleeping Riders currently flagged sleeping\n"@[2]);
    reveal_strlit("# TYPE madcap_event_sleeping gauge\n");
    assert("# TYPE madcap_fast_responses_not_modified_total counter\n"@[14] != "# TYPE madcap_event_sleeping gauge\n"@[14]);
    reveal_strlit("# HELP madcap_event_started Riders with non-zero distance\n");
    assert("# TYPE madcap_fast_responses_not_modified_total counter\n"@[2] != "# HELP madcap_event_started Riders with non-zero distance\n"@[2]);
    reveal_strlit("# TYPE madcap_event_started gauge\n");
    assert("# TYPE madcap_fast_responses_not_modified_total counter\n"@[14] != "# TYPE madcap_event_started gauge\n"@[14]);
    reveal_strlit("# HELP madcap_event_finished Riders within 0.5 km of the course total\n");
    assert("# TYPE madcap_fast_responses_not_modified_total counter\n"@[2] != "# HELP madcap_event_finished Riders within 0.5 km of the course total\n"@[2]);
    reveal_strlit("# TYPE madcap_event_finished gauge\n");
    assert("# TYPE madcap_fast_responses_not_modified_total counter\n"@[14] != "# TYPE madcap_event_finished gauge\n"@[14]);
    reveal_strlit("# HELP madcap_rider_distance_km Distance covered by the rider in km\n");
    assert("# TYPE madcap_fast_responses_not_modified_total counter\n"@[2] != "# HELP madcap_rider_distance_km Distance covered by the rider in km\n"@[2]);
    reveal_strlit("# TYPE madcap_rider_distance_km gauge\n");
    assert("# TYPE madcap_fast_responses_not_modified_total counter\n"@[14] != "# TYPE madcap_rider_distance_km gauge\n"@[14]);
    reveal_strlit("# HELP madcap_rider_cactus_delta_km Rider distance minus the cactus pacer position in km (positive = ahead)\n");
    assert("# TYPE madcap_fast_responses_not_modified_total counter\n"@[2] != "# HELP madcap_rider_cactus_delta_km Rider distance minus the cactus pacer position in km (positive = ahead)\n"@[2]);
    reveal_strlit("# TYPE madcap_rider_cactus_delta_km gauge\n");
    assert("# TYPE madcap_fast_responses_not_modified_total counter\n"@[14] != "# TYPE madcap_rider_cactus_delta_km gauge\n"@[14]);
    reveal_strlit("# HELP madcap_rider_speed_kmh Current reported speed in km/h\n");
    assert("# TYPE madcap_fast_responses_not_modified_total counter\n"@[2] != "# HELP madcap_rider_speed_kmh Current reported speed in km/h\n"@[2]);
    reveal_strlit("# TYPE madcap_rider_speed_kmh gauge\n");
    assert("# TYPE madcap_fast_responses_not_modified_total counter\n"@[14] != "# TYPE madcap_rider_speed_kmh gauge\n"@[14]);
    reveal_strlit("# HELP madcap_rider_overall_rank Overall rank (1 = leader)\n");
    assert("# TYPE madcap_fast_responses_not_modified_total counter\n"@[2] != "# HELP madcap_rider_overall_rank Overall rank (1 = leader)\n"@[2]);
    reveal_strlit("# TYPE madcap_rider_overall_rank gauge\n");
    assert("# TYPE madcap_fast_responses_not_modified_total counter\n"@[14] != "# TYPE madcap_rider_overall_rank gauge\n"@[14]);
    reveal_strlit("# HELP madcap_rider_category_rank Rank within the rider's category\n");
    assert("# TYPE madcap_fast_responses_not_modified_total counter\n"@[2] != "# HELP madcap_rider_category_rank Rank within the rider's category\n"@[2]);
    reveal_strlit("# TYPE madcap_rider_category_rank gauge\n");
    assert("# TYPE madcap_fast_responses_not_modified_total counter\n"@[14] != "# TYPE madcap_rider_category_rank gauge\n"@[14]);
    reveal_strlit("# HELP madcap_rider_battery_pct Tracker battery percentage\n");
    assert("# TYPE madcap_fast_responses_not_modified_total counter\n"@[2] != "# HELP madcap_rider_battery_pct Tracker battery percentage\n"@[2]);
    reveal_strlit("# TYPE madcap_rider_battery_pct gauge\n");
    assert("# TYPE madcap_fast_responses_not_modified_total counter\n"@[14] != "# TYPE madcap_rider_battery_pct gauge\n"@[14]);
    reveal_strlit("# HELP madcap_rider_sleeping 1 if the rider is currently flagged sleeping, else 0\n");
    assert("# TYPE madcap_fast_responses_not_modified_total counter\n"@[2] != "# HELP madcap_rider_sleeping 1 if the rider is currently flagged sleeping, else 0\n"@[2]);
    reveal_strlit("# TYPE madcap_rider_sleeping gauge\n");
    assert("# TYPE madcap_fast_responses_not_modified_total counter\n"@[14] != "# TYPE madcap_rider_sleeping gauge\n"@[14]);
    reveal_strlit("# HELP madcap_rider_distance_to_next_cp_km Straight-line distance to the next checkpoint\n");
    assert("# TYPE madcap_fast_responses_not_modified_total counter\n"@[2] != "# HELP madcap_rider_distance_to_next_cp_km Straight-line distance to the next checkpoint\n"@[2]);
    reveal_strlit("# TYPE madcap_rider_distance_to_next_cp_km gauge\n");
    assert("# TYPE madcap_fast_responses_not_modified_total counter\n"@[14] != "# TYPE madcap_rider_distance_to_next_cp_km gauge\n"@[14]);
    assert forall|j: int| 3 < j < 44 implies header_lines()[3] != #[trigger] header_lines()[j] by {
    }
}

proof fn lemma_header_line_distinct_4()
    ensures
        forall|j: int| 4 < j < 44 ==> header_lines()[4] != #[trigger] header_lines()[j],
{
    reveal_strlit("# HELP madcap_fast_upstream_refreshes_total Successful upstream refreshes\n");
    reveal_strlit("# TYPE madcap_fast_upstream_refreshes_total counter\n");
    assert("# HELP madcap_fast_upstream_refreshes_total Successful upstream refreshes\n"@[2] != "# TYPE madcap_fast_upstream_refreshes_total counter\n"@[2]);
    reveal_strlit("# HELP madcap_fast_upstream_errors_total Upstream refresh failures\n");
    assert("# HELP madcap_fast_upstream_refreshes_total Successful upstream refreshes\n"@[28] != "# HELP madcap_fast_upstream_errors_total Upstream refresh failures\n"@[28]);
    reveal_strlit("# TYPE madcap_fast_upstream_errors_total counter\n");
    assert("# HELP madcap_fast_upstream_refreshes_total Successful upstream refreshes\n"@[2] != "# TYPE madcap_fast_upstream_errors_total counter\n"@[2]);
    reveal_strlit("# HELP madcap_fast_cache_age_seconds Age of the cached snapshot per slug\n");
    assert("# HELP madcap_fast_upstream_refreshes_total Successful upstream refreshes\n"@[19] != "# HELP madcap_fast_cache_age_seconds Age of the cached snapshot per slug\n"@[19]);
    reveal_strlit("# TYPE madcap_fast_cache_age_seconds gauge\n");
    assert("# HELP madcap_fast_upstream_refreshes_total Successful upstream refreshes\n"@[2] != "# TYPE madcap_fast_cache_age_seconds gauge\n"@[2]);
    reveal_strlit("# HELP madcap_fast_cache_body_bytes Raw JSON body size per cached slug\n");
    assert("# HELP madcap_fast_upstream_refreshes_total Successful upstream refreshes\n"@[19] != "# HELP madcap_fast_cache_body_bytes Raw JSON body size per cached slug\n"@[19]);
    reveal_strlit("# TYPE madcap_fast_cache_body_bytes gauge\n");
    assert("# HELP madcap_fast_upstream_refreshes_total Successful upstream refreshes\n"@[2] != "# TYPE madcap_fast_cache_body_bytes gauge\n"@[2]);
    reveal_strlit("# HELP madcap_fast_upstream_last_ms Last upstream refresh duration per slug\n");
    assert("# HELP madcap_fast_upstream_refreshes_total Successful upstream refreshes\n"@[28] != "# HELP madcap_fast_upstream_last_ms Last upstream refresh duration per slug\n"@[28]);
    reveal_strlit("# TYPE madcap_fast_upstream_last_ms gauge\n");
    assert("# HELP madcap_fast_upstream_refreshes_total Successful upstream refreshes\n"@[2] != "# TYPE madcap_fast_upstream_last_ms gauge\n"@[2]);
    reveal_strlit("# HELP madcap_event_total_km Advertised total course distance in km (parsed from info.distance)\n");
    assert("# HELP madcap_fast_upstream_refreshes_total Successful upstream refreshes\n"@[14] != "# HELP madcap_event_total_km Advertised total course distance in km (parsed from info.distance)\n"@[14]);
    reveal_strlit("# TYPE madcap_event_total_km gauge\n");
    assert("# HELP madcap_fast_upstream_refreshes_total Successful upstream refreshes\n"@[2] != "# TYPE madcap_event_total_km gauge\n"@[2]);
    reveal_strlit("# HELP madcap_event_cactus_km Virtual cactus pacer position in km (elapsed fraction of event time x total km)\n");
    assert("# HELP madcap_fast_upstream_refreshes_total Successful upstream refreshes\n"@[14] != "# HELP madcap_event_cactus_km Virtual cactus pacer position in km (elapsed fraction of event time x total km)\n"@[14]);
    reveal_strlit("# TYPE madcap_event_cactus_km gauge\n");
    assert("# HELP madcap_fast_upstream_refreshes_total Successful upstream refreshes\n"@[2] != "# TYPE madcap_event_cactus_km gauge\n"@[2]);
    reveal_strlit("# HELP madcap_event_participants Participant count in the event\n");
    assert("# HELP madcap_fast_upstream_refreshes_total Successful upstream refreshes\n"@[14] != "# HELP madcap_event_participants Participant count in the event\n"@[14]);
    reveal_strlit("# TYPE madcap_event_participants gauge\n");
    assert("# HELP madcap_fast_upstream_refreshes_total Successful upstream refreshes\n"@[2] != "# TYPE madcap_event_participants gauge\n"@[2]);
    reveal_strlit("# HELP madcap_event_active Riders with any ping or REGISTERED/ACTIVE status\n");
    assert("# HELP madcap_fast_upstream_refreshes_total Successful upstream refreshes\n"@[14] != "# HELP madcap_event_active Riders with any ping or REGISTERED/ACTIVE status\n"@[14]);
    reveal_strlit("# TYPE madcap_event_active gauge\n");
    assert("# HELP madcap_fast_upstream_refreshes_total Successful upstream refreshes\n"@[2] != "# TYPE madcap_event_active gauge\n"@[2]);
    reveal_strlit("# HELP madcap_event_sleeping Riders currently flagged sleeping\n");
    assert("# HELP madcap_fast_upstream_refreshes_total Successful upstream refreshes\n"@[14] != "# HELP madcap_event_sleeping Riders currently flagged sleeping\n"@[14]);
    reveal_strlit("# TYPE madcap_event_sleeping gauge\n");
    assert("# HELP madcap_fast_upstream_refreshes_total Successful upstream refreshes\n"@[2] != "# TYPE madcap_event_sleeping gauge\n"@[2]);
    reveal_strlit("# HELP madcap_event_started Riders with non-zero distance\n");
    assert("# HELP madcap_fast_upstream_refreshes_total Successful upstream refreshes\n"@[14] != "# HELP madcap_event_started Riders with non-zero distance\n"@[14]);
    reveal_strlit("# TYPE madcap_event_started gauge\n");
    assert("# HELP madcap_fast_upstream_refreshes_total Successful upstream refreshes\n"@[2] != "# TYPE madcap_event_started gauge\n"@[2]);
    reveal_strlit("# HELP madcap_event_finished Riders within 0.5 km of the course total\n");
    assert("# HELP madcap_fast_upstream_refreshes_total Successful upstream refreshes\n"@[14] != "# HELP madcap_event_finished Riders within 0.5 km of the course total\n"@[14]);
    reveal_strlit("# TYPE madcap_event_finished gauge\n");
    assert("# HELP madcap_fast_upstream_refreshes_total Successful upstream refreshes\n"@[2] != "# TYPE madcap_event_finished gauge\n"@[2]);
    reveal_strlit("# HELP madcap_rider_distance_km Distance covered by the rider in km\n");
    assert("# HELP madcap_fast_upstream_refreshes_total Successful upstream refreshes\n"@[14] != "# HELP madcap_rider_distance_km Distance covered by the rider in km\n"@[14]);
    reveal_strlit("# TYPE madcap_rider_distance_km gauge\n");
    assert("# HELP madcap_fast_upstream_refreshes_total Successful upstream refreshes\n"@[2] != "# TYPE madcap_rider_distance_km gauge\n"@[2]);
    reveal_strlit("# HELP madcap_rider_cactus_delta_km Rider distance minus the cactus pacer position in km (positive = ahead)\n");
    assert("# HELP madcap_fast_upstream_refreshes_total Successful upstream refreshes\n"@[14] != "# HELP madcap_rider_cactus_delta_km Rider distance minus the cactus pacer position in km (positive = ahead)\n"@[14]);
    reveal_strlit("# TYPE madcap_rider_cactus_delta_km gauge\n");
    assert("# HELP madcap_fast_upstream_refreshes_total Successful upstream refreshes\n"@[2] != "# TYPE madcap_rider_cactus_delta_km gauge\n"@[2]);
    reveal_strlit("# HELP madcap_rider_speed_kmh Current reported speed in km/h\n");
    assert("# HELP madcap_fast_upstream_refreshes_total Successful upstream refreshes\n"@[14] != "# HELP madcap_rider_speed_kmh Current reported speed in km/h\n"@[14]);
    reveal_strlit("# TYPE madcap_rider_speed_kmh gauge\n");
    assert("# HELP madcap_fast_upstream_refreshes_total Successful upstream refreshes\n"@[2] != "# TYPE madcap_rider_speed_kmh gauge\n"@[2]);
    reveal_strlit("# HELP madcap_rider_overall_rank Overall rank (1 = leader)\n");
    assert("# HELP madcap_fast_upstream_refreshes_total Successful upstream refreshes\n"@[14] != "# HELP madcap_rider_overall_rank Overall rank (1 = leader)\n"@[14]);
    reveal_strlit("# TYPE madcap_rider_overall_rank gauge\n");
    assert("# HELP madcap_fast_upstream_refreshes_total Successful upstream refreshes\n"@[2] != "# TYPE madcap_rider_overall_rank gauge\n"@[2]);
    reveal_strlit("# HELP madcap_rider_category_rank Rank within the rider's category\n");
    assert("# HELP madcap_fast_upstream_refreshes_total Successful upstream refreshes\n"@[14] != "# HELP madcap_rider_category_rank Rank within the rider's category\n"@[14]);
    reveal_strlit("# TYPE madcap_rider_category_rank gauge\n");
    assert("# HELP madcap_fast_upstream_refreshes_total Successful upstream refreshes\n"@[2] != "# TYPE madcap_rider_category_rank gauge\n"@[2]);
    reveal_strlit("# HELP madcap_rider_battery_pct Tracker battery percentage\n");
    assert("# HELP madcap_fast_upstream_refreshes_total Successful upstream refreshes\n"@[14] != "# HELP madcap_rider_battery_pct Tracker battery percentage\n"@[14]);
    reveal_strlit("# TYPE madcap_rider_battery_pct gauge\n");
    assert("# HELP madcap_fast_upstream_refreshes_total Successful upstream refreshes\n"@[2] != "# TYPE madcap_rider_battery_pct gauge\n"@[2]);
    reveal_strlit("# HELP madcap_rider_sleeping 1 if the rider is currently flagged sleeping, else 0\n");
    assert("# HELP madcap_fast_upstream_refreshes_total Successful upstream refreshes\n"@[14] != "# HELP madcap_rider_sleeping 1 if the rider is currently flagged sleeping, else 0\n"@[14]);
    reveal_strlit("# TYPE madcap_rider_sleeping gauge\n");
    assert("# HELP madcap_fast_upstream_refreshes_total Successful upstream refreshes\n"@[2] != "# TYPE madcap_rider_sleeping gauge\n"@[2]);
    reveal_strlit("# HELP madcap_rider_distance_to_next_cp_km Straight-line distance to the next checkpoint\n");
    assert("# HELP madcap_fast_upstream_refreshes_total Successful upstream refreshes\n"@[14] != "# HELP madcap_rider_distance_to_next_cp_km Straight-line distance to the next checkpoint\n"@[14]);
    reveal_strlit("# TYPE madcap_rider_distance_to_next_cp_km gauge\n");
    assert("# HELP madcap_fast_upstream_refreshes_total Successful upstream refreshes\n"@[2] != "# TYPE madcap_rider_distance_to_next_cp_km gauge\n"@[2]);
    assert forall|j: int| 4 < j < 44 implies header_lines()[4] != #[trigger] header_lines()[j] by {
    }
}

proof fn lemma_header_line_distinct_5()
    ensures
        forall|j: int| 5 < j < 44 ==> header_lines()[5] != #[trigger] header_lines()[j],
{
    reveal_strlit("# TYPE madcap_fast_upstream_refreshes_total counter\n");
    reveal_strlit("# HELP madcap_fast_upstream_errors_total Upstream refresh failures\n");
    assert("# TYPE madcap_fast_upstream_refreshes_total counter\n"@[2] != "# HELP madcap_fast_upstream_errors_total Upstream refresh failures\n"@[2]);
    reveal_strlit("# TYPE madcap_fast_upstream_errors_total counter\n");
    assert("# TYPE madcap_fast_upstream_refreshes_total counter\n"@[28] != "# TYPE madcap_fast_upstream_errors_total counter\n"@[28]);
    reveal_strlit("# HELP madcap_fast_cache_age_seconds Age of the cached snapshot per slug\n");
    assert("# TYPE madcap_fast_upstream_refreshes_total counter\n"@[2] != "# HELP madcap_fast_cache_age_seconds Age of the cached snapshot per slug\n"@[2]);
    reveal_strlit("# TYPE madcap_fast_cache_age_seconds gauge\n");
    assert("# TYPE madcap_fast_upstream_refreshes_total counter\n"@[19] != "# TYPE madcap_fast_cache_age_seconds gauge\n"@[19]);
    reveal_strlit("# HELP madcap_fast_cache_body_bytes Raw JSON body size per cached slug\n");
    assert("# TYPE madcap_fast_upstream_refreshes_total counter\n"@[2] != "# HELP madcap_fast_cache_body_bytes Raw JSON body size per cached slug\n"@[2]);
    reveal_strlit("# TYPE madcap_fast_cache_body_bytes gauge\n");
    assert("# TYPE madcap_fast_upstream_refreshes_total counter\n"@[19] != "# TYPE madcap_fast_cache_body_bytes gauge\n"@[19]);
    reveal_strlit("# HELP madcap_fast_upstream_last_ms Last upstream refresh duration per slug\n");
    assert("# TYPE madcap_fast_upstream_refreshes_total counter\n"@[2] != "# HELP madcap_fast_upstream_last_ms Last upstream refresh duration per slug\n"@[2]);
    reveal_strlit("# TYPE madcap_fast_upstream_last_ms gauge\n");
    assert("# TYPE madcap_fast_upstream_refreshes_total counter\n"@[28] != "# TYPE madcap_fast_upstream_last_ms gauge\n"@[28]);
    reveal_strlit("# HELP madcap_event_total_km Advertised total course distance in km (parsed from info.distance)\n");
    assert("# TYPE madcap_fast_upstream_refreshes_total counter\n"@[2] != "# HELP madcap_event_total_km Advertised total course distance in km (parsed from info.distance)\n"@[2]);
    reveal_strlit("# TYPE madcap_event_total_km gauge\n");
    assert("# TYPE madcap_fast_upstream_refreshes_total counter\n"@[14] != "# TYPE madcap_event_total_km gauge\n"@[14]);
    reveal_strlit("# HELP madcap_event_cactus_km Virtual cactus pacer position in km (elapsed fraction of event time x total km)\n");
    assert("# TYPE madcap_fast_upstream_refreshes_total counter\n"@[2] != "# HELP madcap_event_cactus_km Virtual cactus pacer position in km (elapsed fraction of event time x total km)\n"@[2]);
    reveal_strlit("# TYPE madcap_event_cactus_km gauge\n");
    assert("# TYPE madcap_fast_upstream_refreshes_total counter\n"@[14] != "# TYPE madcap_event_cactus_km gauge\n"@[14]);
    reveal_strlit("# HELP madcap_event_participants Participant count in the event\n");
    assert("# TYPE madcap_fast_upstream_refreshes_total counter\n"@[2] != "# HELP madcap_event_participants Participant count in the event\n"@[2]);
    reveal_strlit("# TYPE madcap_event_participants gauge\n");
    assert("# TYPE madcap_fast_upstream_refreshes_total counter\n"@[14] != "# TYPE madcap_event_participants gauge\n"@[14]);
    reveal_strlit("# HELP madcap_event_active Riders with any ping or REGISTERED/ACTIVE status\n");
    assert("# TYPE madcap_fast_upstream_refreshes_total counter\n"@[2] != "# HELP madcap_event_active Riders with any ping or REGISTERED/ACTIVE status\n"@[2]);
    reveal_strlit("# TYPE madcap_event_active gauge\n");
    assert("# TYPE madcap_fast_upstream_refreshes_total counter\n"@[14] != "# TYPE madcap_event_active gauge\n"@[14]);
    reveal_strlit("# HELP madcap_event_sleeping Riders currently flagged sleeping\n");
    assert("# TYPE madcap_fast_upstream_refreshes_total counter\n"@[2] != "# HELP madcap_event_sleeping Riders currently flagged sleeping\n"@[2]);
    reveal_strlit("# TYPE madcap_event_sleeping gauge\n");
    assert("# TYPE madcap_fast_upstream_refreshes_total counter\n"@[14] != "# TYPE madcap_event_sleeping gauge\n"@[14]);
    reveal_strlit("# HELP madcap_event_started Riders with non-zero distance\n");
    assert("# TYPE madcap_fast_upstream_refreshes_total counter\n"@[2] != "# HELP madcap_event_started Riders with non-zero distance\n"@[2]);
    reveal_strlit("# TYPE madcap_event_started gauge\n");
    assert("# TYPE madcap_fast_upstream_refreshes_total counter\n"@[14] != "# TYPE madcap_event_started gauge\n"@[14]);
    reveal_strlit("# HELP madcap_event_finished Riders within 0.5 km of the course total\n");
    assert("# TYPE madcap_fast_upstream_refreshes_total counter\n"@[2] != "# HELP madcap_event_finished Riders within 0.5 km of the course total\n"@[2]);
    reveal_strlit("# TYPE madcap_event_finished gauge\n");
    assert("# TYPE madcap_fast_upstream_refreshes_total counter\n"@[14] != "# TYPE madcap_event_finished gauge\n"@[14]);
    reveal_strlit("# HELP madcap_rider_distance_km Distance covered by the rider in km\n");
    assert("# TYPE madcap_fast_upstream_refreshes_total counter\n"@[2] != "# HELP madcap_rider_distance_km Distance covered by the rider in km\n"@[2]);
    reveal_strlit("# TYPE madcap_rider_distance_km gauge\n");
    assert("# TYPE madcap_fast_upstream_refreshes_total counter\n"@[14] != "# TYPE madcap_rider_distance_km gauge\n"@[14]);
    reveal_strlit("# HELP madcap_rider_cactus_delta_km Rider distance minus the cactus pacer position in km (positive = ahead)\n");
    assert("# TYPE madcap_fast_upstream_refreshes_total counter\n"@[2] != "# HELP madcap_rider_cactus_delta_km Rider distance minus the cactus pacer position in km (positive = ahead)\n"@[2]);
    reveal_strlit("# TYPE madcap_rider_cactus_delta_km gauge\n");
    assert("# TYPE madcap_fast_upstream_refreshes_total counter\n"@[14] != "# TYPE madcap_rider_cactus_delta_km gauge\n"@[14]);
    reveal_strlit("# HELP madcap_rider_speed_kmh Current reported speed in km/h\n");
    assert("# TYPE madcap_fast_upstream_refreshes_total counter\n"@[2] != "# HELP madcap_rider_speed_kmh Current reported speed in km/h\n"@[2]);
    reveal_strlit("# TYPE madcap_rider_speed_kmh gauge\n");
    assert("# TYPE madcap_fast_upstream_refreshes_total counter\n"@[14] != "# TYPE madcap_rider_speed_kmh gauge\n"@[14]);
    reveal_strlit("# HELP madcap_rider_overall_rank Overall rank (1 = leader)\n");
    assert("# TYPE madcap_fast_upstream_refreshes_total counter\n"@[2] != "# HELP madcap_rider_overall_rank Overall rank (1 = leader)\n"@[2]);
    reveal_strlit("# TYPE madcap_rider_overall_rank gauge\n");
    assert("# TYPE madcap_fast_upstream_refreshes_total counter\n"@[14] != "# TYPE madcap_rider_overall_rank gauge\n"@[14]);
    reveal_strlit("# HELP madcap_rider_category_rank Rank within the rider's category\n");
    assert("# TYPE madcap_fast_upstream_refreshes_total counter\n"@[2] != "# HELP madcap_rider_category_rank Rank within the rider's category\n"@[2]);
    reveal_strlit("# TYPE madcap_rider_category_rank gauge\n");
    assert("# TYPE madcap_fast_upstream_refreshes_total counter\n"@[14] != "# TYPE madcap_rider_category_rank gauge\n"@[14]);
    reveal_strlit("# HELP madcap_rider_battery_pct Tracker battery percentage\n");
    assert("# TYPE madcap_fast_upstream_refreshes_total counter\n"@[2] != "# HELP madcap_rider_battery_pct Tracker battery percentage\n"@[2]);
    reveal_strlit("# TYPE madcap_rider_battery_pct gauge\n");
    assert("# TYPE madcap_fast_upstream_refreshes_total counter\n"@[14] != "# TYPE madcap_rider_battery_pct gauge\n"@[14]);
    reveal_strlit("# HELP madcap_rider_sleeping 1 if the rider is currently flagged sleeping, else 0\n");
    assert("# TYPE madcap_fast_upstream_refreshes_total counter\n"@[2] != "# HELP madcap_rider_sleeping 1 if the rider is currently flagged sleeping, else 0\n"@[2]);
    reveal_strlit("# TYPE madcap_rider_sleeping gauge\n");
    assert("# TYPE madcap_fast_upstream_refreshes_total counter\n"@[14] != "# TYPE madcap_rider_sleeping gauge\n"@[14]);
    reveal_strlit("# HELP madcap_rider_distance_to_next_cp_km Straight-line distance to the next checkpoint\n");
    assert("# TYPE madcap_fast_upstream_refreshes_total counter\n"@[2] != "# HELP madcap_rider_distance_to_next_cp_km Straight-line distance to the next checkpoint\n"@[2]);
    reveal_strlit("# TYPE madcap_rider_distance_to_next_cp_km gauge\n");
    assert("# TYPE madcap_fast_upstream_refreshes_total counter\n"@[14] != "# TYPE madcap_rider_distance_to_next_cp_km gauge\n"@[14]);
    assert forall|j: int| 5 < j < 44 implies header_lines()[5] != #[trigger] header_lines()[j] by {
    }
}

proof fn lemma_header_line_distinct_6()
    ensures
        forall|j: int| 6 < j < 44 ==> header_lines()[6] != #[trigger] header_lines()[j],
{
    reveal_strlit("# HELP madcap_fast_upstream_errors_total Upstream refresh failures\n");
    reveal_strlit("# TYPE madcap_fast_upstream_errors_total counter\n");
    assert("# HELP madcap_fast_upstream_errors_total Upstream refresh failures\n"@[2] != "# TYPE madcap_fast_upstream_errors_total counter\n"@[2]);
    reveal_strlit("# HELP madcap_fast_cache_age_seconds Age of the cached snapshot per slug\n");
    assert("# HELP madcap_fast_upstream_errors_total Upstream refresh failures\n"@[19] != "# HELP madcap_fast_cache_age_seconds Age of the cached snapshot per slug\n"@[19]);
    reveal_strlit("# TYPE madcap_fast_cache_age_seconds gauge\n");
    assert("# HELP madcap_fast_upstream_errors_total Upstream refresh failures\n"@[2] != "# TYPE madcap_fast_cache_age_seconds gauge\n"@[2]);
    reveal_strlit("# HELP madcap_fast_cache_body_bytes Raw JSON body size per cached slug\n");
    assert("# HELP madcap_fast_upstream_errors_total Upstream refresh failures\n"@[19] != "# HELP madcap_fast_cache_body_bytes Raw JSON body size per cached slug\n"@[19]);
    reveal_strlit("# TYPE madcap_fast_cache_body_bytes gauge\n");
    assert("# HELP madcap_fast_upstream_errors_total Upstream refresh failures\n"@[2] != "# TYPE madcap_fast_cache_body_bytes gauge\n"@[2]);
    reveal_strlit("# HELP madcap_fast_upstream_last_ms Last upstream refresh duration per slug\n");
    assert("# HELP madcap_fast_upstream_errors_total Upstream refresh failures\n"@[28] != "# HELP madcap_fast_upstream_last_ms Last upstream refresh duration per slug\n"@[28]);
    reveal_strlit("# TYPE madcap_fast_upstream_last_ms gauge\n");
    assert("# HELP madcap_fast_upstream_errors_total Upstream refresh failures\n"@[2] != "# TYPE madcap_fast_upstream_last_ms gauge\n"@[2]);
    reveal_strlit("# HELP madcap_event_total_km Advertised total course distance in km (parsed from info.distance)\n");
    assert("# HELP madcap_fast_upstream_errors_total Upstream refresh failures\n"@[14] != "# HELP madcap_event_total_km Advertised total course distance in km (parsed from info.distance)\n"@[14]);
    reveal_strlit("# TYPE madcap_event_total_km gauge\n");
    assert("# HELP madcap_fast_upstream_errors_total Upstream refresh failures\n"@[2] != "# TYPE madcap_event_total_km gauge\n"@[2]);
    reveal_strlit("# HELP madcap_event_cactus_km Virtual cactus pacer position in km (elapsed fraction of event time x total km)\n");
    assert("# HELP madcap_fast_upstream_errors_total Upstream refresh failures\n"@[14] != "# HELP madcap_event_cactus_km Virtual cactus pacer position in km (elapsed fraction of event time x total km)\n"@[14]);
    reveal_strlit("# TYPE madcap_event_cactus_km gauge\n");
    assert("# HELP madcap_fast_upstream_errors_total Upstream refresh failures\n"@[2] != "# TYPE madcap_event_cactus_km gauge\n"@[2]);
    reveal_strlit("# HELP madcap_event_participants Participant count in the event\n");
    assert("# HELP madcap_fast_upstream_errors_total Upstream refresh failures\n"@[14] != "# HELP madcap_event_participants Participant count in the event\n"@[14]);
    reveal_strlit("# TYPE madcap_event_participants gauge\n");
    assert("# HELP madcap_fast_upstream_errors_total Upstream refresh failures\n"@[2] != "# TYPE madcap_event_participants gauge\n"@[2]);
    reveal_strlit("# HELP madcap_event_active Riders with any ping or REGISTERED/ACTIVE status\n");
    assert("# HELP madcap_fast_upstream_errors_total Upstream refresh failures\n"@[14] != "# HELP madcap_event_active Riders with any ping or REGISTERED/ACTIVE status\n"@[14]);
    reveal_strlit("# TYPE madcap_event_active gauge\n");
    assert("# HELP madcap_fast_upstream_errors_total Upstream refresh failures\n"@[2] != "# TYPE madcap_event_active gauge\n"@[2]);
    reveal_strlit("# HELP madcap_event_sleeping Riders currently flagged sleeping\n");
    assert("# HELP madcap_fast_upstream_errors_total Upstream refresh failures\n"@[14] != "# HELP madcap_event_sleeping Riders currently flagged sleeping\n"@[14]);
    reveal_strlit("# TYPE madcap_event_sleeping gauge\n");
    assert("# HELP madcap_fast_upstream_errors_total Upstream refresh failures\n"@[2] != "# TYPE madcap_event_sleeping gauge\n"@[2]);
    reveal_strlit("# HELP madcap_event_started Riders with non-zero distance\n");
    assert("# HELP madcap_fast_upstream_errors_total Upstream refresh failures\n"@[14] != "# HELP madcap_event_started Riders with non-zero distance\n"@[14]);
    reveal_strlit("# TYPE madcap_event_started gauge\n");
    assert("# HELP madcap_fast_upstream_errors_total Upstream refresh failures\n"@[2] != "# TYPE madcap_event_started gauge\n"@[2]);
    reveal_strlit("# HELP madcap_event_finished Riders within 0.5 km of the course total\n");
    assert("# HELP madcap_fast_upstream_errors_total Upstream refresh failures\n"@[14] != "# HELP madcap_event_finished Riders within 0.5 km of the course total\n"@[14]);
    reveal_strlit("# TYPE madcap_event_finished gauge\n");
    assert("# HELP madcap_fast_upstream_errors_total Upstream refresh failures\n"@[2] != "# TYPE madcap_event_finished gauge\n"@[2]);
    reveal_strlit("# HELP madcap_rider_distance_km Distance covered by the rider in km\n");
    assert("# HELP madcap_fast_upstream_errors_total Upstream refresh failures\n"@[14] != "# HELP madcap_rider_distance_km Distance covered by the rider in km\n"@[14]);
    reveal_strlit("# TYPE madcap_rider_distance_km gauge\n");
    assert("# HELP madcap_fast_upstream_errors_total Upstream refresh failures\n"@[2] != "# TYPE madcap_rider_distance_km gauge\n"@[2]);
    reveal_strlit("# HELP madcap_rider_cactus_delta_km Rider distance minus the cactus pacer position in km (positive = ahead)\n");
    assert("# HELP madcap_fast_upstream_errors_total Upstream refresh failures\n"@[14] != "# HELP madcap_rider_cactus_delta_km Rider distance minus the cactus pacer position in km (positive = ahead)\n"@[14]);
    reveal_strlit("# TYPE madcap_rider_cactus_delta_km gauge\n");
    assert("# HELP madcap_fast_upstream_errors_total Upstream refresh failures\n"@[2] != "# TYPE madcap_rider_cactus_delta_km gauge\n"@[2]);
    reveal_strlit("# HELP madcap_rider_speed_kmh Current reported speed in km/h\n");
    assert("# HELP madcap_fast_upstream_errors_total Upstream refresh failures\n"@[14] != "# HELP madcap_rider_speed_kmh Current reported speed in km/h\n"@[14]);
    reveal_strlit("# TYPE madcap_rider_speed_kmh gauge\n");
    assert("# HELP madcap_fast_upstream_errors_total Upstream refresh failures\n"@[2] != "# TYPE madcap_rider_speed_kmh gauge\n"@[2]);
    reveal_strlit("# HELP madcap_rider_overall_rank Overall rank (1 = leader)\n");
    assert("# HELP madcap_fast_upstream_errors_total Upstream refresh failures\n"@[14] != "# HELP madcap_rider_overall_rank Overall rank (1 = leader)\n"@[14]);
    reveal_strlit("# TYPE madcap_rider_overall_rank gauge\n");
    assert("# HELP madcap_fast_upstream_errors_total Upstream refresh failures\n"@[2] != "# TYPE madcap_rider_overall_rank gauge\n"@[2]);
    reveal_strlit("# HELP madcap_rider_category_rank Rank within the rider's category\n");
    assert("# HELP madcap_fast_upstream_errors_total Upstream refresh failures\n"@[14] != "# HELP madcap_rider_category_rank Rank within the rider's category\n"@[14]);
    reveal_strlit("# TYPE madcap_rider_category_rank gauge\n");
    assert("# HELP madcap_fast_upstream_errors_total Upstream refresh failures\n"@[2] != "# TYPE madcap_rider_category_rank gauge\n"@[2]);
    reveal_strlit("# HELP madcap_rider_battery_pct Tracker battery percentage\n");
    assert("# HELP madcap_fast_upstream_errors_total Upstream refresh failures\n"@[14] != "# HELP madcap_rider_battery_pct Tracker battery percentage\n"@[14]);
    reveal_strlit("# TYPE madcap_rider_battery_pct gauge\n");
    assert("# HELP madcap_fast_upstream_errors_total Upstream refresh failures\n"@[2] != "# TYPE madcap_rider_battery_pct gauge\n"@[2]);
    reveal_strlit("# HELP madcap_rider_sleeping 1 if the rider is currently flagged sleeping, else 0\n");
    assert("# HELP madcap_fast_upstream_errors_total Upstream refresh failures\n"@[14] != "# HELP madcap_rider_sleeping 1 if the rider is currently flagged sleeping, else 0\n"@[14]);
    reveal_strlit("# TYPE madcap_rider_sleeping gauge\n");
    assert("# HELP madcap_fast_upstream_errors_total Upstream refresh failures\n"@[2] != "# TYPE madcap_rider_sleeping gauge\n"@[2]);
    reveal_strlit("# HELP madcap_rider_distance_to_next_cp_km Straight-line distance to the next checkpoint\n");
    assert("# HELP madcap_fast_upstream_errors_total Upstream refresh failures\n"@[14] != "# HELP madcap_rider_distance_to_next_cp_km Straight-line distance to the next checkpoint\n"@[14]);
    reveal_strlit("# TYPE madcap_rider_distance_to_next_cp_km gauge\n");
    assert("# HELP madcap_fast_upstream_errors_total Upstream refresh failures\n"@[2] != "# TYPE madcap_rider_distance_to_next_cp_km gauge\n"@[2]);
    assert forall|j: int| 6 < j < 44 implies header_lines()[6] != #[trigger] header_lines()[j] by {
    }
}

proof fn lemma_header_line_distinct_7()
    ensures
        forall|j: int| 7 < j < 44 ==> header_lines()[7] != #[trigger] header_lines()[j],
{
    reveal_strlit("# TYPE madcap_fast_upstream_errors_total counter\n");
    reveal_strlit("# HELP madcap_fast_cache_age_seconds Age of the cached snapshot per slug\n");
    assert("# TYPE madcap_fast_upstream_errors_total counter\n"@[2] != "# HELP madcap_fast_cache_age_seconds Age of the cached snapshot per slug\n"@[2]);
    reveal_strlit("# TYPE madcap_fast_cache_age_seconds gauge\n");
    assert("# TYPE madcap_fast_upstream_errors_total counter\n"@[19] != "# TYPE madcap_fast_cache_age_seconds gauge\n"@[19]);
    reveal_strlit("# HELP madcap_fast_cache_body_bytes Raw JSON body size per cached slug\n");
    assert("# TYPE madcap_fast_upstream_errors_total counter\n"@[2] != "# HELP madcap_fast_cache_body_bytes Raw JSON body size per cached slug\n"@[2]);
    reveal_strlit("# TYPE madcap_fast_cache_body_bytes gauge\n");
    assert("# TYPE madcap_fast_upstream_errors_total counter\n"@[19] != "# TYPE madcap_fast_cache_body_bytes gauge\n"@[19]);
    reveal_strlit("# HELP madcap_fast_upstream_last_ms Last upstream refresh duration per slug\n");
    assert("# TYPE madcap_fast_upstream_errors_total counter\n"@[2] != "# HELP madcap_fast_upstream_last_ms Last upstream refresh duration per slug\n"@[2]);
    reveal_strlit("# TYPE madcap_fast_upstream_last_ms gauge\n");
    assert("# TYPE madcap_fast_upstream_errors_total counter\n"@[28] != "# TYPE madcap_fast_upstream_last_ms gauge\n"@[28]);
    reveal_strlit("# HELP madcap_event_total_km Advertised total course distance in km (parsed from info.distance)\n");
    assert("# TYPE madcap_fast_upstream_errors_total counter\n"@[2] != "# HELP madcap_event_total_km Advertised total course distance in km (parsed from info.distance)\n"@[2]);
    reveal_strlit("# TYPE madcap_event_total_km gauge\n");
    assert("# TYPE madcap_fast_upstream_errors_total counter\n"@[14] != "# TYPE madcap_event_total_km gauge\n"@[14]);
    reveal_strlit("# HELP madcap_event_cactus_km Virtual cactus pacer position in km (elapsed fraction of event time x total km)\n");
    assert("# TYPE madcap_fast_upstream_errors_total counter\n"@[2] != "# HELP madcap_event_cactus_km Virtual cactus pacer position in km (elapsed fraction of event time x total km)\n"@[2]);
    reveal_strlit("# TYPE madcap_event_cactus_km gauge\n");
    assert("# TYPE madcap_fast_upstream_errors_total counter\n"@[14] != "# TYPE madcap_event_cactus_km gauge\n"@[14]);
    reveal_strlit("# HELP madcap_event_participants Participant count in the event\n");
    assert("# TYPE madcap_fast_upstream_errors_total counter\n"@[2] != "# HELP madcap_event_participants Participant count in the event\n"@[2]);
    reveal_strlit("# TYPE madcap_event_participants gauge\n");
    assert("# TYPE madcap_fast_upstream_errors_total counter\n"@[14] != "# TYPE madcap_event_participants gauge\n"@[14]);
    reveal_strlit("# HELP madcap_event_active Riders with any ping or REGISTERED/ACTIVE status\n");
    assert("# TYPE madcap_fast_upstream_errors_total counter\n"@[2] != "# HELP madcap_event_active Riders with any ping or REGISTERED/ACTIVE status\n"@[2]);
    reveal_strlit("# TYPE madcap_event_active gauge\n");
    assert("# TYPE madcap_fast_upstream_errors_total counter\n"@[14] != "# TYPE madcap_event_active gauge\n"@[14]);
    reveal_strlit("# HELP madcap_event_sleeping Riders currently flagged sleeping\n");
    assert("# TYPE madcap_fast_upstream_errors_total counter\n"@[2] != "# HELP madcap_event_sleeping Riders currently flagged sleeping\n"@[2]);
    reveal_strlit("# TYPE madcap_event_sleeping gauge\n");
    assert("# TYPE madcap_fast_upstream_errors_total counter\n"@[14] != "# TYPE madcap_event_sleeping gauge\n"@[14]);
    reveal_strlit("# HELP madcap_event_started Riders with non-zero distance\n");
    assert("# TYPE madcap_fast_upstream_errors_total counter\n"@[2] != "# HELP madcap_event_started Riders with non-zero distance\n"@[2]);
    reveal_strlit("# TYPE madcap_event_started gauge\n");
    assert("# TYPE madcap_fast_upstream_errors_total counter\n"@[14] != "# TYPE madcap_event_started gauge\n"@[14]);
    reveal_strlit("# HELP madcap_event_finished Riders within 0.5 km of the course total\n");
    assert("# TYPE madcap_fast_upstream_errors_total counter\n"@[2] != "# HELP madcap_event_finished Riders within 0.5 km of the course total\n"@[2]);
    reveal_strlit("# TYPE madcap_event_finished gauge\n");
    assert("# TYPE madcap_fast_upstream_errors_total counter\n"@[14] != "# TYPE madcap_event_finished gauge\n"@[14]);
    reveal_strlit("# HELP madcap_rider_distance_km Distance covered by the rider in km\n");
    assert("# TYPE madcap_fast_upstream_errors_total counter\n"@[2] != "# HELP madcap_rider_distance_km Distance covered by the rider in km\n"@[2]);
    reveal_strlit("# TYPE madcap_rider_distance_km gauge\n");
    assert("# TYPE madcap_fast_upstream_errors_total counter\n"@[14] != "# TYPE madcap_rider_distance_km gauge\n"@[14]);
    reveal_strlit("# HELP madcap_rider_cactus_delta_km Rider distance minus the cactus pacer position in km (positive = ahead)\n");
    assert("# TYPE madcap_fast_upstream_errors_total counter\n"@[2] != "# HELP madcap_rider_cactus_delta_km Rider distance minus the cactus pacer position in km (positive = ahead)\n"@[2]);
    reveal_strlit("# TYPE madcap_rider_cactus_delta_km gauge\n");
    assert("# TYPE madcap_fast_upstream_errors_total counter\n"@[14] != "# TYPE madcap_rider_cactus_delta_km gauge\n"@[14]);
    reveal_strlit("# HELP madcap_rider_speed_kmh Current reported speed in km/h\n");
    assert("# TYPE madcap_fast_upstream_errors_total counter\n"@[2] != "# HELP madcap_rider_speed_kmh Current reported speed in km/h\n"@[2]);
    reveal_strlit("# TYPE madcap_rider_speed_kmh gauge\n");
    assert("# TYPE madcap_fast_upstream_errors_total counter\n"@[14] != "# TYPE madcap_rider_speed_kmh gauge\n"@[14]);
    reveal_strlit("# HELP madcap_rider_overall_rank Overall rank (1 = leader)\n");
    assert("# TYPE madcap_fast_upstream_errors_total counter\n"@[2] != "# HELP madcap_rider_overall_rank Overall rank (1 = leader)\n"@[2]);
    reveal_strlit("# TYPE madcap_rider_overall_rank gauge\n");
    assert("# TYPE madcap_fast_upstream_errors_total counter\n"@[14] != "# TYPE madcap_rider_overall_rank gauge\n"@[14]);
    reveal_strlit("# HELP madcap_rider_category_rank Rank within the rider's category\n");
    assert("# TYPE madcap_fast_upstream_errors_total counter\n"@[2] != "# HELP madcap_rider_category_rank Rank within the rider's category\n"@[2]);
    reveal_strlit("# TYPE madcap_rider_category_rank gauge\n");
    assert("# TYPE madcap_fast_upstream_errors_total counter\n"@[14] != "# TYPE madcap_rider_category_rank gauge\n"@[14]);
    reveal_strlit("# HELP madcap_rider_battery_pct Tracker battery percentage\n");
    assert("# TYPE madcap_fast_upstream_errors_total counter\n"@[2] != "# HELP madcap_rider_battery_pct Tracker battery percentage\n"@[2]);
    reveal_strlit("# TYPE madcap_rider_battery_pct gauge\n");
    assert("# TYPE madcap_fast_upstream_errors_total counter\n"@[14] != "# TYPE madcap_rider_battery_pct gauge\n"@[14]);
    reveal_strlit("# HELP madcap_rider_sleeping 1 if the rider is currently flagged sleeping, else 0\n");
    assert("# TYPE madcap_fast_upstream_errors_total counter\n"@[2] != "# HELP madcap_rider_sleeping 1 if the rider is currently flagged sleeping, else 0\n"@[2]);
    reveal_strlit("# TYPE madcap_rider_sleeping gauge\n");
    assert("# TYPE madcap_fast_upstream_errors_total counter\n"@[14] != "# TYPE madcap_rider_sleeping gauge\n"@[14]);
    reveal_strlit("# HELP madcap_rider_distance_to_next_cp_km Straight-line distance to the next checkpoint\n");
    assert("# TYPE madcap_fast_upstream_errors_total counter\n"@[2] != "# HELP madcap_rider_distance_to_next_cp_km Straight-line distance to the next checkpoint\n"@[2]);
    reveal_strlit("# TYPE madcap_rider_distance_to_next_cp_km gauge\n");
    assert("# TYPE madcap_fast_upstream_errors_total counter\n"@[14] != "# TYPE madcap_rider_distance_to_next_cp_km gauge\n"@[14]);
    assert forall|j: int| 7 < j < 44 implies header_lines()[7] != #[trigger] header_lines()[j] by {
    }
}

proof fn lemma_header_line_distinct_8()
    ensures
        forall|j: int| 8 < j < 44 ==> header_lines()[8] != #[trigger] header_lines()[j],
{
    reveal_strlit("# HELP madcap_fast_cache_age_seconds Age of the cached snapshot per slug\n");
    reveal_strlit("# TYPE madcap_fast_cache_age_seconds gauge\n");
    assert("# HELP madcap_fast_cache_age_seconds Age of the cached snapshot per slug\n"@[2] != "# TYPE madcap_fast_cache_age_seconds gauge\n"@[2]);
    reveal_strlit("# HELP madcap_fast_cache_body_bytes Raw JSON body size per cached slug\n");
    assert("# HELP madcap_fast_cache_age_seconds Age of the cached snapshot per slug\n"@[25] != "# HELP madcap_fast_cache_body_bytes Raw JSON body size per cached slug\n"@[25]);
    reveal_strlit("# TYPE madcap_fast_cache_body_bytes gauge\n");
    assert("# HELP madcap_fast_cache_age_seconds Age of the cached snapshot per slug\n"@[2] != "# TYPE madcap_fast_cache_body_bytes gauge\n"@[2]);
    reveal_strlit("# HELP madcap_fast_upstream_last_ms Last upstream refresh duration per slug\n");
    assert("# HELP madcap_fast_cache_age_seconds Age of the cached snapshot per slug\n"@[19] != "# HELP madcap_fast_upstream_last_ms Last upstream refresh duration per slug\n"@[19]);
    reveal_strlit("# TYPE madcap_fast_upstream_last_ms gauge\n");
    assert("# HELP madcap_fast_cache_age_seconds Age of the cached snapshot per slug\n"@[2] != "# TYPE madcap_fast_upstream_last_ms gauge\n"@[2]);
    reveal_strlit("# HELP madcap_event_total_km Advertised total course distance in km (parsed from info.distance)\n");
    assert("# HELP madcap_fast_cache_age_seconds Age of the cached snapshot per slug\n"@[14] != "# HELP madcap_event_total_km Advertised total course distance in km (parsed from info.distance)\n"@[14]);
    reveal_strlit("# TYPE madcap_event_total_km gauge\n");
    assert("# HELP madcap_fast_cache_age_seconds Age of the cached snapshot per slug\n"@[2] != "# TYPE madcap_event_total_km gauge\n"@[2]);
    reveal_strlit("# HELP madcap_event_cactus_km Virtual cactus pacer position in km (elapsed fraction of event time x total km)\n");
    assert("# HELP madcap_fast_cache_age_seconds Age of the cached snapshot per slug\n"@[14] != "# HELP madcap_event_cactus_km Virtual cactus pacer position in km (elapsed fraction of event time x total km)\n"@[14]);
    reveal_strlit("# TYPE madcap_event_cactus_km gauge\n");
    assert("# HELP madcap_fast_cache_age_seconds Age of the cached snapshot per slug\n"@[2] != "# TYPE madcap_event_cactus_km gauge\n"@[2]);
    reveal_strlit("# HELP madcap_event_participants Participant count in the event\n");
    assert("# HELP madcap_fast_cache_age_seconds Age of the cached snapshot per slug\n"@[14] != "# HELP madcap_event_participants Participant count in the event\n"@[14]);
    reveal_strlit("# TYPE madcap_event_participants gauge\n");
    assert("# HELP madcap_fast_cache_age_seconds Age of the cached snapshot per slug\n"@[2] != "# TYPE madcap_event_participants gauge\n"@[2]);
    reveal_strlit("# HELP madcap_event_active Riders with any ping or REGISTERED/ACTIVE status\n");
    assert("# HELP madcap_fast_cache_age_seconds Age of the cached snapshot per slug\n"@[14] != "# HELP madcap_event_active Riders with any ping or REGISTERED/ACTIVE status\n"@[14]);
    reveal_strlit("# TYPE madcap_event_active gauge\n");
    assert("# HELP madcap_fast_cache_age_seconds Age of the cached snapshot per slug\n"@[2] != "# TYPE madcap_event_active gauge\n"@[2]);
    reveal_strlit("# HELP madcap_event_sleeping Riders currently flagged sleeping\n");
    assert("# HELP madcap_fast_cache_age_seconds Age of the cached snapshot per slug\n"@[14] != "# HELP madcap_event_sleeping Riders currently flagged sleeping\n"@[14]);
    reveal_strlit("# TYPE madcap_event_sleeping gauge\n");
    assert("# HELP madcap_fast_cache_age_seconds Age of the cached snapshot per slug\n"@[2] != "# TYPE madcap_event_sleeping gauge\n"@[2]);
    reveal_strlit("# HELP madcap_event_started Riders with non-zero distance\n");
    assert("# HELP madcap_fast_cache_age_seconds Age of the cached snapshot per slug\n"@[14] != "# HELP madcap_event_started Riders with non-zero distance\n"@[14]);
    reveal_strlit("# TYPE madcap_event_started gauge\n");
    assert("# HELP madcap_fast_cache_age_seconds Age of the cached snapshot per slug\n"@[2] != "# TYPE madcap_event_started gauge\n"@[2]);
    reveal_strlit("# HELP madcap_event_finished Riders within 0.5 km of the course total\n");
    assert("# HELP madcap_fast_cache_age_seconds Age of the cached snapshot per slug\n"@[14] != "# HELP madcap_event_finished Riders within 0.5 km of the course total\n"@[14]);
    reveal_strlit("# TYPE madcap_event_finished gauge\n");
    assert("# HELP madcap_fast_cache_age_seconds Age of the cached snapshot per slug\n"@[2] != "# TYPE madcap_event_finished gauge\n"@[2]);
    reveal_strlit("# HELP madcap_rider_distance_km Distance covered by the rider in km\n");
    assert("# HELP madcap_fast_cache_age_seconds Age of the cached snapshot per slug\n"@[14] != "# HELP madcap_rider_distance_km Distance covered by the rider in km\n"@[14]);
    reveal_strlit("# TYPE madcap_rider_distance_km gauge\n");
    assert("# HELP madcap_fast_cache_age_seconds Age of the cached snapshot per slug\n"@[2] != "# TYPE madcap_rider_distance_km gauge\n"@[2]);
    reveal_strlit("# HELP madcap_rider_cactus_delta_km Rider distance minus the cactus pacer position in km (positive = ahead)\n");
    assert("# HELP madcap_fast_cache_age_seconds Age of the cached snapshot per slug\n"@[14] != "# HELP madcap_rider_cactus_delta_km Rider distance minus the cactus pacer position in km (positive = ahead)\n"@[14]);
    reveal_strlit("# TYPE madcap_rider_cactus_delta_km gauge\n");
    assert("# HELP madcap_fast_cache_age_seconds Age of the cached snapshot per slug\n"@[2] != "# TYPE madcap_rider_cactus_delta_km gauge\n"@[2]);
    reveal_strlit("# HELP madcap_rider_speed_kmh Current reported speed in km/h\n");
    assert("# HELP madcap_fast_cache_age_seconds Age of the cached snapshot per slug\n"@[14] != "# HELP madcap_rider_speed_kmh Current reported speed in km/h\n"@[14]);
    reveal_strlit("# TYPE madcap_rider_speed_kmh gauge\n");
    assert("# HELP madcap_fast_cache_age_seconds Age of the cached snapshot per slug\n"@[2] != "# TYPE madcap_rider_speed_kmh gauge\n"@[2]);
    reveal_strlit("# HELP madcap_rider_overall_rank Overall rank (1 = leader)\n");
    assert("# HELP madcap_fast_cache_age_seconds Age of the cached snapshot per slug\n"@[14] != "# HELP madcap_rider_overall_rank Overall rank (1 = leader)\n"@[14]);
    reveal_strlit("# TYPE madcap_rider_overall_rank gauge\n");
    assert("# HELP madcap_fast_cache_age_seconds Age of the cached snapshot per slug\n"@[2] != "# TYPE madcap_rider_overall_rank gauge\n"@[2]);
    reveal_strlit("# HELP madcap_rider_category_rank Rank within the rider's category\n");
    assert("# HELP madcap_fast_cache_age_seconds Age of the cached snapshot per slug\n"@[14] != "# HELP madcap_rider_category_rank Rank within the rider's category\n"@[14]);
    reveal_strlit("# TYPE madcap_rider_category_rank gauge\n");
    assert("# HELP madcap_fast_cache_age_seconds Age of the cached snapshot per slug\n"@[2] != "# TYPE madcap_rider_category_rank gauge\n"@[2]);
    reveal_strlit("# HELP madcap_rider_battery_pct Tracker battery percentage\n");
    assert("# HELP madcap_fast_cache_age_seconds Age of the cached snapshot per slug\n"@[14] != "# HELP madcap_rider_battery_pct Tracker battery percentage\n"@[14]);
    reveal_strlit("# TYPE madcap_rider_battery_pct gauge\n");
    assert("# HELP madcap_fast_cache_age_seconds Age of the cached snapshot per slug\n"@[2] != "# TYPE madcap_rider_battery_pct gauge\n"@[2]);
    reveal_strlit("# HELP madcap_rider_sleeping 1 if the rider is currently flagged sleeping, else 0\n");
    assert("# HELP madcap_fast_cache_age_seconds Age of the cached snapshot per slug\n"@[14] != "# HELP madcap_rider_sleeping 1 if the rider is currently flagged sleeping, else 0\n"@[14]);
    reveal_strlit("# TYPE madcap_rider_sleeping gauge\n");
    assert("# HELP madcap_fast_cache_age_seconds Age of the cached snapshot per slug\n"@[2] != "# TYPE madcap_rider_sleeping gauge\n"@[2]);
    reveal_strlit("# HELP madcap_rider_distance_to_next_cp_km Straight-line distance to the next checkpoint\n");
    assert("# HELP madcap_fast_cache_age_seconds Age of the cached snapshot per slug\n"@[14] != "# HELP madcap_rider_distance_to_next_cp_km Straight-line distance to the next checkpoint\n"@[14]);
    reveal_strlit("# TYPE madcap_rider_distance_to_next_cp_km gauge\n");
    assert("# HELP madcap_fast_cache_age_seconds Age of the cached snapshot per slug\n"@[2] != "# TYPE madcap_rider_distance_to_next_cp_km gauge\n"@[2]);
    assert forall|j: int| 8 < j < 44 implies header_lines()[8] != #[trigger] header_lines()[j] by {
    }
}

proof fn lemma_header_line_distinct_9()
    ensures
        forall|j: int| 9 < j < 44 ==> header_lines()[9] != #[trigger] header_lines()[j],
{
    reveal_strlit("# TYPE madcap_fast_cache_age_seconds gauge\n");
    reveal_strlit("# HELP madcap_fast_cache_body_bytes Raw JSON body size per cached slug\n");
    assert("# TYPE madcap_fast_cache_age_seconds gauge\n"@[2] != "# HELP madcap_fast_cache_body_bytes Raw JSON body size per cached slug\n"@[2]);
    reveal_strlit("# TYPE madcap_fast_cache_body_bytes gauge\n");
    assert("# TYPE madcap_fast_cache_age_seconds gauge\n"@[25] != "# TYPE madcap_fast_cache_body_bytes gauge\n"@[25]);
    reveal_strlit("# HELP madcap_fast_upstream_last_ms Last upstream refresh duration per slug\n");
    assert("# TYPE madcap_fast_cache_age_seconds gauge\n"@[2] != "# HELP madcap_fast_upstream_last_ms Last upstream refresh duration per slug\n"@[2]);
    reveal_strlit("# TYPE madcap_fast_upstream_last_ms gauge\n");
    assert("# TYPE madcap_fast_cache_age_seconds gauge\n"@[19] != "# TYPE madcap_fast_upstream_last_ms gauge\n"@[19]);
    reveal_strlit("# HELP madcap_event_total_km Advertised total course distance in km (parsed from info.distance)\n");
    assert("# TYPE madcap_fast_cache_age_seconds gauge\n"@[2] != "# HELP madcap_event_total_km Advertised total course distance in km (parsed from info.distance)\n"@[2]);
    reveal_strlit("# TYPE madcap_event_total_km gauge\n");
    assert("# TYPE madcap_fast_cache_age_seconds gauge\n"@[14] != "# TYPE madcap_event_total_km gauge\n"@[14]);
    reveal_strlit("# HELP madcap_event_cactus_km Virtual cactus pacer position in km (elapsed fraction of event time x total km)\n");
    assert("# TYPE madcap_fast_cache_age_seconds gauge\n"@[2] != "# HELP madcap_event_cactus_km Virtual cactus pacer position in km (elapsed fraction of event time x total km)\n"@[2]);
    reveal_strlit("# TYPE madcap_event_cactus_km gauge\n");
    assert("# TYPE madcap_fast_cache_age_seconds gauge\n"@[14] != "# TYPE madcap_event_cactus_km gauge\n"@[14]);
    reveal_strlit("# HELP madcap_event_participants Participant count in the event\n");
    assert("# TYPE madcap_fast_cache_age_seconds gauge\n"@[2] != "# HELP madcap_event_participants Participant count in the event\n"@[2]);
    reveal_strlit("# TYPE madcap_event_participants gauge\n");
    assert("# TYPE madcap_fast_cache_age_seconds gauge\n"@[14] != "# TYPE madcap_event_participants gauge\n"@[14]);
    reveal_strlit("# HELP madcap_event_active Riders with any ping or REGISTERED/ACTIVE status\n");
    assert("# TYPE madcap_fast_cache_age_seconds gauge\n"@[2] != "# HELP madcap_event_active Riders with any ping or REGISTERED/ACTIVE status\n"@[2]);
    reveal_strlit("# TYPE madcap_event_active gauge\n");
    assert("# TYPE madcap_fast_cache_age_seconds gauge\n"@[14] != "# TYPE madcap_event_active gauge\n"@[14]);
    reveal_strlit("# HELP madcap_event_sleeping Riders currently flagged sleeping\n");
    assert("# TYPE madcap_fast_cache_age_seconds gauge\n"@[2] != "# HELP madcap_event_sleeping Riders currently flagged sleeping\n"@[2]);
    reveal_strlit("# TYPE madcap_event_sleeping gauge\n");
    assert("# TYPE madcap_fast_cache_age_seconds gauge\n"@[14] != "# TYPE madcap_event_sleeping gauge\n"@[14]);
    reveal_strlit("# HELP madcap_event_started Riders with non-zero distance\n");
    assert("# TYPE madcap_fast_cache_age_seconds gauge\n"@[2] != "# HELP madcap_event_started Riders with non-zero distance\n"@[2]);
    reveal_strlit("# TYPE madcap_event_started gauge\n");
    assert("# TYPE madcap_fast_cache_age_seconds gauge\n"@[14] != "# TYPE madcap_event_started gauge\n"@[14]);
    reveal_strlit("# HELP madcap_event_finished Riders within 0.5 km of the course total\n");
    assert("# TYPE madcap_fast_cache_age_seconds gauge\n"@[2] != "# HELP madcap_event_finished Riders within 0.5 km of the course total\n"@[2]);
    reveal_strlit("# TYPE madcap_event_finished gauge\n");
    assert("# TYPE madcap_fast_cache_age_seconds gauge\n"@[14] != "# TYPE madcap_event_finished gauge\n"@[14]);
    reveal_strlit("# HELP madcap_rider_distance_km Distance covered by the rider in km\n");
    assert("# TYPE madcap_fast_cache_age_seconds gauge\n"@[2] != "# HELP madcap_rider_distance_km Distance covered by the rider in km\n"@[2]);
    reveal_strlit("# TYPE madcap_rider_distance_km gauge\n");
    assert("# TYPE madcap_fast_cache_age_seconds gauge\n"@[14] != "# TYPE madcap_rider_distance_km gauge\n"@[14]);
    reveal_strlit("# HELP madcap_rider_cactus_delta_km Rider distance minus the cactus pacer position in km (positive = ahead)\n");
    assert("# TYPE madcap_fast_cache_age_seconds gauge\n"@[2] != "# HELP madcap_rider_cactus_delta_km Rider distance minus the cactus pacer position in km (positive = ahead)\n"@[2]);
    reveal_strlit("# TYPE madcap_rider_cactus_delta_km gauge\n");
    assert("# TYPE madcap_fast_cache_age_seconds gauge\n"@[14] != "# TYPE madcap_rider_cactus_delta_km gauge\n"@[14]);
    reveal_strlit("# HELP madcap_rider_speed_kmh Current reported speed in km/h\n");
    assert("# TYPE madcap_fast_cache_age_seconds gauge\n"@[2] != "# HELP madcap_rider_speed_kmh Current reported speed in km/h\n"@[2]);
    reveal_strlit("# TYPE madcap_rider_speed_kmh gauge\n");
    assert("# TYPE madcap_fast_cache_age_seconds gauge\n"@[14] != "# TYPE madcap_rider_speed_kmh gauge\n"@[14]);
    reveal_strlit("# HELP madcap_rider_overall_rank Overall rank (1 = leader)\n");
    assert("# TYPE madcap_fast_cache_age_seconds gauge\n"@[2] != "# HELP madcap_rider_overall_rank Overall rank (1 = leader)\n"@[2]);
    reveal_strlit("# TYPE madcap_rider_overall_rank gauge\n");
    assert("# TYPE madcap_fast_cache_age_seconds gauge\n"@[14] != "# TYPE madcap_rider_overall_rank gauge\n"@[14]);
    reveal_strlit("# HELP madcap_rider_category_rank Rank within the rider's category\n");
    assert("# TYPE madcap_fast_cache_age_seconds gauge\n"@[2] != "# HELP madcap_rider_category_rank Rank within the rider's category\n"@[2]);
    reveal_strlit("# TYPE madcap_rider_category_rank gauge\n");
    assert("# TYPE madcap_fast_cache_age_seconds gauge\n"@[14] != "# TYPE madcap_rider_category_rank gauge\n"@[14]);
    reveal_strlit("# HELP madcap_rider_battery_pct Tracker battery percentage\n");
    assert("# TYPE madcap_fast_cache_age_seconds gauge\n"@[2] != "# HELP madcap_rider_battery_pct Tracker battery percentage\n"@[2]);
    reveal_strlit("# TYPE madcap_rider_battery_pct gauge\n");
    assert("# TYPE madcap_fast_cache_age_seconds gauge\n"@[14] != "# TYPE madcap_rider_battery_pct gauge\n"@[14]);
    reveal_strlit("# HELP madcap_rider_sleeping 1 if the rider is currently flagged sleeping, else 0\n");
    assert("# TYPE madcap_fast_cache_age_seconds gauge\n"@[2] != "# HELP madcap_rider_sleeping 1 if the rider is currently flagged sleeping, else 0\n"@[2]);
    reveal_strlit("# TYPE madcap_rider_sleeping gauge\n");
    assert("# TYPE madcap_fast_cache_age_seconds gauge\n"@[14] != "# TYPE madcap_rider_sleeping gauge\n"@[14]);
    reveal_strlit("# HELP madcap_rider_distance_to_next_cp_km Straight-line distance to the next checkpoint\n");
    assert("# TYPE madcap_fast_cache_age_seconds gauge\n"@[2] != "# HELP madcap_rider_distance_to_next_cp_km Straight-line distance to the next checkpoint\n"@[2]);
    reveal_strlit("# TYPE madcap_rider_distance_to_next_cp_km gauge\n");
    assert("# TYPE madcap_fast_cache_age_seconds gauge\n"@[14] != "# TYPE madcap_rider_distance_to_next_cp_km gauge\n"@[14]);
    assert forall|j: int| 9 < j < 44 implies header_lines()[9] != #[trigger] header_lines()[j] by {
    }
}

proof fn lemma_header_line_distinct_10()
    ensures
        forall|j: int| 10 < j < 44 ==> header_lines()[10] != #[trigger] header_lines()[j],
{
    reveal_strlit("# HELP madcap_fast_cache_body_bytes Raw JSON body size per cached slug\n");
    reveal_strlit("# TYPE madcap_fast_cache_body_bytes gauge\n");
    assert("# HELP madcap_fast_cache_body_bytes Raw JSON body size per cached slug\n"@[2] != "# TYPE madcap_fast_cache_body_bytes gauge\n"@[2]);
    reveal_strlit("# HELP madcap_fast_upstream_last_ms Last upstream refresh duration per slug\n");
    assert("# HELP madcap_fast_cache_body_bytes Raw JSON body size per cached slug\n"@[19] != "# HELP madcap_fast_upstream_last_ms Last upstream refresh duration per slug\n"@[19]);
    reveal_strlit("# TYPE madcap_fast_upstream_last_ms gauge\n");
    assert("# HELP madcap_fast_cache_body_bytes Raw JSON body size per cached slug\n"@[2] != "# TYPE madcap_fast_upstream_last_ms gauge\n"@[2]);
    reveal_strlit("# HELP madcap_event_total_km Advertised total course distance in km (parsed from info.distance)\n");
    assert("# HELP madcap_fast_cache_body_bytes Raw JSON body size per cached slug\n"@[14] != "# HELP madcap_event_total_km Advertised total course distance in km (parsed from info.distance)\n"@[14]);
    reveal_strlit("# TYPE madcap_event_total_km gauge\n");
    assert("# HELP madcap_fast_cache_body_bytes Raw JSON body size per cached slug\n"@[2] != "# TYPE madcap_event_total_km gauge\n"@[2]);
    reveal_strlit("# HELP madcap_event_cactus_km Virtual cactus pacer position in km (elapsed fraction of event time x total km)\n");
    assert("# HELP madcap_fast_cache_body_bytes Raw JSON body size per cached slug\n"@[14] != "# HELP madcap_event_cactus_km Virtual cactus pacer position in km (elapsed fraction of event time x total km)\n"@[14]);
    reveal_strlit("# TYPE madcap_event_cactus_km gauge\n");
    assert("# HELP madcap_fast_cache_body_bytes Raw JSON body size per cached slug\n"@[2] != "# TYPE madcap_event_cactus_km gauge\n"@[2]);
    reveal_strlit("# HELP madcap_event_participants Participant count in the event\n");
    assert("# HELP madcap_fast_cache_body_bytes Raw JSON body size per cached slug\n"@[14] != "# HELP madcap_event_participants Participant count in the event\n"@[14]);
    reveal_strlit("# TYPE madcap_event_participants gauge\n");
    assert("# HELP madcap_fast_cache_body_bytes Raw JSON body size per cached slug\n"@[2] != "# TYPE madcap_event_participants gauge\n"@[2]);
    reveal_strlit("# HELP madcap_event_active Riders with any ping or REGISTERED/ACTIVE status\n");
    assert("# HELP madcap_fast_cache_body_bytes Raw JSON body size per cached slug\n"@[14] != "# HELP madcap_event_active Riders with any ping or REGISTERED/ACTIVE status\n"@[14]);
    reveal_strlit("# TYPE madcap_event_active gauge\n");
    assert("# HELP madcap_fast_cache_body_bytes Raw JSON body size per cached slug\n"@[2] != "# TYPE madcap_event_active gauge\n"@[2]);
    reveal_strlit("# HELP madcap_event_sleeping Riders currently flagged sleeping\n");
    assert("# HELP madcap_fast_cache_body_bytes Raw JSON body size per cached slug\n"@[14] != "# HELP madcap_event_sleeping Riders currently flagged sleeping\n"@[14]);
    reveal_strlit("# TYPE madcap_event_sleeping gauge\n");
    assert("# HELP madcap_fast_cache_body_bytes Raw JSON body size per cached slug\n"@[2] != "# TYPE madcap_event_sleeping gauge\n"@[2]);
    reveal_strlit("# HELP madcap_event_started Riders with non-zero distance\n");
    assert("# HELP madcap_fast_cache_body_bytes Raw JSON body size per cached slug\n"@[14] != "# HELP madcap_event_started Riders with non-zero distance\n"@[14]);
    reveal_strlit("# TYPE madcap_event_started gauge\n");
    assert("# HELP madcap_fast_cache_body_bytes Raw JSON body size per cached slug\n"@[2] != "# TYPE madcap_event_started gauge\n"@[2]);
    reveal_strlit("# HELP madcap_event_finished Riders within 0.5 km of the course total\n");
    assert("# HELP madcap_fast_cache_body_bytes Raw JSON body size per cached slug\n"@[14] != "# HELP madcap_event_finished Riders within 0.5 km of the course total\n"@[14]);
    reveal_strlit("# TYPE madcap_event_finished gauge\n");
    assert("# HELP madcap_fast_cache_body_bytes Raw JSON body size per cached slug\n"@[2] != "# TYPE madcap_event_finished gauge\n"@[2]);
    reveal_strlit("# HELP madcap_rider_distance_km Distance covered by the rider in km\n");
    assert("# HELP madcap_fast_cache_body_bytes Raw JSON body size per cached slug\n"@[14] != "# HELP madcap_rider_distance_km Distance covered by the rider in km\n"@[14]);
    reveal_strlit("# TYPE madcap_rider_distance_km gauge\n");
    assert("# HELP madcap_fast_cache_body_bytes Raw JSON body size per cached slug\n"@[2] != "# TYPE madcap_rider_distance_km gauge\n"@[2]);
    reveal_strlit("# HELP madcap_rider_cactus_delta_km Rider distance minus the cactus pacer position in km (positive = ahead)\n");
    assert("# HELP madcap_fast_cache_body_bytes Raw JSON body size per cached slug\n"@[14] != "# HELP madcap_rider_cactus_delta_km Rider distance minus the cactus pacer position in km (positive = ahead)\n"@[14]);
    reveal_strlit("# TYPE madcap_rider_cactus_delta_km gauge\n");
    assert("# HELP madcap_fast_cache_body_bytes Raw JSON body size per cached slug\n"@[2] != "# TYPE madcap_rider_cactus_delta_km gauge\n"@[2]);
    reveal_strlit("# HELP madcap_rider_speed_kmh Current reported speed in km/h\n");
    assert("# HELP madcap_fast_cache_body_bytes Raw JSON body size per cached slug\n"@[14] != "# HELP madcap_rider_speed_kmh Current reported speed in km/h\n"@[14]);
    reveal_strlit("# TYPE madcap_rider_speed_kmh gauge\n");
    assert("# HELP madcap_fast_cache_body_bytes Raw JSON body size per cached slug\n"@[2] != "# TYPE madcap_rider_speed_kmh gauge\n"@[2]);
    reveal_strlit("# HELP madcap_rider_overall_rank Overall rank (1 = leader)\n");
    assert("# HELP madcap_fast_cache_body_bytes Raw JSON body size per cached slug\n"@[14] != "# HELP madcap_rider_overall_rank Overall rank (1 = leader)\n"@[14]);
    reveal_strlit("# TYPE madcap_rider_overall_rank gauge\n");
    assert("# HELP madcap_fast_cache_body_bytes Raw JSON body size per cached slug\n"@[2] != "# TYPE madcap_rider_overall_rank gauge\n"@[2]);
    reveal_strlit("# HELP madcap_rider_category_rank Rank within the rider's category\n");
    assert("# HELP madcap_fast_cache_body_bytes Raw JSON body size per cached slug\n"@[14] != "# HELP madcap_rider_category_rank Rank within the rider's category\n"@[14]);
    reveal_strlit("# TYPE madcap_rider_category_rank gauge\n");
    assert("# HELP madcap_fast_cache_body_bytes Raw JSON body size per cached slug\n"@[2] != "# TYPE madcap_rider_category_rank gauge\n"@[2]);
    reveal_strlit("# HELP madcap_rider_battery_pct Tracker battery percentage\n");
    assert("# HELP madcap_fast_cache_body_bytes Raw JSON body size per cached slug\n"@[14] != "# HELP madcap_rider_battery_pct Tracker battery percentage\n"@[14]);
    reveal_strlit("# TYPE madcap_rider_battery_pct gauge\n");
    assert("# HELP madcap_fast_cache_body_bytes Raw JSON body size per cached slug\n"@[2] != "# TYPE madcap_rider_battery_pct gauge\n"@[2]);
    reveal_strlit("# HELP madcap_rider_sleeping 1 if the rider is currently flagged sleeping, else 0\n");
    assert("# HELP madcap_fast_cache_body_bytes Raw JSON body size per cached slug\n"@[14] != "# HELP madcap_rider_sleeping 1 if the rider is currently flagged sleeping, else 0\n"@[14]);
    reveal_strlit("# TYPE madcap_rider_sleeping gauge\n");
    assert("# HELP madcap_fast_cache_body_bytes Raw JSON body size per cached slug\n"@[2] != "# TYPE madcap_rider_sleeping gauge\n"@[2]);
    reveal_strlit("# HELP madcap_rider_distance_to_next_cp_km Straight-line distance to the next checkpoint\n");
    assert("# HELP madcap_fast_cache_body_bytes Raw JSON body size per cached slug\n"@[14] != "# HELP madcap_rider_distance_to_next_cp_km Straight-line distance to the next checkpoint\n"@[14]);
    reveal_strlit("# TYPE madcap_rider_distance_to_next_cp_km gauge\n");
    assert("# HELP madcap_fast_cache_body_bytes Raw JSON body size per cached slug\n"@[2] != "# TYPE madcap_rider_distance_to_next_cp_km gauge\n"@[2]);
    assert forall|j: int| 10 < j < 44 implies header_lines()[10] != #[trigger] header_lines()[j] by {
    }
}

proof fn lemma_header_line_distinct_11()
    ensures
        forall|j: int| 11 < j < 44 ==> header_lines()[11] != #[trigger] header_lines()[j],
{
    reveal_strlit("# TYPE madcap_fast_cache_body_bytes gauge\n");
    reveal_strlit("# HELP madcap_fast_upstream_last_ms Last upstream refresh duration per slug\n");
    assert("# TYPE madcap_fast_cache_body_bytes gauge\n"@[2] != "# HELP madcap_fast_upstream_last_ms Last upstream refresh duration per slug\n"@[2]);
    reveal_strlit("# TYPE madcap_fast_upstream_last_ms gauge\n");
    assert("# TYPE madcap_fast_cache_body_bytes gauge\n"@[19] != "# TYPE madcap_fast_upstream_last_ms gauge\n"@[19]);
    reveal_strlit("# HELP madcap_event_total_km Advertised total course distance in km (parsed from info.distance)\n");
    assert("# TYPE madcap_fast_cache_body_bytes gauge\n"@[2] != "# HELP madcap_event_total_km Advertised total course distance in km (parsed from info.distance)\n"@[2]);
    reveal_strlit("# TYPE madcap_event_total_km gauge\n");
    assert("# TYPE madcap_fast_cache_body_bytes gauge\n"@[14] != "# TYPE madcap_event_total_km gauge\n"@[14]);
    reveal_strlit("# HELP madcap_event_cactus_km Virtual cactus pacer position in km (elapsed fraction of event time x total km)\n");
    assert("# TYPE madcap_fast_cache_body_bytes gauge\n"@[2] != "# HELP madcap_event_cactus_km Virtual cactus pacer position in km (elapsed fraction of event time x total km)\n"@[2]);
    reveal_strlit("# TYPE madcap_event_cactus_km gauge\n");
    assert("# TYPE madcap_fast_cache_body_bytes gauge\n"@[14] != "# TYPE madcap_event_cactus_km gauge\n"@[14]);
    reveal_strlit("# HELP madcap_event_participants Participant count in the event\n");
    assert("# TYPE madcap_fast_cache_body_bytes gauge\n"@[2] != "# HELP madcap_event_participants Participant count in the event\n"@[2]);
    reveal_strlit("# TYPE madcap_event_participants gauge\n");
    assert("# TYPE madcap_fast_cache_body_bytes gauge\n"@[14] != "# TYPE madcap_event_participants gauge\n"@[14]);
    reveal_strlit("# HELP madcap_event_active Riders with any ping or REGISTERED/ACTIVE status\n");
    assert("# TYPE madcap_fast_cache_body_bytes gauge\n"@[2] != "# HELP madcap_event_active Riders with any ping or REGISTERED/ACTIVE status\n"@[2]);
    reveal_strlit("# TYPE madcap_event_active gauge\n");
    assert("# TYPE madcap_fast_cache_body_bytes gauge\n"@[14] != "# TYPE madcap_event_active gauge\n"@[14]);
    reveal_strlit("# HELP madcap_event_sleeping Riders currently flagged sleeping\n");
    assert("# TYPE madcap_fast_cache_body_bytes gauge\n"@[2] != "# HELP madcap_event_sleeping Riders currently flagged sleeping\n"@[2]);
    reveal_strlit("# TYPE madcap_event_sleeping gauge\n");
    assert("# TYPE madcap_fast_cache_body_bytes gauge\n"@[14] != "# TYPE madcap_event_sleeping gauge\n"@[14]);
    reveal_strlit("# HELP madcap_event_started Riders with non-zero distance\n");
    assert("# TYPE madcap_fast_cache_body_bytes gauge\n"@[2] != "# HELP madcap_event_started Riders with non-zero distance\n"@[2]);
    reveal_strlit("# TYPE madcap_event_started gauge\n");
    assert("# TYPE madcap_fast_cache_body_bytes gauge\n"@[14] != "# TYPE madcap_event_started gauge\n"@[14]);
    reveal_strlit("# HELP madcap_event_finished Riders within 0.5 km of the course total\n");
    assert("# TYPE madcap_fast_cache_body_bytes gauge\n"@[2] != "# HELP madcap_event_finished Riders within 0.5 km of the course total\n"@[2]);
    reveal_strlit("# TYPE madcap_event_finished gauge\n");
    assert("# TYPE madcap_fast_cache_body_bytes gauge\n"@[14] != "# TYPE madcap_event_finished gauge\n"@[14]);
    reveal_strlit("# HELP madcap_rider_distance_km Distance covered by the rider in km\n");
    assert("# TYPE madcap_fast_cache_body_bytes gauge\n"@[2] != "# HELP madcap_rider_distance_km Distance covered by the rider in km\n"@[2]);
    reveal_strlit("# TYPE madcap_rider_distance_km gauge\n");
    assert("# TYPE madcap_fast_cache_body_bytes gauge\n"@[14] != "# TYPE madcap_rider_distance_km gauge\n"@[14]);
    reveal_strlit("# HELP madcap_rider_cactus_delta_km Rider distance minus the cactus pacer position in km (positive = ahead)\n");
    assert("# TYPE madcap_fast_cache_body_bytes gauge\n"@[2] != "# HELP madcap_rider_cactus_delta_km Rider distance minus the cactus pacer position in km (positive = ahead)\n"@[2]);
    reveal_strlit("# TYPE madcap_rider_cactus_delta_km gauge\n");
    assert("# TYPE madcap_fast_cache_body_bytes gauge\n"@[14] != "# TYPE madcap_rider_cactus_delta_km gauge\n"@[14]);
    reveal_strlit("# HELP madcap_rider_speed_kmh Current reported speed in km/h\n");
    assert("# TYPE madcap_fast_cache_body_bytes gauge\n"@[2] != "# HELP madcap_rider_speed_kmh Current reported speed in km/h\n"@[2]);
    reveal_strlit("# TYPE madcap_rider_speed_kmh gauge\n");
    assert("# TYPE madcap_fast_cache_body_bytes gauge\n"@[14] != "# TYPE madcap_rider_speed_kmh gauge\n"@[14]);
    reveal_strlit("# HELP madcap_rider_overall_rank Overall rank (1 = leader)\n");
    assert("# TYPE madcap_fast_cache_body_bytes gauge\n"@[2] != "# HELP madcap_rider_overall_rank Overall rank (1 = leader)\n"@[2]);
    reveal_strlit("# TYPE madcap_rider_overall_rank gauge\n");
    assert("# TYPE madcap_fast_cache_body_bytes gauge\n"@[14] != "# TYPE madcap_rider_overall_rank gauge\n"@[14]);
    reveal_strlit("# HELP madcap_rider_category_rank Rank within the rider's category\n");
    assert("# TYPE madcap_fast_cache_body_bytes gauge\n"@[2] != "# HELP madcap_rider_category_rank Rank within the rider's category\n"@[2]);
    reveal_strlit("# TYPE madcap_rider_category_rank gauge\n");
    assert("# TYPE madcap_fast_cache_body_bytes gauge\n"@[14] != "# TYPE madcap_rider_category_rank gauge\n"@[14]);
    reveal_strlit("# HELP madcap_rider_battery_pct Tracker battery percentage\n");
    assert("# TYPE madcap_fast_cache_body_bytes gauge\n"@[2] != "# HELP madcap_rider_battery_pct Tracker battery percentage\n"@[2]);
    reveal_strlit("# TYPE madcap_rider_battery_pct gauge\n");
    assert("# TYPE madcap_fast_cache_body_bytes gauge\n"@[14] != "# TYPE madcap_rider_battery_pct gauge\n"@[14]);
    reveal_strlit("# HELP madcap_rider_sleeping 1 if the rider is currently flagged sleeping, else 0\n");
    assert("# TYPE madcap_fast_cache_body_bytes gauge\n"@[2] != "# HELP madcap_rider_sleeping 1 if the rider is currently flagged sleeping, else 0\n"@[2]);
    reveal_strlit("# TYPE madcap_rider_sleeping gauge\n");
    assert("# TYPE madcap_fast_cache_body_bytes gauge\n"@[14] != "# TYPE madcap_rider_sleeping gauge\n"@[14]);
    reveal_strlit("# HELP madcap_rider_distance_to_next_cp_km Straight-line distance to the next checkpoint\n");
    assert("# TYPE madcap_fast_cache_body_bytes gauge\n"@[2] != "# HELP madcap_rider_distance_to_next_cp_km Straight-line distance to the next checkpoint\n"@[2]);
    reveal_strlit("# TYPE madcap_rider_distance_to_next_cp_km gauge\n");
    assert("# TYPE madcap_fast_cache_body_bytes gauge\n"@[14] != "# TYPE madcap_rider_distance_to_next_cp_km gauge\n"@[14]);
    assert forall|j: int| 11 < j < 44 implies header_lines()[11] != #[trigger] header_lines()[j] by {
    }
}

proof fn lemma_header_line_distinct_12()
    ensures
        forall|j: int| 12 < j < 44 ==> header_lines()[12] != #[trigger] header_lines()[j],
{
    reveal_strlit("# HELP madcap_fast_upstream_last_ms Last upstream refresh duration per slug\n");
    reveal_strlit("# TYPE madcap_fast_upstream_last_ms gauge\n");
    assert("# HELP madcap_fast_upstream_last_ms Last upstream refresh duration per slug\n"@[2] != "# TYPE madcap_fast_upstream_last_ms gauge\n"@[2]);
    reveal_strlit("# HELP madcap_event_total_km Advertised total course distance in km (parsed from info.distance)\n");
    assert("# HELP madcap_fast_upstream_last_ms Last upstream refresh duration per slug\n"@[14] != "# HELP madcap_event_total_km Advertised total course distance in km (parsed from info.distance)\n"@[14]);
    reveal_strlit("# TYPE madcap_event_total_km gauge\n");
    assert("# HELP madcap_fast_upstream_last_ms Last upstream refresh duration per slug\n"@[2] != "# TYPE madcap_event_total_km gauge\n"@[2]);
    reveal_strlit("# HELP madcap_event_cactus_km Virtual cactus pacer position in km (elapsed fraction of event time x total km)\n");
    assert("# HELP madcap_fast_upstream_last_ms Last upstream refresh duration per slug\n"@[14] != "# HELP madcap_event_cactus_km Virtual cactus pacer position in km (elapsed fraction of event time x total km)\n"@[14]);
    reveal_strlit("# TYPE madcap_event_cactus_km gauge\n");
    assert("# HELP madcap_fast_upstream_last_ms Last upstream refresh duration per slug\n"@[2] != "# TYPE madcap_event_cactus_km gauge\n"@[2]);
    reveal_strlit("# HELP madcap_event_participants Participant count in the event\n");
    assert("# HELP madcap_fast_upstream_last_ms Last upstream refresh duration per slug\n"@[14] != "# HELP madcap_event_participants Participant count in the event\n"@[14]);
    reveal_strlit("# TYPE madcap_event_participants gauge\n");
    assert("# HELP madcap_fast_upstream_last_ms Last upstream refresh duration per slug\n"@[2] != "# TYPE madcap_event_participants gauge\n"@[2]);
    reveal_strlit("# HELP madcap_event_active Riders with any ping or REGISTERED/ACTIVE status\n");
    assert("# HELP madcap_fast_upstream_last_ms Last upstream refresh duration per slug\n"@[14] != "# HELP madcap_event_active Riders with any ping or REGISTERED/ACTIVE status\n"@[14]);
    reveal_strlit("# TYPE madcap_event_active gauge\n");
    assert("# HELP madcap_fast_upstream_last_ms Last upstream refresh duration per slug\n"@[2] != "# TYPE madcap_event_active gauge\n"@[2]);
    reveal_strlit("# HELP madcap_event_sleeping Riders currently flagged sleeping\n");
    assert("# HELP madcap_fast_upstream_last_ms Last upstream refresh duration per slug\n"@[14] != "# HELP madcap_event_sleeping Riders currently flagged sleeping\n"@[14]);
    reveal_strlit("# TYPE madcap_event_sleeping gauge\n");
    assert("# HELP madcap_fast_upstream_last_ms Last upstream refresh duration per slug\n"@[2] != "# TYPE madcap_event_sleeping gauge\n"@[2]);
    reveal_strlit("# HELP madcap_event_started Riders with non-zero distance\n");
    assert("# HELP madcap_fast_upstream_last_ms Last upstream refresh duration per slug\n"@[14] != "# HELP madcap_event_started Riders with non-zero distance\n"@[14]);
    reveal_strlit("# TYPE madcap_event_started gauge\n");
    assert("# HELP madcap_fast_upstream_last_ms Last upstream refresh duration per slug\n"@[2] != "# TYPE madcap_event_started gauge\n"@[2]);
    reveal_strlit("# HELP madcap_event_finished Riders within 0.5 km of the course total\n");
    assert("# HELP madcap_fast_upstream_last_ms Last upstream refresh duration per slug\n"@[14] != "# HELP madcap_event_finished Riders within 0.5 km of the course total\n"@[14]);
    reveal_strlit("# TYPE madcap_event_finished gauge\n");
    assert("# HELP madcap_fast_upstream_last_ms Last upstream refresh duration per slug\n"@[2] != "# TYPE madcap_event_finished gauge\n"@[2]);
    reveal_strlit("# HELP madcap_rider_distance_km Distance covered by the rider in km\n");
    assert("# HELP madcap_fast_upstream_last_ms Last upstream refresh duration per slug\n"@[14] != "# HELP madcap_rider_distance_km Distance covered by the rider in km\n"@[14]);
    reveal_strlit("# TYPE madcap_rider_distance_km gauge\n");
    assert("# HELP madcap_fast_upstream_last_ms Last upstream refresh duration per slug\n"@[2] != "# TYPE madcap_rider_distance_km gauge\n"@[2]);
    reveal_strlit("# HELP madcap_rider_cactus_delta_km Rider distance minus the cactus pacer position in km (positive = ahead)\n");
    assert("# HELP madcap_fast_upstream_last_ms Last upstream refresh duration per slug\n"@[14] != "# HELP madcap_rider_cactus_delta_km Rider distance minus the cactus pacer position in km (positive = ahead)\n"@[14]);
    reveal_strlit("# TYPE madcap_rider_cactus_delta_km gauge\n");
    assert("# HELP madcap_fast_upstream_last_ms Last upstream refresh duration per slug\n"@[2] != "# TYPE madcap_rider_cactus_delta_km gauge\n"@[2]);
    reveal_strlit("# HELP madcap_rider_speed_kmh Current reported speed in km/h\n");
    assert("# HELP madcap_fast_upstream_last_ms Last upstream refresh duration per slug\n"@[14] != "# HELP madcap_rider_speed_kmh Current reported speed in km/h\n"@[14]);
    reveal_strlit("# TYPE madcap_rider_speed_kmh gauge\n");
    assert("# HELP madcap_fast_upstream_last_ms Last upstream refresh duration per slug\n"@[2] != "# TYPE madcap_rider_speed_kmh gauge\n"@[2]);
    reveal_strlit("# HELP madcap_rider_overall_rank Overall rank (1 = leader)\n");
    assert("# HELP madcap_fast_upstream_last_ms Last upstream refresh duration per slug\n"@[14] != "# HELP madcap_rider_overall_rank Overall rank (1 = leader)\n"@[14]);
    reveal_strlit("# TYPE madcap_rider_overall_rank gauge\n");
    assert("# HELP madcap_fast_upstream_last_ms Last upstream refresh duration per slug\n"@[2] != "# TYPE madcap_rider_overall_rank gauge\n"@[2]);
    reveal_strlit("# HELP madcap_rider_category_rank Rank within the rider's category\n");
    assert("# HELP madcap_fast_upstream_last_ms Last upstream refresh duration per slug\n"@[14] != "# HELP madcap_rider_category_rank Rank within the rider's category\n"@[14]);
    reveal_strlit("# TYPE madcap_rider_category_rank gauge\n");
    assert("# HELP madcap_fast_upstream_last_ms Last upstream refresh duration per slug\n"@[2] != "# TYPE madcap_rider_category_rank gauge\n"@[2]);
    reveal_strlit("# HELP madcap_rider_battery_pct Tracker battery percentage\n");
    assert("# HELP madcap_fast_upstream_last_ms Last upstream refresh duration per slug\n"@[14] != "# HELP madcap_rider_battery_pct Tracker battery percentage\n"@[14]);
    reveal_strlit("# TYPE madcap_rider_battery_pct gauge\n");
    assert("# HELP madcap_fast_upstream_last_ms Last upstream refresh duration per slug\n"@[2] != "# TYPE madcap_rider_battery_pct gauge\n"@[2]);
    reveal_strlit("# HELP madcap_rider_sleeping 1 if the rider is currently flagged sleeping, else 0\n");
    assert("# HELP madcap_fast_upstream_last_ms Last upstream refresh duration per slug\n"@[14] != "# HELP madcap_rider_sleeping 1 if the rider is currently flagged sleeping, else 0\n"@[14]);
    reveal_strlit("# TYPE madcap_rider_sleeping gauge\n");
    assert("# HELP madcap_fast_upstream_last_ms Last upstream refresh duration per slug\n"@[2] != "# TYPE madcap_rider_sleeping gauge\n"@[2]);
    reveal_strlit("# HELP madcap_rider_distance_to_next_cp_km Straight-line distance to the next checkpoint\n");
    assert("# HELP madcap_fast_upstream_last_ms Last upstream refresh duration per slug\n"@[14] != "# HELP madcap_rider_distance_to_next_cp_km Straight-line distance to the next checkpoint\n"@[14]);
    reveal_strlit("# TYPE madcap_rider_distance_to_next_cp_km gauge\n");
    assert("# HELP madcap_fast_upstream_last_ms Last upstream refresh duration per slug\n"@[2] != "# TYPE madcap_rider_distance_to_next_cp_km gauge\n"@[2]);
    assert forall|j: int| 12 < j < 44 implies header_lines()[12] != #[trigger] header_lines()[j] by {
    }
}

proof fn lemma_header_line_distinct_13()
    ensures
        forall|j: int| 13 < j < 44 ==> header_lines()[13] != #[trigger] header_lines()[j],
{
    reveal_strlit("# TYPE madcap_fast_upstream_last_ms gauge\n");
    reveal_strlit("# HELP madcap_event_total_km Advertised total course distance in km (parsed from info.distance)\n");
    assert("# TYPE madcap_fast_upstream_last_ms gauge\n"@[2] != "# HELP madcap_event_total_km Advertised total course distance in km (parsed from info.distance)\n"@[2]);
    reveal_strlit("# TYPE madcap_event_total_km gauge\n");
    assert("# TYPE madcap_fast_upstream_last_ms gauge\n"@[14] != "# TYPE madcap_event_total_km gauge\n"@[14]);
    reveal_strlit("# HELP madcap_event_cactus_km Virtual cactus pacer position in km (elapsed fraction of event time x total km)\n");
    assert("# TYPE madcap_fast_upstream_last_ms gauge\n"@[2] != "# HELP madcap_event_cactus_km Virtual cactus pacer position in km (elapsed fraction of event time x total km)\n"@[2]);
    reveal_strlit("# TYPE madcap_event_cactus_km gauge\n");
    assert("# TYPE madcap_fast_upstream_last_ms gauge\n"@[14] != "# TYPE madcap_event_cactus_km gauge\n"@[14]);
    reveal_strlit("# HELP madcap_event_participants Participant count in the event\n");
    assert("# TYPE madcap_fast_upstream_last_ms gauge\n"@[2] != "# HELP madcap_event_participants Participant count in the event\n"@[2]);
    reveal_strlit("# TYPE madcap_event_participants gauge\n");
    assert("# TYPE madcap_fast_upstream_last_ms gauge\n"@[14] != "# TYPE madcap_event_participants gauge\n"@[14]);
    reveal_strlit("# HELP madcap_event_active Riders with any ping or REGISTERED/ACTIVE status\n");
    assert("# TYPE madcap_fast_upstream_last_ms gauge\n"@[2] != "# HELP madcap_event_active Riders with any ping or REGISTERED/ACTIVE status\n"@[2]);
    reveal_strlit("# TYPE madcap_event_active gauge\n");
    assert("# TYPE madcap_fast_upstream_last_ms gauge\n"@[14] != "# TYPE madcap_event_active gauge\n"@[14]);
    reveal_strlit("# HELP madcap_event_sleeping Riders currently flagged sleeping\n");
    assert("# TYPE madcap_fast_upstream_last_ms gauge\n"@[2] != "# HELP madcap_event_sleeping Riders currently flagged sleeping\n"@[2]);
    reveal_strlit("# TYPE madcap_event_sleeping gauge\n");
    assert("# TYPE madcap_fast_upstream_last_ms gauge\n"@[14] != "# TYPE madcap_event_sleeping gauge\n"@[14]);
    reveal_strlit("# HELP madcap_event_started Riders with non-zero distance\n");
    assert("# TYPE madcap_fast_upstream_last_ms gauge\n"@[2] != "# HELP madcap_event_started Riders with non-zero distance\n"@[2]);
    reveal_strlit("# TYPE madcap_event_started gauge\n");
    assert("# TYPE madcap_fast_upstream_last_ms gauge\n"@[14] != "# TYPE madcap_event_started gauge\n"@[14]);
    reveal_strlit("# HELP madcap_event_finished Riders within 0.5 km of the course total\n");
    assert("# TYPE madcap_fast_upstream_last_ms gauge\n"@[2] != "# HELP madcap_event_finished Riders within 0.5 km of the course total\n"@[2]);
    reveal_strlit("# TYPE madcap_event_finished gauge\n");
    assert("# TYPE madcap_fast_upstream_last_ms gauge\n"@[14] != "# TYPE madcap_event_finished gauge\n"@[14]);
    reveal_strlit("# HELP madcap_rider_distance_km Distance covered by the rider in km\n");
    assert("# TYPE madcap_fast_upstream_last_ms gauge\n"@[2] != "# HELP madcap_rider_distance_km Distance covered by the rider in km\n"@[2]);
    reveal_strlit("# TYPE madcap_rider_distance_km gauge\n");
    assert("# TYPE madcap_fast_upstream_last_ms gauge\n"@[14] != "# TYPE madcap_rider_distance_km gauge\n"@[14]);
    reveal_strlit("# HELP madcap_rider_cactus_delta_km Rider distance minus the cactus pacer position in km (positive = ahead)\n");
    assert("# TYPE madcap_fast_upstream_last_ms gauge\n"@[2] != "# HELP madcap_rider_cactus_delta_km Rider distance minus the cactus pacer position in km (positive = ahead)\n"@[2]);
    reveal_strlit("# TYPE madcap_rider_cactus_delta_km gauge\n");
    assert("# TYPE madcap_fast_upstream_last_ms gauge\n"@[14] != "# TYPE madcap_rider_cactus_delta_km gauge\n"@[14]);
    reveal_strlit("# HELP madcap_rider_speed_kmh Current reported speed in km/h\n");
    assert("# TYPE madcap_fast_upstream_last_ms gauge\n"@[2] != "# HELP madcap_rider_speed_kmh Current reported speed in km/h\n"@[2]);
    reveal_strlit("# TYPE madcap_rider_speed_kmh gauge\n");
    assert("# TYPE madcap_fast_upstream_last_ms gauge\n"@[14] != "# TYPE madcap_rider_speed_kmh gauge\n"@[14]);
    reveal_strlit("# HELP madcap_rider_overall_rank Overall rank (1 = leader)\n");
    assert("# TYPE madcap_fast_upstream_last_ms gauge\n"@[2] != "# HELP madcap_rider_overall_rank Overall rank (1 = leader)\n"@[2]);
    reveal_strlit("# TYPE madcap_rider_overall_rank gauge\n");
    assert("# TYPE madcap_fast_upstream_last_ms gauge\n"@[14] != "# TYPE madcap_rider_overall_rank gauge\n"@[14]);
    reveal_strlit("# HELP madcap_rider_category_rank Rank within the rider's category\n");
    assert("# TYPE madcap_fast_upstream_last_ms gauge\n"@[2] != "# HELP madcap_rider_category_rank Rank within the rider's category\n"@[2]);
    reveal_strlit("# TYPE madcap_rider_category_rank gauge\n");
    assert("# TYPE madcap_fast_upstream_last_ms gauge\n"@[14] != "# TYPE madcap_rider_category_rank gauge\n"@[14]);
    reveal_strlit("# HELP madcap_rider_battery_pct Tracker battery percentage\n");
    assert("# TYPE madcap_fast_upstream_last_ms gauge\n"@[2] != "# HELP madcap_rider_battery_pct Tracker battery percentage\n"@[2]);
    reveal_strlit("# TYPE madcap_rider_battery_pct gauge\n");
    assert("# TYPE madcap_fast_upstream_last_ms gauge\n"@[14] != "# TYPE madcap_rider_battery_pct gauge\n"@[14]);
    reveal_strlit("# HELP madcap_rider_sleeping 1 if the rider is currently flagged sleeping, else 0\n");
    assert("# TYPE madcap_fast_upstream_last_ms gauge\n"@[2] != "# HELP madcap_rider_sleeping 1 if the rider is currently flagged sleeping, else 0\n"@[2]);
    reveal_strlit("# TYPE madcap_rider_sleeping gauge\n");
    assert("# TYPE madcap_fast_upstream_last_ms gauge\n"@[14] != "# TYPE madcap_rider_sleeping gauge\n"@[14]);
    reveal_strlit("# HELP madcap_rider_distance_to_next_cp_km Straight-line distance to the next checkpoint\n");
    assert("# TYPE madcap_fast_upstream_last_ms gauge\n"@[2] != "# HELP madcap_rider_distance_to_next_cp_km Straight-line distance to the next checkpoint\n"@[2]);
    reveal_strlit("# TYPE madcap_rider_distance_to_next_cp_km gauge\n");
    assert("# TYPE madcap_fast_upstream_last_ms gauge\n"@[14] != "# TYPE madcap_rider_distance_to_next_cp_km gauge\n"@[14]);
    assert forall|j: int| 13 < j < 44 implies header_lines()[13] != #[trigger] header_lines()[j] by {
    }
}

proof fn lemma_header_line_distinct_14()
    ensures
        forall|j: int| 14 < j < 44 ==> header_lines()[14] != #[trigger] header_lines()[j],
{
    reveal_strlit("# HELP madcap_event_total_km Advertised total course distance in km (parsed from info.distance)\n");
    reveal_strlit("# TYPE madcap_event_total_km gauge\n");
    assert("# HELP madcap_event_total_km Advertised total course distance in km (parsed from info.distance)\n"@[2] != "# TYPE madcap_event_total_km gauge\n"@[2]);
    reveal_strlit("# HELP madcap_event_cactus_km Virtual cactus pacer position in km (elapsed fraction of event time x total km)\n");
    assert("# HELP madcap_event_total_km Advertised total course distance in km (parsed from info.distance)\n"@[20] != "# HELP madcap_event_cactus_km Virtual cactus pacer position in km (elapsed fraction of event time x total km)\n"@[20]);
    reveal_strlit("# TYPE madcap_event_cactus_km gauge\n");
    assert("# HELP madcap_event_total_km Advertised total course distance in km (parsed from info.distance)\n"@[2] != "# TYPE madcap_event_cactus_km gauge\n"@[2]);
    reveal_strlit("# HELP madcap_event_participants Participant count in the event\n");
    assert("# HELP madcap_event_total_km Advertised total course distance in km (parsed from info.distance)\n"@[20] != "# HELP madcap_event_participants Participant count in the event\n"@[20]);
    reveal_strlit("# TYPE madcap_event_participants gauge\n");
    assert("# HELP madcap_event_total_km Advertised total course distance in km (parsed from info.distance)\n"@[2] != "# TYPE madcap_event_participants gauge\n"@[2]);
    reveal_strlit("# HELP madcap_event_active Riders with any ping or REGISTERED/ACTIVE status\n");
    assert("# HELP madcap_event_total_km Advertised total course distance in km (parsed from info.distance)\n"@[20] != "# HELP madcap_event_active Riders with any ping or REGISTERED/ACTIVE status\n"@[20]);
    reveal_strlit("# TYPE madcap_event_active gauge\n");
    assert("# HELP madcap_event_total_km Advertised total course distance in km (parsed from info.distance)\n"@[2] != "# TYPE madcap_event_active gauge\n"@[2]);
    reveal_strlit("# HELP madcap_event_sleeping Riders currently flagged sleeping\n");
    assert("# HELP madcap_event_total_km Advertised total course distance in km (parsed from info.distance)\n"@[20] != "# HELP madcap_event_sleeping Riders currently flagged sleeping\n"@[20]);
    reveal_strlit("# TYPE madcap_event_sleeping gauge\n");
    assert("# HELP madcap_event_total_km Advertised total course distance in km (parsed from info.distance)\n"@[2] != "# TYPE madcap_event_sleeping gauge\n"@[2]);
    reveal_strlit("# HELP madcap_event_started Riders with non-zero distance\n");
    assert("# HELP madcap_event_total_km Advertised total course distance in km (parsed from info.distance)\n"@[20] != "# HELP madcap_event_started Riders with non-zero distance\n"@[20]);
    reveal_strlit("# TYPE madcap_event_started gauge\n");
    assert("# HELP madcap_event_total_km Advertised total course distance in km (parsed from info.distance)\n"@[2] != "# TYPE madcap_event_started gauge\n"@[2]);
    reveal_strlit("# HELP madcap_event_finished Riders within 0.5 km of the course total\n");
    assert("# HELP madcap_event_total_km Advertised total course distance in km (parsed from info.distance)\n"@[20] != "# HELP madcap_event_finished Riders within 0.5 km of the course total\n"@[20]);
    reveal_strlit("# TYPE madcap_event_finished gauge\n");
    assert("# HELP madcap_event_total_km Advertised total course distance in km (parsed from info.distance)\n"@[2] != "# TYPE madcap_event_finished gauge\n"@[2]);
    reveal_strlit("# HELP madcap_rider_distance_km Distance covered by the rider in km\n");
    assert("# HELP madcap_event_total_km Advertised total course distance in km (parsed from info.distance)\n"@[14] != "# HELP madcap_rider_distance_km Distance covered by the rider in km\n"@[14]);
    reveal_strlit("# TYPE madcap_rider_distance_km gauge\n");
    assert("# HELP madcap_event_total_km Advertised total course distance in km (parsed from info.distance)\n"@[2] != "# TYPE madcap_rider_distance_km gauge\n"@[2]);
    reveal_strlit("# HELP madcap_rider_cactus_delta_km Rider distance minus the cactus pacer position in km (positive = ahead)\n");
    assert("# HELP madcap_event_total_km Advertised total course distance in km (parsed from info.distance)\n"@[14] != "# HELP madcap_rider_cactus_delta_km Rider distance minus the cactus pacer position in km (positive = ahead)\n"@[14]);
    reveal_strlit("# TYPE madcap_rider_cactus_delta_km gauge\n");
    assert("# HELP madcap_event_total_km Advertised total course distance in km (parsed from info.distance)\n"@[2] != "# TYPE madcap_rider_cactus_delta_km gauge\n"@[2]);
    reveal_strlit("# HELP madcap_rider_speed_kmh Current reported speed in km/h\n");
    assert("# HELP madcap_event_total_km Advertised total course distance in km (parsed from info.distance)\n"@[14] != "# HELP madcap_rider_speed_kmh Current reported speed in km/h\n"@[14]);
    reveal_strlit("# TYPE madcap_rider_speed_kmh gauge\n");
    assert("# HELP madcap_event_total_km Advertised total course distance in km (parsed from info.distance)\n"@[2] != "# TYPE madcap_rider_speed_kmh gauge\n"@[2]);
    reveal_strlit("# HELP madcap_rider_overall_rank Overall rank (1 = leader)\n");
    assert("# HELP madcap_event_total_km Advertised total course distance in km (parsed from info.distance)\n"@[14] != "# HELP madcap_rider_overall_rank Overall rank (1 = leader)\n"@[14]);
    reveal_strlit("# TYPE madcap_rider_overall_rank gauge\n");
    assert("# HELP madcap_event_total_km Advertised total course distance in km (parsed from info.distance)\n"@[2] != "# TYPE madcap_rider_overall_rank gauge\n"@[2]);
    reveal_strlit("# HELP madcap_rider_category_rank Rank within the rider's category\n");
    assert("# HELP madcap_event_total_km Advertised total course distance in km (parsed from info.distance)\n"@[14] != "# HELP madcap_rider_category_rank Rank within the rider's category\n"@[14]);
    reveal_strlit("# TYPE madcap_rider_category_rank gauge\n");
    assert("# HELP madcap_event_total_km Advertised total course distance in km (parsed from info.distance)\n"@[2] != "# TYPE madcap_rider_category_rank gauge\n"@[2]);
    reveal_strlit("# HELP madcap_rider_battery_pct Tracker battery percentage\n");
    assert("# HELP madcap_event_total_km Advertised total course distance in km (parsed from info.distance)\n"@[14] != "# HELP madcap_rider_battery_pct Tracker battery percentage\n"@[14]);
    reveal_strlit("# TYPE madcap_rider_battery_pct gauge\n");
    assert("# HELP madcap_event_total_km Advertised total course distance in km (parsed from info.distance)\n"@[2] != "# TYPE madcap_rider_battery_pct gauge\n"@[2]);
    reveal_strlit("# HELP madcap_rider_sleeping 1 if the rider is currently flagged sleeping, else 0\n");
    assert("# HELP madcap_event_total_km Advertised total course distance in km (parsed from info.distance)\n"@[14] != "# HELP madcap_rider_sleeping 1 if the rider is currently flagged sleeping, else 0\n"@[14]);
    reveal_strlit("# TYPE madcap_rider_sleeping gauge\n");
    assert("# HELP madcap_event_total_km Advertised total course distance in km (parsed from info.distance)\n"@[2] != "# TYPE madcap_rider_sleeping gauge\n"@[2]);
    reveal_strlit("# HELP madcap_rider_distance_to_next_cp_km Straight-line distance to the next checkpoint\n");
    assert("# HELP madcap_event_total_km Advertised total course distance in km (parsed from info.distance)\n"@[14] != "# HELP madcap_rider_distance_to_next_cp_km Straight-line distance to the next checkpoint\n"@[14]);
    reveal_strlit("# TYPE madcap_rider_distance_to_next_cp_km gauge\n");
    assert("# HELP madcap_event_total_km Advertised total course distance in km (parsed from info.distance)\n"@[2] != "# TYPE madcap_rider_distance_to_next_cp_km gauge\n"@[2]);
    assert forall|j: int| 14 < j < 44 implies header_lines()[14] != #[trigger] header_lines()[j] by {
    }
}

proof fn lemma_header_line_distinct_15()
    ensures
        forall|j: int| 15 < j < 44 ==> header_lines()[15] != #[trigger] header_lines()[j],
{
    reveal_strlit("# TYPE madcap_event_total_km gauge\n");
    reveal_strlit("# HELP madcap_event_cactus_km Virtual cactus pacer position in km (elapsed fraction of event time x total km)\n");
    assert("# TYPE madcap_event_total_km gauge\n"@[2] != "# HELP madcap_event_cactus_km Virtual cactus pacer position in km (elapsed fraction of event time x total km)\n"@[2]);
    reveal_strlit("# TYPE madcap_event_cactus_km gauge\n");
    assert("# TYPE madcap_event_total_km gauge\n"@[20] != "# TYPE madcap_event_cactus_km gauge\n"@[20]);
    reveal_strlit("# HELP madcap_event_participants Participant count in the event\n");
    assert("# TYPE madcap_event_total_km gauge\n"@[2] != "# HELP madcap_event_participants Participant count in the event\n"@[2]);
    reveal_strlit("# TYPE madcap_event_participants gauge\n");
    assert("# TYPE madcap_event_total_km gauge\n"@[20] != "# TYPE madcap_event_participants gauge\n"@[20]);
    reveal_strlit("# HELP madcap_event_active Riders with any ping or REGISTERED/ACTIVE status\n");
    assert("# TYPE madcap_event_total_km gauge\n"@[2] != "# HELP madcap_event_active Riders with any ping or REGISTERED/ACTIVE status\n"@[2]);
    reveal_strlit("# TYPE madcap_event_active gauge\n");
    assert("# TYPE madcap_event_total_km gauge\n"@[20] != "# TYPE madcap_event_active gauge\n"@[20]);
    reveal_strlit("# HELP madcap_event_sleeping Riders currently flagged sleeping\n");
    assert("# TYPE madcap_event_total_km gauge\n"@[2] != "# HELP madcap_event_sleeping Riders currently flagged sleeping\n"@[2]);
    reveal_strlit("# TYPE madcap_event_sleeping gauge\n");
    assert("# TYPE madcap_event_total_km gauge\n"@[20] != "# TYPE madcap_event_sleeping gauge\n"@[20]);
    reveal_strlit("# HELP madcap_event_started Riders with non-zero distance\n");
    assert("# TYPE madcap_event_total_km gauge\n"@[2] != "# HELP madcap_event_started Riders with non-zero distance\n"@[2]);
    reveal_strlit("# TYPE madcap_event_started gauge\n");
    assert("# TYPE madcap_event_total_km gauge\n"@[20] != "# TYPE madcap_event_started gauge\n"@[20]);
    reveal_strlit("# HELP madcap_event_finished Riders within 0.5 km of the course total\n");
    assert("# TYPE madcap_event_total_km gauge\n"@[2] != "# HELP madcap_event_finished Riders within 0.5 km of the course total\n"@[2]);
    reveal_strlit("# TYPE madcap_event_finished gauge\n");
    assert("# TYPE madcap_event_total_km gauge\n"@[20] != "# TYPE madcap_event_finished gauge\n"@[20]);
    reveal_strlit("# HELP madcap_rider_distance_km Distance covered by the rider in km\n");
    assert("# TYPE madcap_event_total_km gauge\n"@[2] != "# HELP madcap_rider_distance_km Distance covered by the rider in km\n"@[2]);
    reveal_strlit("# TYPE madcap_rider_distance_km gauge\n");
    assert("# TYPE madcap_event_total_km gauge\n"@[14] != "# TYPE madcap_rider_distance_km gauge\n"@[14]);
    reveal_strlit("# HELP madcap_rider_cactus_delta_km Rider distance minus the cactus pacer position in km (positive = ahead)\n");
    assert("# TYPE madcap_event_total_km gauge\n"@[2] != "# HELP madcap_rider_cactus_delta_km Rider distance minus the cactus pacer position in km (positive = ahead)\n"@[2]);
    reveal_strlit("# TYPE madcap_rider_cactus_delta_km gauge\n");
    assert("# TYPE madcap_event_total_km gauge\n"@[14] != "# TYPE madcap_rider_cactus_delta_km gauge\n"@[14]);
    reveal_strlit("# HELP madcap_rider_speed_kmh Current reported speed in km/h\n");
    assert("# TYPE madcap_event_total_km gauge\n"@[2] != "# HELP madcap_rider_speed_kmh Current reported speed in km/h\n"@[2]);
    reveal_strlit("# TYPE madcap_rider_speed_kmh gauge\n");
    assert("# TYPE madcap_event_total_km gauge\n"@[14] != "# TYPE madcap_rider_speed_kmh gauge\n"@[14]);
    reveal_strlit("# HELP madcap_rider_overall_rank Overall rank (1 = leader)\n");
    assert("# TYPE madcap_event_total_km gauge\n"@[2] != "# HELP madcap_rider_overall_rank Overall rank (1 = leader)\n"@[2]);
    reveal_strlit("# TYPE madcap_rider_overall_rank gauge\n");
    assert("# TYPE madcap_event_total_km gauge\n"@[14] != "# TYPE madcap_rider_overall_rank gauge\n"@[14]);
    reveal_strlit("# HELP madcap_rider_category_rank Rank within the rider's category\n");
    assert("# TYPE madcap_event_total_km gauge\n"@[2] != "# HELP madcap_rider_category_rank Rank within the rider's category\n"@[2]);
    reveal_strlit("# TYPE madcap_rider_category_rank gauge\n");
    assert("# TYPE madcap_event_total_km gauge\n"@[14] != "# TYPE madcap_rider_category_rank gauge\n"@[14]);
    reveal_strlit("# HELP madcap_rider_battery_pct Tracker battery percentage\n");
    assert("# TYPE madcap_event_total_km gauge\n"@[2] != "# HELP madcap_rider_battery_pct Tracker battery percentage\n"@[2]);
    reveal_strlit("# TYPE madcap_rider_battery_pct gauge\n");
    assert("# TYPE madcap_event_total_km gauge\n"@[14] != "# TYPE madcap_rider_battery_pct gauge\n"@[14]);
    reveal_strlit("# HELP madcap_rider_sleeping 1 if the rider is currently flagged sleeping, else 0\n");
    assert("# TYPE madcap_event_total_km gauge\n"@[2] != "# HELP madcap_rider_sleeping 1 if the rider is currently flagged sleeping, else 0\n"@[2]);
    reveal_strlit("# TYPE madcap_rider_sleeping gauge\n");
    assert("# TYPE madcap_event_total_km gauge\n"@[14] != "# TYPE madcap_rider_sleeping gauge\n"@[14]);
    reveal_strlit("# HELP madcap_rider_distance_to_next_cp_km Straight-line distance to the next checkpoint\n");
    assert("# TYPE madcap_event_total_km gauge\n"@[2] != "# HELP madcap_rider_distance_to_next_cp_km Straight-line distance to the next checkpoint\n"@[2]);
    reveal_strlit("# TYPE madcap_rider_distance_to_next_cp_km gauge\n");
    assert("# TYPE madcap_event_total_km gauge\n"@[14] != "# TYPE madcap_rider_distance_to_next_cp_km gauge\n"@[14]);
    assert forall|j: int| 15 < j < 44 implies header_lines()[15] != #[trigger] header_lines()[j] by {
    }
}

proof fn lemma_header_line_distinct_16()
    ensures
        forall|j: int| 16 < j < 44 ==> header_lines()[16] != #[trigger] header_lines()[j],
{
    reveal_strlit("# HELP madcap_event_cactus_km Virtual cactus pacer position in km (elapsed fraction of event time x total km)\n");
    reveal_strlit("# TYPE madcap_event_cactus_km gauge\n");
    assert("# HELP madcap_event_cactus_km Virtual cactus pacer position in km (elapsed fraction of event time x total km)\n"@[2] != "# TYPE madcap_event_cactus_km gauge\n"@[2]);
    reveal_strlit("# HELP madcap_event_participants Participant count in the event\n");
    assert("# HELP madcap_event_cactus_km Virtual cactus pacer position in km (elapsed fraction of event time x total km)\n"@[20] != "# HELP madcap_event_participants Participant count in the event\n"@[20]);
    reveal_strlit("# TYPE madcap_event_participants gauge\n");
    assert("# HELP madcap_event_cactus_km Virtual cactus pacer position in km (elapsed fraction of event time x total km)\n"@[2] != "# TYPE madcap_event_participants gauge\n"@[2]);
    reveal_strlit("# HELP madcap_event_active Riders with any ping or REGISTERED/ACTIVE status\n");
    assert("# HELP madcap_event_cactus_km Virtual cactus pacer position in km (elapsed fraction of event time x total km)\n"@[20] != "# HELP madcap_event_active Riders with any ping or REGISTERED/ACTIVE status\n"@[20]);
    reveal_strlit("# TYPE madcap_event_active gauge\n");
    assert("# HELP madcap_event_cactus_km Virtual cactus pacer position in km (elapsed fraction of event time x total km)\n"@[2] != "# TYPE madcap_event_active gauge\n"@[2]);
    reveal_strlit("# HELP madcap_event_sleeping Riders currently flagged sleeping\n");
    assert("# HELP madcap_event_cactus_km Virtual cactus pacer position in km (elapsed fraction of event time x total km)\n"@[20] != "# HELP madcap_event_sleeping Riders currently flagged sleeping\n"@[20]);
    reveal_strlit("# TYPE madcap_event_sleeping gauge\n");
    assert("# HELP madcap_event_cactus_km Virtual cactus pacer position in km (elapsed fraction of event time x total km)\n"@[2] != "# TYPE madcap_event_sleeping gauge\n"@[2]);
    reveal_strlit("# HELP madcap_event_started Riders with non-zero distance\n");
    assert("# HELP madcap_event_cactus_km Virtual cactus pacer position in km (elapsed fraction of event time x total km)\n"@[20] != "# HELP madcap_event_started Riders with non-zero distance\n"@[20]);
    reveal_strlit("# TYPE madcap_event_started gauge\n");
    assert("# HELP madcap_event_cactus_km Virtual cactus pacer position in km (elapsed fraction of event time x total km)\n"@[2] != "# TYPE madcap_event_started gauge\n"@[2]);
    reveal_strlit("# HELP madcap_event_finished Riders within 0.5 km of the course total\n");
    assert("# HELP madcap_event_cactus_km Virtual cactus pacer position in km (elapsed fraction of event time x total km)\n"@[20] != "# HELP madcap_event_finished Riders within 0.5 km of the course total\n"@[20]);
    reveal_strlit("# TYPE madcap_event_finished gauge\n");
    assert("# HELP madcap_event_cactus_km Virtual cactus pacer position in km (elapsed fraction of event time x total km)\n"@[2] != "# TYPE madcap_event_finished gauge\n"@[2]);
    reveal_strlit("# HELP madcap_rider_distance_km Distance covered by the rider in km\n");
    assert("# HELP madcap_event_cactus_km Virtual cactus pacer position in km (elapsed fraction of event time x total km)\n"@[14] != "# HELP madcap_rider_distance_km Distance covered by the rider in km\n"@[14]);
    reveal_strlit("# TYPE madcap_rider_distance_km gauge\n");
    assert("# HELP madcap_event_cactus_km Virtual cactus pacer position in km (elapsed fraction of event time x total km)\n"@[2] != "# TYPE madcap_rider_distance_km gauge\n"@[2]);
    reveal_strlit("# HELP madcap_rider_cactus_delta_km Rider distance minus the cactus pacer position in km (positive = ahead)\n");
    assert("# HELP madcap_event_cactus_km Virtual cactus pacer position in km (elapsed fraction of event time x total km)\n"@[14] != "# HELP madcap_rider_cactus_delta_km Rider distance minus the cactus pacer position in km (positive = ahead)\n"@[14]);
    reveal_strlit("# TYPE madcap_rider_cactus_delta_km gauge\n");
    assert("# HELP madcap_event_cactus_km Virtual cactus pacer position in km (elapsed fraction of event time x total km)\n"@[2] != "# TYPE madcap_rider_cactus_delta_km gauge\n"@[2]);
    reveal_strlit("# HELP madcap_rider_speed_kmh Current reported speed in km/h\n");
    assert("# HELP madcap_event_cactus_km Virtual cactus pacer position in km (elapsed fraction of event time x total km)\n"@[14] != "# HELP madcap_rider_speed_kmh Current reported speed in km/h\n"@[14]);
    reveal_strlit("# TYPE madcap_rider_speed_kmh gauge\n");
    assert("# HELP madcap_event_cactus_km Virtual cactus pacer position in km (elapsed fraction of event time x total km)\n"@[2] != "# TYPE madcap_rider_speed_kmh gauge\n"@[2]);
    reveal_strlit("# HELP madcap_rider_overall_rank Overall rank (1 = leader)\n");
    assert("# HELP madcap_event_cactus_km Virtual cactus pacer position in km (elapsed fraction of event time x total km)\n"@[14] != "# HELP madcap_rider_overall_rank Overall rank (1 = leader)\n"@[14]);
    reveal_strlit("# TYPE madcap_rider_overall_rank gauge\n");
    assert("# HELP madcap_event_cactus_km Virtual cactus pacer position in km (elapsed fraction of event time x total km)\n"@[2] != "# TYPE madcap_rider_overall_rank gauge\n"@[2]);
    reveal_strlit("# HELP madcap_rider_category_rank Rank within the rider's category\n");
    assert("# HELP madcap_event_cactus_km Virtual cactus pacer position in km (elapsed fraction of event time x total km)\n"@[14] != "# HELP madcap_rider_category_rank Rank within the rider's category\n"@[14]);
    reveal_strlit("# TYPE madcap_rider_category_rank gauge\n");
    assert("# HELP madcap_event_cactus_km Virtual cactus pacer position in km (elapsed fraction of event time x total km)\n"@[2] != "# TYPE madcap_rider_category_rank gauge\n"@[2]);
    reveal_strlit("# HELP madcap_rider_battery_pct Tracker battery percentage\n");
    assert("# HELP madcap_event_cactus_km Virtual cactus pacer position in km (elapsed fraction of event time x total km)\n"@[14] != "# HELP madcap_rider_battery_pct Tracker battery percentage\n"@[14]);
    reveal_strlit("# TYPE madcap_rider_battery_pct gauge\n");
    assert("# HELP madcap_event_cactus_km Virtual cactus pacer position in km (elapsed fraction of event time x total km)\n"@[2] != "# TYPE madcap_rider_battery_pct gauge\n"@[2]);
    reveal_strlit("# HELP madcap_rider_sleeping 1 if the rider is currently flagged sleeping, else 0\n");
    assert("# HELP madcap_event_cactus_km Virtual cactus pacer position in km (elapsed fraction of event time x total km)\n"@[14] != "# HELP madcap_rider_sleeping 1 if the rider is currently flagged sleeping, else 0\n"@[14]);
    reveal_strlit("# TYPE madcap_rider_sleeping gauge\n");
    assert("# HELP madcap_event_cactus_km Virtual cactus pacer position in km (elapsed fraction of event time x total km)\n"@[2] != "# TYPE madcap_rider_sleeping gauge\n"@[2]);
    reveal_strlit("# HELP madcap_rider_distance_to_next_cp_km Straight-line distance to the next checkpoint\n");
    assert("# HELP madcap_event_cactus_km Virtual cactus pacer position in km (elapsed fraction of event time x total km)\n"@[14] != "# HELP madcap_rider_distance_to_next_cp_km Straight-line distance to the next checkpoint\n"@[14]);
    reveal_strlit("# TYPE madcap_rider_distance_to_next_cp_km gauge\n");
    assert("# HELP madcap_event_cactus_km Virtual cactus pacer position in km (elapsed fraction of event time x total km)\n"@[2] != "# TYPE madcap_rider_distance_to_next_cp_km gauge\n"@[2]);
    assert forall|j: int| 16 < j < 44 implies header_lines()[16] != #[trigger] header_lines()[j] by {
    }
}

proof fn lemma_header_line_distinct_17()
    ensures
        forall|j: int| 17 < j < 44 ==> header_lines()[17] != #[trigger] header_lines()[j],
{
    reveal_strlit("# TYPE madcap_event_cactus_km gauge\n");
    reveal_strlit("# HELP madcap_event_participants Participant count in the event\n");
    assert("# TYPE madcap_event_cactus_km gauge\n"@[2] != "# HELP madcap_event_participants Participant count in the event\n"@[2]);
    reveal_strlit("# TYPE madcap_event_participants gauge\n");
    assert("# TYPE madcap_event_cactus_km gauge\n"@[20] != "# TYPE madcap_event_participants gauge\n"@[20]);
    reveal_strlit("# HELP madcap_event_active Riders with any ping or REGISTERED/ACTIVE status\n");
    assert("# TYPE madcap_event_cactus_km gauge\n"@[2] != "# HELP madcap_event_active Riders with any ping or REGISTERED/ACTIVE status\n"@[2]);
    reveal_strlit("# TYPE madcap_event_active gauge\n");
    assert("# TYPE madcap_event_cactus_km gauge\n"@[20] != "# TYPE madcap_event_active gauge\n"@[20]);
    reveal_strlit("# HELP madcap_event_sleeping Riders currently flagged sleeping\n");
    assert("# TYPE madcap_event_cactus_km gauge\n"@[2] != "# HELP madcap_event_sleeping Riders currently flagged sleeping\n"@[2]);
    reveal_strlit("# TYPE madcap_event_sleeping gauge\n");
    assert("# TYPE madcap_event_cactus_km gauge\n"@[20] != "# TYPE madcap_event_sleeping gauge\n"@[20]);
    reveal_strlit("# HELP madcap_event_started Riders with non-zero distance\n");
    assert("# TYPE madcap_event_cactus_km gauge\n"@[2] != "# HELP madcap_event_started Riders with non-zero distance\n"@[2]);
    reveal_strlit("# TYPE madcap_event_started gauge\n");
    assert("# TYPE madcap_event_cactus_km gauge\n"@[20] != "# TYPE madcap_event_started gauge\n"@[20]);
    reveal_strlit("# HELP madcap_event_finished Riders within 0.5 km of the course total\n");
    assert("# TYPE madcap_event_cactus_km gauge\n"@[2] != "# HELP madcap_event_finished Riders within 0.5 km of the course total\n"@[2]);
    reveal_strlit("# TYPE madcap_event_finished gauge\n");
    assert("# TYPE madcap_event_cactus_km gauge\n"@[20] != "# TYPE madcap_event_finished gauge\n"@[20]);
    reveal_strlit("# HELP madcap_rider_distance_km Distance covered by the rider in km\n");
    assert("# TYPE madcap_event_cactus_km gauge\n"@[2] != "# HELP madcap_rider_distance_km Distance covered by the rider in km\n"@[2]);
    reveal_strlit("# TYPE madcap_rider_distance_km gauge\n");
    assert("# TYPE madcap_event_cactus_km gauge\n"@[14] != "# TYPE madcap_rider_distance_km gauge\n"@[14]);
    reveal_strlit("# HELP madcap_rider_cactus_delta_km Rider distance minus the cactus pacer position in km (positive = ahead)\n");
    assert("# TYPE madcap_event_cactus_km gauge\n"@[2] != "# HELP madcap_rider_cactus_delta_km Rider distance minus the cactus pacer position in km (positive = ahead)\n"@[2]);
    reveal_strlit("# TYPE madcap_rider_cactus_delta_km gauge\n");
    assert("# TYPE madcap_event_cactus_km gauge\n"@[14] != "# TYPE madcap_rider_cactus_delta_km gauge\n"@[14]);
    reveal_strlit("# HELP madcap_rider_speed_kmh Current reported speed in km/h\n");
    assert("# TYPE madcap_event_cactus_km gauge\n"@[2] != "# HELP madcap_rider_speed_kmh Current reported speed in km/h\n"@[2]);
    reveal_strlit("# TYPE madcap_rider_speed_kmh gauge\n");
    assert("# TYPE madcap_event_cactus_km gauge\n"@[14] != "# TYPE madcap_rider_speed_kmh gauge\n"@[14]);
    reveal_strlit("# HELP madcap_rider_overall_rank Overall rank (1 = leader)\n");
    assert("# TYPE madcap_event_cactus_km gauge\n"@[2] != "# HELP madcap_rider_overall_rank Overall rank (1 = leader)\n"@[2]);
    reveal_strlit("# TYPE madcap_rider_overall_rank gauge\n");
    assert("# TYPE madcap_event_cactus_km gauge\n"@[14] != "# TYPE madcap_rider_overall_rank gauge\n"@[14]);
    reveal_strlit("# HELP madcap_rider_category_rank Rank within the rider's category\n");
    assert("# TYPE madcap_event_cactus_km gauge\n"@[2] != "# HELP madcap_rider_category_rank Rank within the rider's category\n"@[2]);
    reveal_strlit("# TYPE madcap_rider_category_rank gauge\n");
    assert("# TYPE madcap_event_cactus_km gauge\n"@[14] != "# TYPE madcap_rider_category_rank gauge\n"@[14]);
    reveal_strlit("# HELP madcap_rider_battery_pct Tracker battery percentage\n");
    assert("# TYPE madcap_event_cactus_km gauge\n"@[2] != "# HELP madcap_rider_battery_pct Tracker battery percentage\n"@[2]);
    reveal_strlit("# TYPE madcap_rider_battery_pct gauge\n");
    assert("# TYPE madcap_event_cactus_km gauge\n"@[14] != "# TYPE madcap_rider_battery_pct gauge\n"@[14]);
    reveal_strlit("# HELP madcap_rider_sleeping 1 if the rider is currently flagged sleeping, else 0\n");
    assert("# TYPE madcap_event_cactus_km gauge\n"@[2] != "# HELP madcap_rider_sleeping 1 if the rider is currently flagged sleeping, else 0\n"@[2]);
    reveal_strlit("# TYPE madcap_rider_sleeping gauge\n");
    assert("# TYPE madcap_event_cactus_km gauge\n"@[14] != "# TYPE madcap_rider_sleeping gauge\n"@[14]);
    reveal_strlit("# HELP madcap_rider_distance_to_next_cp_km Straight-line distance to the next checkpoint\n");
    assert("# TYPE madcap_event_cactus_km gauge\n"@[2] != "# HELP madcap_rider_distance_to_next_cp_km Straight-line distance to the next checkpoint\n"@[2]);
    reveal_strlit("# TYPE madcap_rider_distance_to_next_cp_km gauge\n");
    assert("# TYPE madcap_event_cactus_km gauge\n"@[14] != "# TYPE madcap_rider_distance_to_next_cp_km gauge\n"@[14]);
    assert forall|j: int| 17 < j < 44 implies header_lines()[17] != #[trigger] header_lines()[j] by {
    }
}

proof fn lemma_header_line_distinct_18()
    ensures
        forall|j: int| 18 < j < 44 ==> header_lines()[18] != #[trigger] header_lines()[j],
{
    reveal_strlit("# HELP madcap_event_participants Participant count in the event\n");
    reveal_strlit("# TYPE madcap_event_participants gauge\n");
    assert("# HELP madcap_event_participants Participant count in the event\n"@[2] != "# TYPE madcap_event_participants gauge\n"@[2]);
    reveal_strlit("# HELP madcap_event_active Riders with any ping or REGISTERED/ACTIVE status\n");
    assert("# HELP madcap_event_participants Participant count in the event\n"@[20] != "# HELP madcap_event_active Riders with any ping or REGISTERED/ACTIVE status\n"@[20]);
    reveal_strlit("# TYPE madcap_event_active gauge\n");
    assert("# HELP madcap_event_participants Participant count in the event\n"@[2] != "# TYPE madcap_event_active gauge\n"@[2]);
    reveal_strlit("# HELP madcap_event_sleeping Riders currently flagged sleeping\n");
    assert("# HELP madcap_event_participants Participant count in the event\n"@[20] != "# HELP madcap_event_sleeping Riders currently flagged sleeping\n"@[20]);
    reveal_strlit("# TYPE madcap_event_sleeping gauge\n");
    assert("# HELP madcap_event_participants Participant count in the event\n"@[2] != "# TYPE madcap_event_sleeping gauge\n"@[2]);
    reveal_strlit("# HELP madcap_event_started Riders with non-zero distance\n");
    assert("# HELP madcap_event_participants Participant count in the event\n"@[20] != "# HELP madcap_event_started Riders with non-zero distance\n"@[20]);
    reveal_strlit("# TYPE madcap_event_started gauge\n");
    assert("# HELP madcap_event_participants Participant count in the event\n"@[2] != "# TYPE madcap_event_started gauge\n"@[2]);
    reveal_strlit("# HELP madcap_event_finished Riders within 0.5 km of the course total\n");
    assert("# HELP madcap_event_participants Participant count in the event\n"@[20] != "# HELP madcap_event_finished Riders within 0.5 km of the course total\n"@[20]);
    reveal_strlit("# TYPE madcap_event_finished gauge\n");
    assert("# HELP madcap_event_participants Participant count in the event\n"@[2] != "# TYPE madcap_event_finished gauge\n"@[2]);
    reveal_strlit("# HELP madcap_rider_distance_km Distance covered by the rider in km\n");
    assert("# HELP madcap_event_participants Participant count in the event\n"@[14] != "# HELP madcap_rider_distance_km Distance covered by the rider in km\n"@[14]);
    reveal_strlit("# TYPE madcap_rider_distance_km gauge\n");
    assert("# HELP madcap_event_participants Participant count in the event\n"@[2] != "# TYPE madcap_rider_distance_km gauge\n"@[2]);
    reveal_strlit("# HELP madcap_rider_cactus_delta_km Rider distance minus the cactus pacer position in km (positive = ahead)\n");
    assert("# HELP madcap_event_participants Participant count in the event\n"@[14] != "# HELP madcap_rider_cactus_delta_km Rider distance minus the cactus pacer position in km (positive = ahead)\n"@[14]);
    reveal_strlit("# TYPE madcap_rider_cactus_delta_km gauge\n");
    assert("# HELP madcap_event_participants Participant count in the event\n"@[2] != "# TYPE madcap_rider_cactus_delta_km gauge\n"@[2]);
    reveal_strlit("# HELP madcap_rider_speed_kmh Current reported speed in km/h\n");
    assert("# HELP madcap_event_participants Participant count in the event\n"@[14] != "# HELP madcap_rider_speed_kmh Current reported speed in km/h\n"@[14]);
    reveal_strlit("# TYPE madcap_rider_speed_kmh gauge\n");
    assert("# HELP madcap_event_participants Participant count in the event\n"@[2] != "# TYPE madcap_rider_speed_kmh gauge\n"@[2]);
    reveal_strlit("# HELP madcap_rider_overall_rank Overall rank (1 = leader)\n");
    assert("# HELP madcap_event_participants Participant count in the event\n"@[14] != "# HELP madcap_rider_overall_rank Overall rank (1 = leader)\n"@[14]);
    reveal_strlit("# TYPE madcap_rider_overall_rank gauge\n");
    assert("# HELP madcap_event_participants Participant count in the event\n"@[2] != "# TYPE madcap_rider_overall_rank gauge\n"@[2]);
    reveal_strlit("# HELP madcap_rider_category_rank Rank within the rider's category\n");
    assert("# HELP madcap_event_participants Participant count in the event\n"@[14] != "# HELP madcap_rider_category_rank Rank within the rider's category\n"@[14]);
    reveal_strlit("# TYPE madcap_rider_category_rank gauge\n");
    assert("# HELP madcap_event_participants Participant count in the event\n"@[2] != "# TYPE madcap_rider_category_rank gauge\n"@[2]);
    reveal_strlit("# HELP madcap_rider_battery_pct Tracker battery percentage\n");
    assert("# HELP madcap_event_participants Participant count in the event\n"@[14] != "# HELP madcap_rider_battery_pct Tracker battery percentage\n"@[14]);
    reveal_strlit("# TYPE madcap_rider_battery_pct gauge\n");
    assert("# HELP madcap_event_participants Participant count in the event\n"@[2] != "# TYPE madcap_rider_battery_pct gauge\n"@[2]);
    reveal_strlit("# HELP madcap_rider_sleeping 1 if the rider is currently flagged sleeping, else 0\n");
    assert("# HELP madcap_event_participants Participant count in the event\n"@[14] != "# HELP madcap_rider_sleeping 1 if the rider is currently flagged sleeping, else 0\n"@[14]);
    reveal_strlit("# TYPE madcap_rider_sleeping gauge\n");
    assert("# HELP madcap_event_participants Participant count in the event\n"@[2] != "# TYPE madcap_rider_sleeping gauge\n"@[2]);
    reveal_strlit("# HELP madcap_rider_distance_to_next_cp_km Straight-line distance to the next checkpoint\n");
    assert("# HELP madcap_event_participants Participant count in the event\n"@[14] != "# HELP madcap_rider_distance_to_next_cp_km Straight-line distance to the next checkpoint\n"@[14]);
    reveal_strlit("# TYPE madcap_rider_distance_to_next_cp_km gauge\n");
    assert("# HELP madcap_event_participants Participant count in the event\n"@[2] != "# TYPE madcap_rider_distance_to_next_cp_km gauge\n"@[2]);
    assert forall|j: int| 18 < j < 44 implies header_lines()[18] != #[trigger] header_lines()[j] by {
    }
}

proof fn lemma_header_line_distinct_19()
    ensures
        forall|j: int| 19 < j < 44 ==> header_lines()[19] != #[trigger] header_lines()[j],
{
    reveal_strlit("# TYPE madcap_event_participants gauge\n");
    reveal_strlit("# HELP madcap_event_active Riders with any ping or REGISTERED/ACTIVE status\n");
    assert("# TYPE madcap_event_participants gauge\n"@[2] != "# HELP madcap_event_active Riders with any ping or REGISTERED/ACTIVE status\n"@[2]);
    reveal_strlit("# TYPE madcap_event_active gauge\n");
    assert("# TYPE madcap_event_participants gauge\n"@[20] != "# TYPE madcap_event_active gauge\n"@[20]);
    reveal_strlit("# HELP madcap_event_sleeping Riders currently flagged sleeping\n");
    assert("# TYPE madcap_event_participants gauge\n"@[2] != "# HELP madcap_event_sleeping Riders currently flagged sleeping\n"@[2]);
    reveal_strlit("# TYPE madcap_event_sleeping gauge\n");
    assert("# TYPE madcap_event_participants gauge\n"@[20] != "# TYPE madcap_event_sleeping gauge\n"@[20]);
    reveal_strlit("# HELP madcap_event_started Riders with non-zero distance\n");
    assert("# TYPE madcap_event_participants gauge\n"@[2] != "# HELP madcap_event_started Riders with non-zero distance\n"@[2]);
    reveal_strlit("# TYPE madcap_event_started gauge\n");
    assert("# TYPE madcap_event_participants gauge\n"@[20] != "# TYPE madcap_event_started gauge\n"@[20]);
    reveal_strlit("# HELP madcap_event_finished Riders within 0.5 km of the course total\n");
    assert("# TYPE madcap_event_participants gauge\n"@[2] != "# HELP madcap_event_finished Riders within 0.5 km of the course total\n"@[2]);
    reveal_strlit("# TYPE madcap_event_finished gauge\n");
    assert("# TYPE madcap_event_participants gauge\n"@[20] != "# TYPE madcap_event_finished gauge\n"@[20]);
    reveal_strlit("# HELP madcap_rider_distance_km Distance covered by the rider in km\n");
    assert("# TYPE madcap_event_participants gauge\n"@[2] != "# HELP madcap_rider_distance_km Distance covered by the rider in km\n"@[2]);
    reveal_strlit("# TYPE madcap_rider_distance_km gauge\n");
    assert("# TYPE madcap_event_participants gauge\n"@[14] != "# TYPE madcap_rider_distance_km gauge\n"@[14]);
    reveal_strlit("# HELP madcap_rider_cactus_delta_km Rider distance minus the cactus pacer position in km (positive = ahead)\n");
    assert("# TYPE madcap_event_participants gauge\n"@[2] != "# HELP madcap_rider_cactus_delta_km Rider distance minus the cactus pacer position in km (positive = ahead)\n"@[2]);
    reveal_strlit("# TYPE madcap_rider_cactus_delta_km gauge\n");
    assert("# TYPE madcap_event_participants gauge\n"@[14] != "# TYPE madcap_rider_cactus_delta_km gauge\n"@[14]);
    reveal_strlit("# HELP madcap_rider_speed_kmh Current reported speed in km/h\n");
    assert("# TYPE madcap_event_participants gauge\n"@[2] != "# HELP madcap_rider_speed_kmh Current reported speed in km/h\n"@[2]);
    reveal_strlit("# TYPE madcap_rider_speed_kmh gauge\n");
    assert("# TYPE madcap_event_participants gauge\n"@[14] != "# TYPE madcap_rider_speed_kmh gauge\n"@[14]);
    reveal_strlit("# HELP madcap_rider_overall_rank Overall rank (1 = leader)\n");
    assert("# TYPE madcap_event_participants gauge\n"@[2] != "# HELP madcap_rider_overall_rank Overall rank (1 = leader)\n"@[2]);
    reveal_strlit("# TYPE madcap_rider_overall_rank gauge\n");
    assert("# TYPE madcap_event_participants gauge\n"@[14] != "# TYPE madcap_rider_overall_rank gauge\n"@[14]);
    reveal_strlit("# HELP madcap_rider_category_rank Rank within the rider's category\n");
    assert("# TYPE madcap_event_participants gauge\n"@[2] != "# HELP madcap_rider_category_rank Rank within the rider's category\n"@[2]);
    reveal_strlit("# TYPE madcap_rider_category_rank gauge\n");
    assert("# TYPE madcap_event_participants gauge\n"@[14] != "# TYPE madcap_rider_category_rank gauge\n"@[14]);
    reveal_strlit("# HELP madcap_rider_battery_pct Tracker battery percentage\n");
    assert("# TYPE madcap_event_participants gauge\n"@[2] != "# HELP madcap_rider_battery_pct Tracker battery percentage\n"@[2]);
    reveal_strlit("# TYPE madcap_rider_battery_pct gauge\n");
    assert("# TYPE madcap_event_participants gauge\n"@[14] != "# TYPE madcap_rider_battery_pct gauge\n"@[14]);
    reveal_strlit("# HELP madcap_rider_sleeping 1 if the rider is currently flagged sleeping, else 0\n");
    assert("# TYPE madcap_event_participants gauge\n"@[2] != "# HELP madcap_rider_sleeping 1 if the rider is currently flagged sleeping, else 0\n"@[2]);
    reveal_strlit("# TYPE madcap_rider_sleeping gauge\n");
    assert("# TYPE madcap_event_participants gauge\n"@[14] != "# TYPE madcap_rider_sleeping gauge\n"@[14]);
    reveal_strlit("# HELP madcap_rider_distance_to_next_cp_km Straight-line distance to the next checkpoint\n");
    assert("# TYPE madcap_event_participants gauge\n"@[2] != "# HELP madcap_rider_distance_to_next_cp_km Straight-line distance to the next checkpoint\n"@[2]);
    reveal_strlit("# TYPE madcap_rider_distance_to_next_cp_km gauge\n");
    assert("# TYPE madcap_event_participants gauge\n"@[14] != "# TYPE madcap_rider_distance_to_next_cp_km gauge\n"@[14]);
    assert forall|j: int| 19 < j < 44 implies header_lines()[19] != #[trigger] header_lines()[j] by {
    }
}

proof fn lemma_header_line_distinct_20()
    ensures
        forall|j: int| 20 < j < 44 ==> header_lines()[20] != #[trigger] header_lines()[j],
{
    reveal_strlit("# HELP madcap_event_active Riders with any ping or REGISTERED/ACTIVE status\n");
    reveal_strlit("# TYPE madcap_event_active gauge\n");
    assert("# HELP madcap_event_active Riders with any ping or REGISTERED/ACTIVE status\n"@[2] != "# TYPE madcap_event_active gauge\n"@[2]);
    reveal_strlit("# HELP madcap_event_sleeping Riders currently flagged sleeping\n");
    assert("# HELP madcap_event_active Riders with any ping or REGISTERED/ACTIVE status\n"@[20] != "# HELP madcap_event_sleeping Riders currently flagged sleeping\n"@[20]);
    reveal_strlit("# TYPE madcap_event_sleeping gauge\n");
    assert("# HELP madcap_event_active Riders with any ping or REGISTERED/ACTIVE status\n"@[2] != "# TYPE madcap_event_sleeping gauge\n"@[2]);
    reveal_strlit("# HELP madcap_event_started Riders with non-zero distance\n");
    assert("# HELP madcap_event_active Riders with any ping or REGISTERED/ACTIVE status\n"@[20] != "# HELP madcap_event_started Riders with non-zero distance\n"@[20]);
    reveal_strlit("# TYPE madcap_event_started gauge\n");
    assert("# HELP madcap_event_active Riders with any ping or REGISTERED/ACTIVE status\n"@[2] != "# TYPE madcap_event_started gauge\n"@[2]);
    reveal_strlit("# HELP madcap_event_finished Riders within 0.5 km of the course total\n");
    assert("# HELP madcap_event_active Riders with any ping or REGISTERED/ACTIVE status\n"@[20] != "# HELP madcap_event_finished Riders within 0.5 km of the course total\n"@[20]);
    reveal_strlit("# TYPE madcap_event_finished gauge\n");
    assert("# HELP madcap_event_active Riders with any ping or REGISTERED/ACTIVE status\n"@[2] != "# TYPE madcap_event_finished gauge\n"@[2]);
    reveal_strlit("# HELP madcap_rider_distance_km Distance covered by the rider in km\n");
    assert("# HELP madcap_event_active Riders with any ping or REGISTERED/ACTIVE status\n"@[14] != "# HELP madcap_rider_distance_km Distance covered by the rider in km\n"@[14]);
    reveal_strlit("# TYPE madcap_rider_distance_km gauge\n");
    assert("# HELP madcap_event_active Riders with any ping or REGISTERED/ACTIVE status\n"@[2] != "# TYPE madcap_rider_distance_km gauge\n"@[2]);
    reveal_strlit("# HELP madcap_rider_cactus_delta_km Rider distance minus the cactus pacer position in km (positive = ahead)\n");
    assert("# HELP madcap_event_active Riders with any ping or REGISTERED/ACTIVE status\n"@[14] != "# HELP madcap_rider_cactus_delta_km Rider distance minus the cactus pacer position in km (positive = ahead)\n"@[14]);
    reveal_strlit("# TYPE madcap_rider_cactus_delta_km gauge\n");
    assert("# HELP madcap_event_active Riders with any ping or REGISTERED/ACTIVE status\n"@[2] != "# TYPE madcap_rider_cactus_delta_km gauge\n"@[2]);
    reveal_strlit("# HELP madcap_rider_speed_kmh Current reported speed in km/h\n");
    assert("# HELP madcap_event_active Riders with any ping or REGISTERED/ACTIVE status\n"@[14] != "# HELP madcap_rider_speed_kmh Current reported speed in km/h\n"@[14]);
    reveal_strlit("# TYPE madcap_rider_speed_kmh gauge\n");
    assert("# HELP madcap_event_active Riders with any ping or REGISTERED/ACTIVE status\n"@[2] != "# TYPE madcap_rider_speed_kmh gauge\n"@[2]);
    reveal_strlit("# HELP madcap_rider_overall_rank Overall rank (1 = leader)\n");
    assert("# HELP madcap_event_active Riders with any ping or REGISTERED/ACTIVE status\n"@[14] != "# HELP madcap_rider_overall_rank Overall rank (1 = leader)\n"@[14]);
    reveal_strlit("# TYPE madcap_rider_overall_rank gauge\n");
    assert("# HELP madcap_event_active Riders with any ping or REGISTERED/ACTIVE status\n"@[2] != "# TYPE madcap_rider_overall_rank gauge\n"@[2]);
    reveal_strlit("# HELP madcap_rider_category_rank Rank within the rider's category\n");
    assert("# HELP madcap_event_active Riders with any ping or REGISTERED/ACTIVE status\n"@[14] != "# HELP madcap_rider_category_rank Rank within the rider's category\n"@[14]);
    reveal_strlit("# TYPE madcap_rider_category_rank gauge\n");
    assert("# HELP madcap_event_active Riders with any ping or REGISTERED/ACTIVE status\n"@[2] != "# TYPE madcap_rider_category_rank gauge\n"@[2]);
    reveal_strlit("# HELP madcap_rider_battery_pct Tracker battery percentage\n");
    assert("# HELP madcap_event_active Riders with any ping or REGISTERED/ACTIVE status\n"@[14] != "# HELP madcap_rider_battery_pct Tracker battery percentage\n"@[14]);
    reveal_strlit("# TYPE madcap_rider_battery_pct gauge\n");
    assert("# HELP madcap_event_active Riders with any ping or REGISTERED/ACTIVE status\n"@[2] != "# TYPE madcap_rider_battery_pct gauge\n"@[2]);
    reveal_strlit("# HELP madcap_rider_sleeping 1 if the rider is currently flagged sleeping, else 0\n");
    assert("# HELP madcap_event_active Riders with any ping or REGISTERED/ACTIVE status\n"@[14] != "# HELP madcap_rider_sleeping 1 if the rider is currently flagged sleeping, else 0\n"@[14]);
    reveal_strlit("# TYPE madcap_rider_sleeping gauge\n");
    assert("# HELP madcap_event_active Riders with any ping or REGISTERED/ACTIVE status\n"@[2] != "# TYPE madcap_rider_sleeping gauge\n"@[2]);
    reveal_strlit("# HELP madcap_rider_distance_to_next_cp_km Straight-line distance to the next checkpoint\n");
    assert("# HELP madcap_event_active Riders with any ping or REGISTERED/ACTIVE status\n"@[14] != "# HELP madcap_rider_distance_to_next_cp_km Straight-line distance to the next checkpoint\n"@[14]);
    reveal_strlit("# TYPE madcap_rider_distance_to_next_cp_km gauge\n");
    assert("# HELP madcap_event_active Riders with any ping or REGISTERED/ACTIVE status\n"@[2] != "# TYPE madcap_rider_distance_to_next_cp_km gauge\n"@[2]);
    assert forall|j: int| 20 < j < 44 implies header_lines()[20] != #[trigger] header_lines()[j] by {
    }
}

proof fn lemma_header_line_distinct_21()
    ensures
        forall|j: int| 21 < j < 44 ==> header_lines()[21] != #[trigger] header_lines()[j],
{
    reveal_strlit("# TYPE madcap_event_active gauge\n");
    reveal_strlit("# HELP madcap_event_sleeping Riders currently flagged sleeping\n");
    assert("# TYPE madcap_event_active gauge\n"@[2] != "# HELP madcap_event_sleeping Riders currently flagged sleeping\n"@[2]);
    reveal_strlit("# TYPE madcap_event_sleeping gauge\n");
    assert("# TYPE madcap_event_active gauge\n"@[20] != "# TYPE madcap_event_sleeping gauge\n"@[20]);
    reveal_strlit("# HELP madcap_event_started Riders with non-zero distance\n");
    assert("# TYPE madcap_event_active gauge\n"@[2] != "# HELP madcap_event_started Riders with non-zero distance\n"@[2]);
    reveal_strlit("# TYPE madcap_event_started gauge\n");
    assert("# TYPE madcap_event_active gauge\n"@[20] != "# TYPE madcap_event_started gauge\n"@[20]);
    reveal_strlit("# HELP madcap_event_finished Riders within 0.5 km of the course total\n");
    assert("# TYPE madcap_event_active gauge\n"@[2] != "# HELP madcap_event_finished Riders within 0.5 km of the course total\n"@[2]);
    reveal_strlit("# TYPE madcap_event_finished gauge\n");
    assert("# TYPE madcap_event_active gauge\n"@[20] != "# TYPE madcap_event_finished gauge\n"@[20]);
    reveal_strlit("# HELP madcap_rider_distance_km Distance covered by the rider in km\n");
    assert("# TYPE madcap_event_active gauge\n"@[2] != "# HELP madcap_rider_distance_km Distance covered by the rider in km\n"@[2]);
    reveal_strlit("# TYPE madcap_rider_distance_km gauge\n");
    assert("# TYPE madcap_event_active gauge\n"@[14] != "# TYPE madcap_rider_distance_km gauge\n"@[14]);
    reveal_strlit("# HELP madcap_rider_cactus_delta_km Rider distance minus the cactus pacer position in km (positive = ahead)\n");
    assert("# TYPE madcap_event_active gauge\n"@[2] != "# HELP madcap_rider_cactus_delta_km Rider distance minus the cactus pacer position in km (positive = ahead)\n"@[2]);
    reveal_strlit("# TYPE madcap_rider_cactus_delta_km gauge\n");
    assert("# TYPE madcap_event_active gauge\n"@[14] != "# TYPE madcap_rider_cactus_delta_km gauge\n"@[14]);
    reveal_strlit("# HELP madcap_rider_speed_kmh Current reported speed in km/h\n");
    assert("# TYPE madcap_event_active gauge\n"@[2] != "# HELP madcap_rider_speed_kmh Current reported speed in km/h\n"@[2]);
    reveal_strlit("# TYPE madcap_rider_speed_kmh gauge\n");
    assert("# TYPE madcap_event_active gauge\n"@[14] != "# TYPE madcap_rider_speed_kmh gauge\n"@[14]);
    reveal_strlit("# HELP madcap_rider_overall_rank Overall rank (1 = leader)\n");
    assert("# TYPE madcap_event_active gauge\n"@[2] != "# HELP madcap_rider_overall_rank Overall rank (1 = leader)\n"@[2]);
    reveal_strlit("# TYPE madcap_rider_overall_rank gauge\n");
    assert("# TYPE madcap_event_active gauge\n"@[14] != "# TYPE madcap_rider_overall_rank gauge\n"@[14]);
    reveal_strlit("# HELP madcap_rider_category_rank Rank within the rider's category\n");
    assert("# TYPE madcap_event_active gauge\n"@[2] != "# HELP madcap_rider_category_rank Rank within the rider's category\n"@[2]);
    reveal_strlit("# TYPE madcap_rider_category_rank gauge\n");
    assert("# TYPE madcap_event_active gauge\n"@[14] != "# TYPE madcap_rider_category_rank gauge\n"@[14]);
    reveal_strlit("# HELP madcap_rider_battery_pct Tracker battery percentage\n");
    assert("# TYPE madcap_event_active gauge\n"@[2] != "# HELP madcap_rider_battery_pct Tracker battery percentage\n"@[2]);
    reveal_strlit("# TYPE madcap_rider_battery_pct gauge\n");
    assert("# TYPE madcap_event_active gauge\n"@[14] != "# TYPE madcap_rider_battery_pct gauge\n"@[14]);
    reveal_strlit("# HELP madcap_rider_sleeping 1 if the rider is currently flagged sleeping, else 0\n");
    assert("# TYPE madcap_event_active gauge\n"@[2] != "# HELP madcap_rider_sleeping 1 if the rider is currently flagged sleeping, else 0\n"@[2]);
    reveal_strlit("# TYPE madcap_rider_sleeping gauge\n");
    assert("# TYPE madcap_event_active gauge\n"@[14] != "# TYPE madcap_rider_sleeping gauge\n"@[14]);
    reveal_strlit("# HELP madcap_rider_distance_to_next_cp_km Straight-line distance to the next checkpoint\n");
    assert("# TYPE madcap_event_active gauge\n"@[2] != "# HELP madcap_rider_distance_to_next_cp_km Straight-line distance to the next checkpoint\n"@[2]);
    reveal_strlit("# TYPE madcap_rider_distance_to_next_cp_km gauge\n");
    assert("# TYPE madcap_event_active gauge\n"@[14] != "# TYPE madcap_rider_distance_to_next_cp_km gauge\n"@[14]);
    assert forall|j: int| 21 < j < 44 implies header_lines()[21] != #[trigger] header_lines()[j] by {
    }
}

proof fn lemma_header_line_distinct_22()
    ensures
        forall|j: int| 22 < j < 44 ==> header_lines()[22] != #[trigger] header_lines()[j],
{
    reveal_strlit("# HELP madcap_event_sleeping Riders currently flagged sleeping\n");
    reveal_strlit("# TYPE madcap_event_sleeping gauge\n");
    assert("# HELP madcap_event_sleeping Riders currently flagged sleeping\n"@[2] != "# TYPE madcap_event_sleeping gauge\n"@[2]);
    reveal_strlit("# HELP madcap_event_started Riders with non-zero distance\n");
    assert("# HELP madcap_event_sleeping Riders currently flagged sleeping\n"@[21] != "# HELP madcap_event_started Riders with non-zero distance\n"@[21]);
    reveal_strlit("# TYPE madcap_event_started gauge\n");
    assert("# HELP madcap_event_sleeping Riders currently flagged sleeping\n"@[2] != "# TYPE madcap_event_started gauge\n"@[2]);
    reveal_strlit("# HELP madcap_event_finished Riders within 0.5 km of the course total\n");
    assert("# HELP madcap_event_sleeping Riders currently flagged sleeping\n"@[20] != "# HELP madcap_event_finished Riders within 0.5 km of the course total\n"@[20]);
    reveal_strlit("# TYPE madcap_event_finished gauge\n");
    assert("# HELP madcap_event_sleeping Riders currently flagged sleeping\n"@[2] != "# TYPE madcap_event_finished gauge\n"@[2]);
    reveal_strlit("# HELP madcap_rider_distance_km Distance covered by the rider in km\n");
    assert("# HELP madcap_event_sleeping Riders currently flagged sleeping\n"@[14] != "# HELP madcap_rider_distance_km Distance covered by the rider in km\n"@[14]);
    reveal_strlit("# TYPE madcap_rider_distance_km gauge\n");
    assert("# HELP madcap_event_sleeping Riders currently flagged sleeping\n"@[2] != "# TYPE madcap_rider_distance_km gauge\n"@[2]);
    reveal_strlit("# HELP madcap_rider_cactus_delta_km Rider distance minus the cactus pacer position in km (positive = ahead)\n");
    assert("# HELP madcap_event_sleeping Riders currently flagged sleeping\n"@[14] != "# HELP madcap_rider_cactus_delta_km Rider distance minus the cactus pacer position in km (positive = ahead)\n"@[14]);
    reveal_strlit("# TYPE madcap_rider_cactus_delta_km gauge\n");
    assert("# HELP madcap_event_sleeping Riders currently flagged sleeping\n"@[2] != "# TYPE madcap_rider_cactus_delta_km gauge\n"@[2]);
    reveal_strlit("# HELP madcap_rider_speed_kmh Current reported speed in km/h\n");
    assert("# HELP madcap_event_sleeping Riders currently flagged sleeping\n"@[14] != "# HELP madcap_rider_speed_kmh Current reported speed in km/h\n"@[14]);
    reveal_strlit("# TYPE madcap_rider_speed_kmh gauge\n");
    assert("# HELP madcap_event_sleeping Riders currently flagged sleeping\n"@[2] != "# TYPE madcap_rider_speed_kmh gauge\n"@[2]);
    reveal_strlit("# HELP madcap_rider_overall_rank Overall rank (1 = leader)\n");
    assert("# HELP madcap_event_sleeping Riders currently flagged sleeping\n"@[14] != "# HELP madcap_rider_overall_rank Overall rank (1 = leader)\n"@[14]);
    reveal_strlit("# TYPE madcap_rider_overall_rank gauge\n");
    assert("# HELP madcap_event_sleeping Riders currently flagged sleeping\n"@[2] != "# TYPE madcap_rider_overall_rank gauge\n"@[2]);
    reveal_strlit("# HELP madcap_rider_category_rank Rank within the rider's category\n");
    assert("# HELP madcap_event_sleeping Riders currently flagged sleeping\n"@[14] != "# HELP madcap_rider_category_rank Rank within the rider's category\n"@[14]);
    reveal_strlit("# TYPE madcap_rider_category_rank gauge\n");
    assert("# HELP madcap_event_sleeping Riders currently flagged sleeping\n"@[2] != "# TYPE madcap_rider_category_rank gauge\n"@[2]);
    reveal_strlit("# HELP madcap_rider_battery_pct Tracker battery percentage\n");
    assert("# HELP madcap_event_sleeping Riders currently flagged sleeping\n"@[14] != "# HELP madcap_rider_battery_pct Tracker battery percentage\n"@[14]);
    reveal_strlit("# TYPE madcap_rider_battery_pct gauge\n");
    assert("# HELP madcap_event_sleeping Riders currently flagged sleeping\n"@[2] != "# TYPE madcap_rider_battery_pct gauge\n"@[2]);
    reveal_strlit("# HELP madcap_rider_sleeping 1 if the rider is currently flagged sleeping, else 0\n");
    assert("# HELP madcap_event_sleeping Riders currently flagged sleeping\n"@[14] != "# HELP madcap_rider_sleeping 1 if the rider is currently flagged sleeping, else 0\n"@[14]);
    reveal_strlit("# TYPE madcap_rider_sleeping gauge\n");
    assert("# HELP madcap_event_sleeping Riders currently flagged sleeping\n"@[2] != "# TYPE madcap_rider_sleeping gauge\n"@[2]);
    reveal_strlit("# HELP madcap_rider_distance_to_next_cp_km Straight-line distance to the next checkpoint\n");
    assert("# HELP madcap_event_sleeping Riders currently flagged sleeping\n"@[14] != "# HELP madcap_rider_distance_to_next_cp_km Straight-line distance to the next checkpoint\n"@[14]);
    reveal_strlit("# TYPE madcap_rider_distance_to_next_cp_km gauge\n");
    assert("# HELP madcap_event_sleeping Riders currently flagged sleeping\n"@[2] != "# TYPE madcap_rider_distance_to_next_cp_km gauge\n"@[2]);
    assert forall|j: int| 22 < j < 44 implies header_lines()[22] != #[trigger] header_lines()[j] by {
    }
}

proof fn lemma_header_line_distinct_23()
    ensures
        forall|j: int| 23 < j < 44 ==> header_lines()[23] != #[trigger] header_lines()[j],
{
    reveal_strlit("# TYPE madcap_event_sleeping gauge\n");
    reveal_strlit("# HELP madcap_event_started Riders with non-zero distance\n");
    assert("# TYPE madcap_event_sleeping gauge\n"@[2] != "# HELP madcap_event_started Riders with non-zero distance\n"@[2]);
    reveal_strlit("# TYPE madcap_event_started gauge\n");
    assert("# TYPE madcap_event_sleeping gauge\n"@[21] != "# TYPE madcap_event_started gauge\n"@[21]);
    reveal_strlit("# HELP madcap_event_finished Riders within 0.5 km of the course total\n");
    assert("# TYPE madcap_event_sleeping gauge\n"@[2] != "# HELP madcap_event_finished Riders within 0.5 km of the course total\n"@[2]);
    reveal_strlit("# TYPE madcap_event_finished gauge\n");
    assert("# TYPE madcap_event_sleeping gauge\n"@[20] != "# TYPE madcap_event_finished gauge\n"@[20]);
    reveal_strlit("# HELP madcap_rider_distance_km Distance covered by the rider in km\n");
    assert("# TYPE madcap_event_sleeping gauge\n"@[2] != "# HELP madcap_rider_distance_km Distance covered by the rider in km\n"@[2]);
    reveal_strlit("# TYPE madcap_rider_distance_km gauge\n");
    assert("# TYPE madcap_event_sleeping gauge\n"@[14] != "# TYPE madcap_rider_distance_km gauge\n"@[14]);
    reveal_strlit("# HELP madcap_rider_cactus_delta_km Rider distance minus the cactus pacer position in km (positive = ahead)\n");
    assert("# TYPE madcap_event_sleeping gauge\n"@[2] != "# HELP madcap_rider_cactus_delta_km Rider distance minus the cactus pacer position in km (positive = ahead)\n"@[2]);
    reveal_strlit("# TYPE madcap_rider_cactus_delta_km gauge\n");
    assert("# TYPE madcap_event_sleeping gauge\n"@[14] != "# TYPE madcap_rider_cactus_delta_km gauge\n"@[14]);
    reveal_strlit("# HELP madcap_rider_speed_kmh Current reported speed in km/h\n");
    assert("# TYPE madcap_event_sleeping gauge\n"@[2] != "# HELP madcap_rider_speed_kmh Current reported speed in km/h\n"@[2]);
    reveal_strlit("# TYPE madcap_rider_speed_kmh gauge\n");
    assert("# TYPE madcap_event_sleeping gauge\n"@[14] != "# TYPE madcap_rider_speed_kmh gauge\n"@[14]);
    reveal_strlit("# HELP madcap_rider_overall_rank Overall rank (1 = leader)\n");
    assert("# TYPE madcap_event_sleeping gauge\n"@[2] != "# HELP madcap_rider_overall_rank Overall rank (1 = leader)\n"@[2]);
    reveal_strlit("# TYPE madcap_rider_overall_rank gauge\n");
    assert("# TYPE madcap_event_sleeping gauge\n"@[14] != "# TYPE madcap_rider_overall_rank gauge\n"@[14]);
    reveal_strlit("# HELP madcap_rider_category_rank Rank within the rider's category\n");
    assert("# TYPE madcap_event_sleeping gauge\n"@[2] != "# HELP madcap_rider_category_rank Rank within the rider's category\n"@[2]);
    reveal_strlit("# TYPE madcap_rider_category_rank gauge\n");
    assert("# TYPE madcap_event_sleeping gauge\n"@[14] != "# TYPE madcap_rider_category_rank gauge\n"@[14]);
    reveal_strlit("# HELP madcap_rider_battery_pct Tracker battery percentage\n");
    assert("# TYPE madcap_event_sleeping gauge\n"@[2] != "# HELP madcap_rider_battery_pct Tracker battery percentage\n"@[2]);
    reveal_strlit("# TYPE madcap_rider_battery_pct gauge\n");
    assert("# TYPE madcap_event_sleeping gauge\n"@[14] != "# TYPE madcap_rider_battery_pct gauge\n"@[14]);
    reveal_strlit("# HELP madcap_rider_sleeping 1 if the rider is currently flagged sleeping, else 0\n");
    assert("# TYPE madcap_event_sleeping gauge\n"@[2] != "# HELP madcap_rider_sleeping 1 if the rider is currently flagged sleeping, else 0\n"@[2]);
    reveal_strlit("# TYPE madcap_rider_sleeping gauge\n");
    assert("# TYPE madcap_event_sleeping gauge\n"@[14] != "# TYPE madcap_rider_sleeping gauge\n"@[14]);
    reveal_strlit("# HELP madcap_rider_distance_to_next_cp_km Straight-line distance to the next checkpoint\n");
    assert("# TYPE madcap_event_sleeping gauge\n"@[2] != "# HELP madcap_rider_distance_to_next_cp_km Straight-line distance to the next checkpoint\n"@[2]);
    reveal_strlit("# TYPE madcap_rider_distance_to_next_cp_km gauge\n");
    assert("# TYPE madcap_event_sleeping gauge\n"@[14] != "# TYPE madcap_rider_distance_to_next_cp_km gauge\n"@[14]);
    assert forall|j: int| 23 < j < 44 implies header_lines()[23] != #[trigger] header_lines()[j] by {
    }
}

proof fn lemma_header_line_distinct_24()
    ensures
        forall|j: int| 24 < j < 44 ==> header_lines()[24] != #[trigger] header_lines()[j],
{
    reveal_strlit("# HELP madcap_event_started Riders with non-zero distance\n");
    reveal_strlit("# TYPE madcap_event_started gauge\n");
    assert("# HELP madcap_event_started Riders with non-zero distance\n"@[2] != "# TYPE madcap_event_started gauge\n"@[2]);
    reveal_strlit("# HELP madcap_event_finished Riders within 0.5 km of the course total\n");
    assert("# HELP madcap_event_started Riders with non-zero distance\n"@[20] != "# HELP madcap_event_finished Riders within 0.5 km of the course total\n"@[20]);
    reveal_strlit("# TYPE madcap_event_finished gauge\n");
    assert("# HELP madcap_event_started Riders with non-zero distance\n"@[2] != "# TYPE madcap_event_finished gauge\n"@[2]);
    reveal_strlit("# HELP madcap_rider_distance_km Distance covered by the rider in km\n");
    assert("# HELP madcap_event_started Riders with non-zero distance\n"@[14] != "# HELP madcap_rider_distance_km Distance covered by the rider in km\n"@[14]);
    reveal_strlit("# TYPE madcap_rider_distance_km gauge\n");
    assert("# HELP madcap_event_started Riders with non-zero distance\n"@[2] != "# TYPE madcap_rider_distance_km gauge\n"@[2]);
    reveal_strlit("# HELP madcap_rider_cactus_delta_km Rider distance minus the cactus pacer position in km (positive = ahead)\n");
    assert("# HELP madcap_event_started Riders with non-zero distance\n"@[14] != "# HELP madcap_rider_cactus_delta_km Rider distance minus the cactus pacer position in km (positive = ahead)\n"@[14]);
    reveal_strlit("# TYPE madcap_rider_cactus_delta_km gauge\n");
    assert("# HELP madcap_event_started Riders with non-zero distance\n"@[2] != "# TYPE madcap_rider_cactus_delta_km gauge\n"@[2]);
    reveal_strlit("# HELP madcap_rider_speed_kmh Current reported speed in km/h\n");
    assert("# HELP madcap_event_started Riders with non-zero distance\n"@[14] != "# HELP madcap_rider_speed_kmh Current reported speed in km/h\n"@[14]);
    reveal_strlit("# TYPE madcap_rider_speed_kmh gauge\n");
    assert("# HELP madcap_event_started Riders with non-zero distance\n"@[2] != "# TYPE madcap_rider_speed_kmh gauge\n"@[2]);
    reveal_strlit("# HELP madcap_rider_overall_rank Overall rank (1 = leader)\n");
    assert("# HELP madcap_event_started Riders with non-zero distance\n"@[14] != "# HELP madcap_rider_overall_rank Overall rank (1 = leader)\n"@[14]);
    reveal_strlit("# TYPE madcap_rider_overall_rank gauge\n");
    assert("# HELP madcap_event_started Riders with non-zero distance\n"@[2] != "# TYPE madcap_rider_overall_rank gauge\n"@[2]);
    reveal_strlit("# HELP madcap_rider_category_rank Rank within the rider's category\n");
    assert("# HELP madcap_event_started Riders with non-zero distance\n"@[14] != "# HELP madcap_rider_category_rank Rank within the rider's category\n"@[14]);
    reveal_strlit("# TYPE madcap_rider_category_rank gauge\n");
    assert("# HELP madcap_event_started Riders with non-zero distance\n"@[2] != "# TYPE madcap_rider_category_rank gauge\n"@[2]);
    reveal_strlit("# HELP madcap_rider_battery_pct Tracker battery percentage\n");
    assert("# HELP madcap_event_started Riders with non-zero distance\n"@[14] != "# HELP madcap_rider_battery_pct Tracker battery percentage\n"@[14]);
    reveal_strlit("# TYPE madcap_rider_battery_pct gauge\n");
    assert("# HELP madcap_event_started Riders with non-zero distance\n"@[2] != "# TYPE madcap_rider_battery_pct gauge\n"@[2]);
    reveal_strlit("# HELP madcap_rider_sleeping 1 if the rider is currently flagged sleeping, else 0\n");
    assert("# HELP madcap_event_started Riders with non-zero distance\n"@[14] != "# HELP madcap_rider_sleeping 1 if the rider is currently flagged sleeping, else 0\n"@[14]);
    reveal_strlit("# TYPE madcap_rider_sleeping gauge\n");
    assert("# HELP madcap_event_started Riders with non-zero distance\n"@[2] != "# TYPE madcap_rider_sleeping gauge\n"@[2]);
    reveal_strlit("# HELP madcap_rider_distance_to_next_cp_km Straight-line distance to the next checkpoint\n");
    assert("# HELP madcap_event_started Riders with non-zero distance\n"@[14] != "# HELP madcap_rider_distance_to_next_cp_km Straight-line distance to the next checkpoint\n"@[14]);
    reveal_strlit("# TYPE madcap_rider_distance_to_next_cp_km gauge\n");
    assert("# HELP madcap_event_started Riders with non-zero distance\n"@[2] != "# TYPE madcap_rider_distance_to_next_cp_km gauge\n"@[2]);
    assert forall|j: int| 24 < j < 44 implies header_lines()[24] != #[trigger] header_lines()[j] by {
    }
}

proof fn lemma_header_line_distinct_25()
    ensures
        forall|j: int| 25 < j < 44 ==> header_lines()[25] != #[trigger] header_lines()[j],
{
    reveal_strlit("# TYPE madcap_event_started gauge\n");
    reveal_strlit("# HELP madcap_event_finished Riders within 0.5 km of the course total\n");
    assert("# TYPE madcap_event_started gauge\n"@[2] != "# HELP madcap_event_finished Riders within 0.5 km of the course total\n"@[2]);
    reveal_strlit("# TYPE madcap_event_finished gauge\n");
    assert("# TYPE madcap_event_started gauge\n"@[20] != "# TYPE madcap_event_finished gauge\n"@[20]);
    reveal_strlit("# HELP madcap_rider_distance_km Distance covered by the rider in km\n");
    assert("# TYPE madcap_event_started gauge\n"@[2] != "# HELP madcap_rider_distance_km Distance covered by the rider in km\n"@[2]);
    reveal_strlit("# TYPE madcap_rider_distance_km gauge\n");
    assert("# TYPE madcap_event_started gauge\n"@[14] != "# TYPE madcap_rider_distance_km gauge\n"@[14]);
    reveal_strlit("# HELP madcap_rider_cactus_delta_km Rider distance minus the cactus pacer position in km (positive = ahead)\n");
    assert("# TYPE madcap_event_started gauge\n"@[2] != "# HELP madcap_rider_cactus_delta_km Rider distance minus the cactus pacer position in km (positive = ahead)\n"@[2]);
    reveal_strlit("# TYPE madcap_rider_cactus_delta_km gauge\n");
    assert("# TYPE madcap_event_started gauge\n"@[14] != "# TYPE madcap_rider_cactus_delta_km gauge\n"@[14]);
    reveal_strlit("# HELP madcap_rider_speed_kmh Current reported speed in km/h\n");
    assert("# TYPE madcap_event_started gauge\n"@[2] != "# HELP madcap_rider_speed_kmh Current reported speed in km/h\n"@[2]);
    reveal_strlit("# TYPE madcap_rider_speed_kmh gauge\n");
    assert("# TYPE madcap_event_started gauge\n"@[14] != "# TYPE madcap_rider_speed_kmh gauge\n"@[14]);
    reveal_strlit("# HELP madcap_rider_overall_rank Overall rank (1 = leader)\n");
    assert("# TYPE madcap_event_started gauge\n"@[2] != "# HELP madcap_rider_overall_rank Overall rank (1 = leader)\n"@[2]);
    reveal_strlit("# TYPE madcap_rider_overall_rank gauge\n");
    assert("# TYPE madcap_event_started gauge\n"@[14] != "# TYPE madcap_rider_overall_rank gauge\n"@[14]);
    reveal_strlit("# HELP madcap_rider_category_rank Rank within the rider's category\n");
    assert("# TYPE madcap_event_started gauge\n"@[2] != "# HELP madcap_rider_category_rank Rank within the rider's category\n"@[2]);
    reveal_strlit("# TYPE madcap_rider_category_rank gauge\n");
    assert("# TYPE madcap_event_started gauge\n"@[14] != "# TYPE madcap_rider_category_rank gauge\n"@[14]);
    reveal_strlit("# HELP madcap_rider_battery_pct Tracker battery percentage\n");
    assert("# TYPE madcap_event_started gauge\n"@[2] != "# HELP madcap_rider_battery_pct Tracker battery percentage\n"@[2]);
    reveal_strlit("# TYPE madcap_rider_battery_pct gauge\n");
    assert("# TYPE madcap_event_started gauge\n"@[14] != "# TYPE madcap_rider_battery_pct gauge\n"@[14]);
    reveal_strlit("# HELP madcap_rider_sleeping 1 if the rider is currently flagged sleeping, else 0\n");
    assert("# TYPE madcap_event_started gauge\n"@[2] != "# HELP madcap_rider_sleeping 1 if the rider is currently flagged sleeping, else 0\n"@[2]);
    reveal_strlit("# TYPE madcap_rider_sleeping gauge\n");
    assert("# TYPE madcap_event_started gauge\n"@[14] != "# TYPE madcap_rider_sleeping gauge\n"@[14]);
    reveal_strlit("# HELP madcap_rider_distance_to_next_cp_km Straight-line distance to the next checkpoint\n");
    assert("# TYPE madcap_event_started gauge\n"@[2] != "# HELP madcap_rider_distance_to_next_cp_km Straight-line distance to the next checkpoint\n"@[2]);
    reveal_strlit("# TYPE madcap_rider_distance_to_next_cp_km gauge\n");
    assert("# TYPE madcap_event_started gauge\n"@[14] != "# TYPE madcap_rider_distance_to_next_cp_km gauge\n"@[14]);
    assert forall|j: int| 25 < j < 44 implies header_lines()[25] != #[trigger] header_lines()[j] by {
    }
}

proof fn lemma_header_line_distinct_26()
    ensures
        forall|j: int| 26 < j < 44 ==> header_lines()[26] != #[trigger] header_lines()[j],
{
    reveal_strlit("# HELP madcap_event_finished Riders within 0.5 km of the course total\n");
    reveal_strlit("# TYPE madcap_event_finished gauge\n");
    assert("# HELP madcap_event_finished Riders within 0.5 km of the course total\n"@[2] != "# TYPE madcap_event_finished gauge\n"@[2]);
    reveal_strlit("# HELP madcap_rider_distance_km Distance covered by the rider in km\n");
    assert("# HELP madcap_event_finished Riders within 0.5 km of the course total\n"@[14] != "# HELP madcap_rider_distance_km Distance covered by the rider in km\n"@[14]);
    reveal_strlit("# TYPE madcap_rider_distance_km gauge\n");
    assert("# HELP madcap_event_finished Riders within 0.5 km of the course total\n"@[2] != "# TYPE madcap_rider_distance_km gauge\n"@[2]);
    reveal_strlit("# HELP madcap_rider_cactus_delta_km Rider distance minus the cactus pacer position in km (positive = ahead)\n");
    assert("# HELP madcap_event_finished Riders within 0.5 km of the course total\n"@[14] != "# HELP madcap_rider_cactus_delta_km Rider distance minus the cactus pacer position in km (positive = ahead)\n"@[14]);
    reveal_strlit("# TYPE madcap_rider_cactus_delta_km gauge\n");
    assert("# HELP madcap_event_finished Riders within 0.5 km of the course total\n"@[2] != "# TYPE madcap_rider_cactus_delta_km gauge\n"@[2]);
    reveal_strlit("# HELP madcap_rider_speed_kmh Current reported speed in km/h\n");
    assert("# HELP madcap_event_finished Riders within 0.5 km of the course total\n"@[14] != "# HELP madcap_rider_speed_kmh Current reported speed in km/h\n"@[14]);
    reveal_strlit("# TYPE madcap_rider_speed_kmh gauge\n");
    assert("# HELP madcap_event_finished Riders within 0.5 km of the course total\n"@[2] != "# TYPE madcap_rider_speed_kmh gauge\n"@[2]);
    reveal_strlit("# HELP madcap_rider_overall_rank Overall rank (1 = leader)\n");
    assert("# HELP madcap_event_finished Riders within 0.5 km of the course total\n"@[14] != "# HELP madcap_rider_overall_rank Overall rank (1 = leader)\n"@[14]);
    reveal_strlit("# TYPE madcap_rider_overall_rank gauge\n");
    assert("# HELP madcap_event_finished Riders within 0.5 km of the course total\n"@[2] != "# TYPE madcap_rider_overall_rank gauge\n"@[2]);
    reveal_strlit("# HELP madcap_rider_category_rank Rank within the rider's category\n");
    assert("# HELP madcap_event_finished Riders within 0.5 km of the course total\n"@[14] != "# HELP madcap_rider_category_rank Rank within the rider's category\n"@[14]);
    reveal_strlit("# TYPE madcap_rider_category_rank gauge\n");
    assert("# HELP madcap_event_finished Riders within 0.5 km of the course total\n"@[2] != "# TYPE madcap_rider_category_rank gauge\n"@[2]);
    reveal_strlit("# HELP madcap_rider_battery_pct Tracker battery percentage\n");
    assert("# HELP madcap_event_finished Riders within 0.5 km of the course total\n"@[14] != "# HELP madcap_rider_battery_pct Tracker battery percentage\n"@[14]);
    reveal_strlit("# TYPE madcap_rider_battery_pct gauge\n");
    assert("# HELP madcap_event_finished Riders within 0.5 km of the course total\n"@[2] != "# TYPE madcap_rider_battery_pct gauge\n"@[2]);
    reveal_strlit("# HELP madcap_rider_sleeping 1 if the rider is currently flagged sleeping, else 0\n");
    assert("# HELP madcap_event_finished Riders within 0.5 km of the course total\n"@[14] != "# HELP madcap_rider_sleeping 1 if the rider is currently flagged sleeping, else 0\n"@[14]);
    reveal_strlit("# TYPE madcap_rider_sleeping gauge\n");
    assert("# HELP madcap_event_finished Riders within 0.5 km of the course total\n"@[2] != "# TYPE madcap_rider_sleeping gauge\n"@[2]);
    reveal_strlit("# HELP madcap_rider_distance_to_next_cp_km Straight-line distance to the next checkpoint\n");
    assert("# HELP madcap_event_finished Riders within 0.5 km of the course total\n"@[14] != "# HELP madcap_rider_distance_to_next_cp_km Straight-line distance to the next checkpoint\n"@[14]);
    reveal_strlit("# TYPE madcap_rider_distance_to_next_cp_km gauge\n");
    assert("# HELP madcap_event_finished Riders within 0.5 km of the course total\n"@[2] != "# TYPE madcap_rider_distance_to_next_cp_km gauge\n"@[2]);
    assert forall|j: int| 26 < j < 44 implies header_lines()[26] != #[trigger] header_lines()[j] by {
    }
}

proof fn lemma_header_line_distinct_27()
    ensures
        forall|j: int| 27 < j < 44 ==> header_lines()[27] != #[trigger] header_lines()[j],
{
    reveal_strlit("# TYPE madcap_event_finished gauge\n");
    reveal_strlit("# HELP madcap_rider_distance_km Distance covered by the rider in km\n");
    assert("# TYPE madcap_event_finished gauge\n"@[2] != "# HELP madcap_rider_distance_km Distance covered by the rider in km\n"@[2]);
    reveal_strlit("# TYPE madcap_rider_distance_km gauge\n");
    assert("# TYPE madcap_event_finished gauge\n"@[14] != "# TYPE madcap_rider_distance_km gauge\n"@[14]);
    reveal_strlit("# HELP madcap_rider_cactus_delta_km Rider distance minus the cactus pacer position in km (positive = ahead)\n");
    assert("# TYPE madcap_event_finished gauge\n"@[2] != "# HELP madcap_rider_cactus_delta_km Rider distance minus the cactus pacer position in km (positive = ahead)\n"@[2]);
    reveal_strlit("# TYPE madcap_rider_cactus_delta_km gauge\n");
    assert("# TYPE madcap_event_finished gauge\n"@[14] != "# TYPE madcap_rider_cactus_delta_km gauge\n"@[14]);
    reveal_strlit("# HELP madcap_rider_speed_kmh Current reported speed in km/h\n");
    assert("# TYPE madcap_event_finished gauge\n"@[2] != "# HELP madcap_rider_speed_kmh Current reported speed in km/h\n"@[2]);
    reveal_strlit("# TYPE madcap_rider_speed_kmh gauge\n");
    assert("# TYPE madcap_event_finished gauge\n"@[14] != "# TYPE madcap_rider_speed_kmh gauge\n"@[14]);
    reveal_strlit("# HELP madcap_rider_overall_rank Overall rank (1 = leader)\n");
    assert("# TYPE madcap_event_finished gauge\n"@[2] != "# HELP madcap_rider_overall_rank Overall rank (1 = leader)\n"@[2]);
    reveal_strlit("# TYPE madcap_rider_overall_rank gauge\n");
    assert("# TYPE madcap_event_finished gauge\n"@[14] != "# TYPE madcap_rider_overall_rank gauge\n"@[14]);
    reveal_strlit("# HELP madcap_rider_category_rank Rank within the rider's category\n");
    assert("# TYPE madcap_event_finished gauge\n"@[2] != "# HELP madcap_rider_category_rank Rank within the rider's category\n"@[2]);
    reveal_strlit("# TYPE madcap_rider_category_rank gauge\n");
    assert("# TYPE madcap_event_finished gauge\n"@[14] != "# TYPE madcap_rider_category_rank gauge\n"@[14]);
    reveal_strlit("# HELP madcap_rider_battery_pct Tracker battery percentage\n");
    assert("# TYPE madcap_event_finished gauge\n"@[2] != "# HELP madcap_rider_battery_pct Tracker battery percentage\n"@[2]);
    reveal_strlit("# TYPE madcap_rider_battery_pct gauge\n");
    assert("# TYPE madcap_event_finished gauge\n"@[14] != "# TYPE madcap_rider_battery_pct gauge\n"@[14]);
    reveal_strlit("# HELP madcap_rider_sleeping 1 if the rider is currently flagged sleeping, else 0\n");
    assert("# TYPE madcap_event_finished gauge\n"@[2] != "# HELP madcap_rider_sleeping 1 if the rider is currently flagged sleeping, else 0\n"@[2]);
    reveal_strlit("# TYPE madcap_rider_sleeping gauge\n");
    assert("# TYPE madcap_event_finished gauge\n"@[14] != "# TYPE madcap_rider_sleeping gauge\n"@[14]);
    reveal_strlit("# HELP madcap_rider_distance_to_next_cp_km Straight-line distance to the next checkpoint\n");
    assert("# TYPE madcap_event_finished gauge\n"@[2] != "# HELP madcap_rider_distance_to_next_cp_km Straight-line distance to the next checkpoint\n"@[2]);
    reveal_strlit("# TYPE madcap_rider_distance_to_next_cp_km gauge\n");
    assert("# TYPE madcap_event_finished gauge\n"@[14] != "# TYPE madcap_rider_distance_to_next_cp_km gauge\n"@[14]);
    assert forall|j: int| 27 < j < 44 implies header_lines()[27] != #[trigger] header_lines()[j] by {
    }
}

proof fn lemma_header_line_distinct_28()
    ensures
        forall|j: int| 28 < j < 44 ==> header_lines()[28] != #[trigger] header_lines()[j],
{
    reveal_strlit("# HELP madcap_rider_distance_km Distance covered by the rider in km\n");
    reveal_strlit("# TYPE madcap_rider_distance_km gauge\n");
    assert("# HELP madcap_rider_distance_km Distance covered by the rider in km\n"@[2] != "# TYPE madcap_rider_distance_km gauge\n"@[2]);
    reveal_strlit("# HELP madcap_rider_cactus_delta_km Rider distance minus the cactus pacer position in km (positive = ahead)\n");
    assert("# HELP madcap_rider_distance_km Distance covered by the rider in km\n"@[20] != "# HELP madcap_rider_cactus_delta_km Rider distance minus the cactus pacer position in km (positive = ahead)\n"@[20]);
    reveal_strlit("# TYPE madcap_rider_cactus_delta_km gauge\n");
    assert("# HELP madcap_rider_distance_km Distance covered by the rider in km\n"@[2] != "# TYPE madcap_rider_cactus_delta_km gauge\n"@[2]);
    reveal_strlit("# HELP madcap_rider_speed_kmh Current reported speed in km/h\n");
    assert("# HELP madcap_rider_distance_km Distance covered by the rider in km\n"@[20] != "# HELP madcap_rider_speed_kmh Current reported speed in km/h\n"@[20]);
    reveal_strlit("# TYPE madcap_rider_speed_kmh gauge\n");
    assert("# HELP madcap_rider_distance_km Distance covered by the rider in km\n"@[2] != "# TYPE madcap_rider_speed_kmh gauge\n"@[2]);
    reveal_strlit("# HELP madcap_rider_overall_rank Overall rank (1 = leader)\n");
    assert("# HELP madcap_rider_distance_km Distance covered by the rider in km\n"@[20] != "# HELP madcap_rider_overall_rank Overall rank (1 = leader)\n"@[20]);
    reveal_strlit("# TYPE madcap_rider_overall_rank gauge\n");
    assert("# HELP madcap_rider_distance_km Distance covered by the rider in km\n"@[2] != "# TYPE madcap_rider_overall_rank gauge\n"@[2]);
    reveal_strlit("# HELP madcap_rider_category_rank Rank within the rider's category\n");
    assert("# HELP madcap_rider_distance_km Distance covered by the rider in km\n"@[20] != "# HELP madcap_rider_category_rank Rank within the rider's category\n"@[20]);
    reveal_strlit("# TYPE madcap_rider_category_rank gauge\n");
    assert("# HELP madcap_rider_distance_km Distance covered by the rider in km\n"@[2] != "# TYPE madcap_rider_category_rank gauge\n"@[2]);
    reveal_strlit("# HELP madcap_rider_battery_pct Tracker battery percentage\n");
    assert("# HELP madcap_rider_distance_km Distance covered by the rider in km\n"@[20] != "# HELP madcap_rider_battery_pct Tracker battery percentage\n"@[20]);
    reveal_strlit("# TYPE madcap_rider_battery_pct gauge\n");
    assert("# HELP madcap_rider_distance_km Distance covered by the rider in km\n"@[2] != "# TYPE madcap_rider_battery_pct gauge\n"@[2]);
    reveal_strlit("# HELP madcap_rider_sleeping 1 if the rider is currently flagged sleeping, else 0\n");
    assert("# HELP madcap_rider_distance_km Distance covered by the rider in km\n"@[20] != "# HELP madcap_rider_sleeping 1 if the rider is currently flagged sleeping, else 0\n"@[20]);
    reveal_strlit("# TYPE madcap_rider_sleeping gauge\n");
    assert("# HELP madcap_rider_distance_km Distance covered by the rider in km\n"@[2] != "# TYPE madcap_rider_sleeping gauge\n"@[2]);
    reveal_strlit("# HELP madcap_rider_distance_to_next_cp_km Straight-line distance to the next checkpoint\n");
    assert("# HELP madcap_rider_distance_km Distance covered by the rider in km\n"@[29] != "# HELP madcap_rider_distance_to_next_cp_km Straight-line distance to the next checkpoint\n"@[29]);
    reveal_strlit("# TYPE madcap_rider_distance_to_next_cp_km gauge\n");
    assert("# HELP madcap_rider_distance_km Distance covered by the rider in km\n"@[2] != "# TYPE madcap_rider_distance_to_next_cp_km gauge\n"@[2]);
    assert forall|j: int| 28 < j < 44 implies header_lines()[28] != #[trigger] header_lines()[j] by {
    }
}

proof fn lemma_header_line_distinct_29()
    ensures
        forall|j: int| 29 < j < 44 ==> header_lines()[29] != #[trigger] header_lines()[j],
{
    reveal_strlit("# TYPE madcap_rider_distance_km gauge\n");
    reveal_strlit("# HELP madcap_rider_cactus_delta_km Rider distance minus the cactus pacer position in km (positive = ahead)\n");
    assert("# TYPE madcap_rider_distance_km gauge\n"@[2] != "# HELP madcap_rider_cactus_delta_km Rider distance minus the cactus pacer position in km (positive = ahead)\n"@[2]);
    reveal_strlit("# TYPE madcap_rider_cactus_delta_km gauge\n");
    assert("# TYPE madcap_rider_distance_km gauge\n"@[20] != "# TYPE madcap_rider_cactus_delta_km gauge\n"@[20]);
    reveal_strlit("# HELP madcap_rider_speed_kmh Current reported speed in km/h\n");
    assert("# TYPE madcap_rider_distance_km gauge\n"@[2] != "# HELP madcap_rider_speed_kmh Current reported speed in km/h\n"@[2]);
    reveal_strlit("# TYPE madcap_rider_speed_kmh gauge\n");
    assert("# TYPE madcap_rider_distance_km gauge\n"@[20] != "# TYPE madcap_rider_speed_kmh gauge\n"@[20]);
    reveal_strlit("# HELP madcap_rider_overall_rank Overall rank (1 = leader)\n");
    assert("# TYPE madcap_rider_distance_km gauge\n"@[2] != "# HELP madcap_rider_overall_rank Overall rank (1 = leader)\n"@[2]);
    reveal_strlit("# TYPE madcap_rider_overall_rank gauge\n");
    assert("# TYPE madcap_rider_distance_km gauge\n"@[20] != "# TYPE madcap_rider_overall_rank gauge\n"@[20]);
    reveal_strlit("# HELP madcap_rider_category_rank Rank within the rider's category\n");
    assert("# TYPE madcap_rider_distance_km gauge\n"@[2] != "# HELP madcap_rider_category_rank Rank within the rider's category\n"@[2]);
    reveal_strlit("# TYPE madcap_rider_category_rank gauge\n");
    assert("# TYPE madcap_rider_distance_km gauge\n"@[20] != "# TYPE madcap_rider_category_rank gauge\n"@[20]);
    reveal_strlit("# HELP madcap_rider_battery_pct Tracker battery percentage\n");
    assert("# TYPE madcap_rider_distance_km gauge\n"@[2] != "# HELP madcap_rider_battery_pct Tracker battery percentage\n"@[2]);
    reveal_strlit("# TYPE madcap_rider_battery_pct gauge\n");
    assert("# TYPE madcap_rider_distance_km gauge\n"@[20] != "# TYPE madcap_rider_battery_pct gauge\n"@[20]);
    reveal_strlit("# HELP madcap_rider_sleeping 1 if the rider is currently flagged sleeping, else 0\n");
    assert("# TYPE madcap_rider_distance_km gauge\n"@[2] != "# HELP madcap_rider_sleeping 1 if the rider is currently flagged sleeping, else 0\n"@[2]);
    reveal_strlit("# TYPE madcap_rider_sleeping gauge\n");
    assert("# TYPE madcap_rider_distance_km gauge\n"@[20] != "# TYPE madcap_rider_sleeping gauge\n"@[20]);
    reveal_strlit("# HELP madcap_rider_distance_to_next_cp_km Straight-line distance to the next checkpoint\n");
    assert("# TYPE madcap_rider_distance_km gauge\n"@[2] != "# HELP madcap_rider_distance_to_next_cp_km Straight-line distance to the next checkpoint\n"@[2]);
    reveal_strlit("# TYPE madcap_rider_distance_to_next_cp_km gauge\n");
    assert("# TYPE madcap_rider_distance_km gauge\n"@[29] != "# TYPE madcap_rider_distance_to_next_cp_km gauge\n"@[29]);
    assert forall|j: int| 29 < j < 44 implies header_lines()[29] != #[trigger] header_lines()[j] by {
    }
}

proof fn lemma_header_line_distinct_30()
    ensures
        forall|j: int| 30 < j < 44 ==> header_lines()[30] != #[trigger] header_lines()[j],
{
    reveal_strlit("# HELP madcap_rider_cactus_delta_km Rider distance minus the cactus pacer position in km (positive = ahead)\n");
    reveal_strlit("# TYPE madcap_rider_cactus_delta_km gauge\n");
    assert("# HELP madcap_rider_cactus_delta_km Rider distance minus the cactus pacer position in km (positive = ahead)\n"@[2] != "# TYPE madcap_rider_cactus_delta_km gauge\n"@[2]);
    reveal_strlit("# HELP madcap_rider_speed_kmh Current reported speed in km/h\n");
    assert("# HELP madcap_rider_cactus_delta_km Rider distance minus the cactus pacer position in km (positive = ahead)\n"@[20] != "# HELP madcap_rider_speed_kmh Current reported speed in km/h\n"@[20]);
    reveal_strlit("# TYPE madcap_rider_speed_kmh gauge\n");
    assert("# HELP madcap_rider_cactus_delta_km Rider distance minus the cactus pacer position in km (positive = ahead)\n"@[2] != "# TYPE madcap_rider_speed_kmh gauge\n"@[2]);
    reveal_strlit("# HELP madcap_rider_overall_rank Overall rank (1 = leader)\n");
    assert("# HELP madcap_rider_cactus_delta_km Rider distance minus the cactus pacer position in km (positive = ahead)\n"@[20] != "# HELP madcap_rider_overall_rank Overall rank (1 = leader)\n"@[20]);
    reveal_strlit("# TYPE madcap_rider_overall_rank gauge\n");
    assert("# HELP madcap_rider_cactus_delta_km Rider distance minus the cactus pacer position in km (positive = ahead)\n"@[2] != "# TYPE madcap_rider_overall_rank gauge\n"@[2]);
    reveal_strlit("# HELP madcap_rider_category_rank Rank within the rider's category\n");
    assert("# HELP madcap_rider_cactus_delta_km Rider distance minus the cactus pacer position in km (positive = ahead)\n"@[22] != "# HELP madcap_rider_category_rank Rank within the rider's category\n"@[22]);
    reveal_strlit("# TYPE madcap_rider_category_rank gauge\n");
    assert("# HELP madcap_rider_cactus_delta_km Rider distance minus the cactus pacer position in km (positive = ahead)\n"@[2] != "# TYPE madcap_rider_category_rank gauge\n"@[2]);
    reveal_strlit("# HELP madcap_rider_battery_pct Tracker battery percentage\n");
    assert("# HELP madcap_rider_cactus_delta_km Rider distance minus the cactus pacer position in km (positive = ahead)\n"@[20] != "# HELP madcap_rider_battery_pct Tracker battery percentage\n"@[20]);
    reveal_strlit("# TYPE madcap_rider_battery_pct gauge\n");
    assert("# HELP madcap_rider_cactus_delta_km Rider distance minus the cactus pacer position in km (positive = ahead)\n"@[2] != "# TYPE madcap_rider_battery_pct gauge\n"@[2]);
    reveal_strlit("# HELP madcap_rider_sleeping 1 if the rider is currently flagged sleeping, else 0\n");
    assert("# HELP madcap_rider_cactus_delta_km Rider distance minus the cactus pacer position in km (positive = ahead)\n"@[20] != "# HELP madcap_rider_sleeping 1 if the rider is currently flagged sleeping, else 0\n"@[20]);
    reveal_strlit("# TYPE madcap_rider_sleeping gauge\n");
    assert("# HELP madcap_rider_cactus_delta_km Rider distance minus the cactus pacer position in km (positive = ahead)\n"@[2] != "# TYPE madcap_rider_sleeping gauge\n"@[2]);
    reveal_strlit("# HELP madcap_rider_distance_to_next_cp_km Straight-line distance to the next checkpoint\n");
    assert("# HELP madcap_rider_cactus_delta_km Rider distance minus the cactus pacer position in km (positive = ahead)\n"@[20] != "# HELP madcap_rider_distance_to_next_cp_km Straight-line distance to the next checkpoint\n"@[20]);
    reveal_strlit("# TYPE madcap_rider_distance_to_next_cp_km gauge\n");
    assert("# HELP madcap_rider_cactus_delta_km Rider distance minus the cactus pacer position in km (positive = ahead)\n"@[2] != "# TYPE madcap_rider_distance_to_next_cp_km gauge\n"@[2]);
    assert forall|j: int| 30 < j < 44 implies header_lines()[30] != #[trigger] header_lines()[j] by {
    }
}

proof fn lemma_header_line_distinct_31()
    ensures
        forall|j: int| 31 < j < 44 ==> header_lines()[31] != #[trigger] header_lines()[j],
{
    reveal_strlit("# TYPE madcap_rider_cactus_delta_km gauge\n");
    reveal_strlit("# HELP madcap_rider_speed_kmh Current reported speed in km/h\n");
    assert("# TYPE madcap_rider_cactus_delta_km gauge\n"@[2] != "# HELP madcap_rider_speed_kmh Current reported speed in km/h\n"@[2]);
    reveal_strlit("# TYPE madcap_rider_speed_kmh gauge\n");
    assert("# TYPE madcap_rider_cactus_delta_km gauge\n"@[20] != "# TYPE madcap_rider_speed_kmh gauge\n"@[20]);
    reveal_strlit("# HELP madcap_rider_overall_rank Overall rank (1 = leader)\n");
    assert("# TYPE madcap_rider_cactus_delta_km gauge\n"@[2] != "# HELP madcap_rider_overall_rank Overall rank (1 = leader)\n"@[2]);
    reveal_strlit("# TYPE madcap_rider_overall_rank gauge\n");
    assert("# TYPE madcap_rider_cactus_delta_km gauge\n"@[20] != "# TYPE madcap_rider_overall_rank gauge\n"@[20]);
    reveal_strlit("# HELP madcap_rider_category_rank Rank within the rider's category\n");
    assert("# TYPE madcap_rider_cactus_delta_km gauge\n"@[2] != "# HELP madcap_rider_category_rank Rank within the rider's category\n"@[2]);
    reveal_strlit("# TYPE madcap_rider_category_rank gauge\n");
    assert("# TYPE madcap_rider_cactus_delta_km gauge\n"@[22] != "# TYPE madcap_rider_category_rank gauge\n"@[22]);
    reveal_strlit("# HELP madcap_rider_battery_pct Tracker battery percentage\n");
    assert("# TYPE madcap_rider_cactus_delta_km gauge\n"@[2] != "# HELP madcap_rider_battery_pct Tracker battery percentage\n"@[2]);
    reveal_strlit("# TYPE madcap_rider_battery_pct gauge\n");
    assert("# TYPE madcap_rider_cactus_delta_km gauge\n"@[20] != "# TYPE madcap_rider_battery_pct gauge\n"@[20]);
    reveal_strlit("# HELP madcap_rider_sleeping 1 if the rider is currently flagged sleeping, else 0\n");
    assert("# TYPE madcap_rider_cactus_delta_km gauge\n"@[2] != "# HELP madcap_rider_sleeping 1 if the rider is currently flagged sleeping, else 0\n"@[2]);
    reveal_strlit("# TYPE madcap_rider_sleeping gauge\n");
    assert("# TYPE madcap_rider_cactus_delta_km gauge\n"@[20] != "# TYPE madcap_rider_sleeping gauge\n"@[20]);
    reveal_strlit("# HELP madcap_rider_distance_to_next_cp_km Straight-line distance to the next checkpoint\n");
    assert("# TYPE madcap_rider_cactus_delta_km gauge\n"@[2] != "# HELP madcap_rider_distance_to_next_cp_km Straight-line distance to the next checkpoint\n"@[2]);
    reveal_strlit("# TYPE madcap_rider_distance_to_next_cp_km gauge\n");
    assert("# TYPE madcap_rider_cactus_delta_km gauge\n"@[20] != "# TYPE madcap_rider_distance_to_next_cp_km gauge\n"@[20]);
    assert forall|j: int| 31 < j < 44 implies header_lines()[31] != #[trigger] header_lines()[j] by {
    }
}

proof fn lemma_header_line_distinct_32()
    ensures
        forall|j: int| 32 < j < 44 ==> header_lines()[32] != #[trigger] header_lines()[j],
{
    reveal_strlit("# HELP madcap_rider_speed_kmh Current reported speed in km/h\n");
    reveal_strlit("# TYPE madcap_rider_speed_kmh gauge\n");
    assert("# HELP madcap_rider_speed_kmh Current reported speed in km/h\n"@[2] != "# TYPE madcap_rider_speed_kmh gauge\n"@[2]);
    reveal_strlit("# HELP madcap_rider_overall_rank Overall rank (1 = leader)\n");
    assert("# HELP madcap_rider_speed_kmh Current reported speed in km/h\n"@[20] != "# HELP madcap_rider_overall_rank Overall rank (1 = leader)\n"@[20]);
    reveal_strlit("# TYPE madcap_rider_overall_rank gauge\n");
    assert("# HELP madcap_rider_speed_kmh Current reported speed in km/h\n"@[2] != "# TYPE madcap_rider_overall_rank gauge\n"@[2]);
    reveal_strlit("# HELP madcap_rider_category_rank Rank within the rider's category\n");
    assert("# HELP madcap_rider_speed_kmh Current reported speed in km/h\n"@[20] != "# HELP madcap_rider_category_rank Rank within the rider's category\n"@[20]);
    reveal_strlit("# TYPE madcap_rider_category_rank gauge\n");
    assert("# HELP madcap_rider_speed_kmh Current reported speed in km/h\n"@[2] != "# TYPE madcap_rider_category_rank gauge\n"@[2]);
    reveal_strlit("# HELP madcap_rider_battery_pct Tracker battery percentage\n");
    assert("# HELP madcap_rider_speed_kmh Current reported speed in km/h\n"@[20] != "# HELP madcap_rider_battery_pct Tracker battery percentage\n"@[20]);
    reveal_strlit("# TYPE madcap_rider_battery_pct gauge\n");
    assert("# HELP madcap_rider_speed_kmh Current reported speed in km/h\n"@[2] != "# TYPE madcap_rider_battery_pct gauge\n"@[2]);
    reveal_strlit("# HELP madcap_rider_sleeping 1 if the rider is currently flagged sleeping, else 0\n");
    assert("# HELP madcap_rider_speed_kmh Current reported speed in km/h\n"@[21] != "# HELP madcap_rider_sleeping 1 if the rider is currently flagged sleeping, else 0\n"@[21]);
    reveal_strlit("# TYPE madcap_rider_sleeping gauge\n");
    assert("# HELP madcap_rider_speed_kmh Current reported speed in km/h\n"@[2] != "# TYPE madcap_rider_sleeping gauge\n"@[2]);
    reveal_strlit("# HELP madcap_rider_distance_to_next_cp_km Straight-line distance to the next checkpoint\n");
    assert("# HELP madcap_rider_speed_kmh Current reported speed in km/h\n"@[20] != "# HELP madcap_rider_distance_to_next_cp_km Straight-line distance to the next checkpoint\n"@[20]);
    reveal_strlit("# TYPE madcap_rider_distance_to_next_cp_km gauge\n");
    assert("# HELP madcap_rider_speed_kmh Current reported speed in km/h\n"@[2] != "# TYPE madcap_rider_distance_to_next_cp_km gauge\n"@[2]);
    assert forall|j: int| 32 < j < 44 implies header_lines()[32] != #[trigger] header_lines()[j] by {
    }
}

proof fn lemma_header_line_distinct_33()
    ensures
        forall|j: int| 33 < j < 44 ==> header_lines()[33] != #[trigger] header_lines()[j],
{
    reveal_strlit("# TYPE madcap_rider_speed_kmh gauge\n");
    reveal_strlit("# HELP madcap_rider_overall_rank Overall rank (1 = leader)\n");
    assert("# TYPE madcap_rider_speed_kmh gauge\n"@[2] != "# HELP madcap_rider_overall_rank Overall rank (1 = leader)\n"@[2]);
    reveal_strlit("# TYPE madcap_rider_overall_rank gauge\n");
    assert("# TYPE madcap_rider_speed_kmh gauge\n"@[20] != "# TYPE madcap_rider_overall_rank gauge\n"@[20]);
    reveal_strlit("# HELP madcap_rider_category_rank Rank within the rider's category\n");
    assert("# TYPE madcap_rider_speed_kmh gauge\n"@[2] != "# HELP madcap_rider_category_rank Rank within the rider's category\n"@[2]);
    reveal_strlit("# TYPE madcap_rider_category_rank gauge\n");
    assert("# TYPE madcap_rider_speed_kmh gauge\n"@[20] != "# TYPE madcap_rider_category_rank gauge\n"@[20]);
    reveal_strlit("# HELP madcap_rider_battery_pct Tracker battery percentage\n");
    assert("# TYPE madcap_rider_speed_kmh gauge\n"@[2] != "# HELP madcap_rider_battery_pct Tracker battery percentage\n"@[2]);
    reveal_strlit("# TYPE madcap_rider_battery_pct gauge\n");
    assert("# TYPE madcap_rider_speed_kmh gauge\n"@[20] != "# TYPE madcap_rider_battery_pct gauge\n"@[20]);
    reveal_strlit("# HELP madcap_rider_sleeping 1 if the rider is currently flagged sleeping, else 0\n");
    assert("# TYPE madcap_rider_speed_kmh gauge\n"@[2] != "# HELP madcap_rider_sleeping 1 if the rider is currently flagged sleeping, else 0\n"@[2]);
    reveal_strlit("# TYPE madcap_rider_sleeping gauge\n");
    assert("# TYPE madcap_rider_speed_kmh gauge\n"@[21] != "# TYPE madcap_rider_sleeping gauge\n"@[21]);
    reveal_strlit("# HELP madcap_rider_distance_to_next_cp_km Straight-line distance to the next checkpoint\n");
    assert("# TYPE madcap_rider_speed_kmh gauge\n"@[2] != "# HELP madcap_rider_distance_to_next_cp_km Straight-line distance to the next checkpoint\n"@[2]);
    reveal_strlit("# TYPE madcap_rider_distance_to_next_cp_km gauge\n");
    assert("# TYPE madcap_rider_speed_kmh gauge\n"@[20] != "# TYPE madcap_rider_distance_to_next_cp_km gauge\n"@[20]);
    assert forall|j: int| 33 < j < 44 implies header_lines()[33] != #[trigger] header_lines()[j] by {
    }
}

proof fn lemma_header_line_distinct_34()
    ensures
        forall|j: int| 34 < j < 44 ==> header_lines()[34] != #[trigger] header_lines()[j],
{
    reveal_strlit("# HELP madcap_rider_overall_rank Overall rank (1 = leader)\n");
    reveal_strlit("# TYPE madcap_rider_overall_rank gauge\n");
    assert("# HELP madcap_rider_overall_rank Overall rank (1 = leader)\n"@[2] != "# TYPE madcap_rider_overall_rank gauge\n"@[2]);
    reveal_strlit("# HELP madcap_rider_category_rank Rank within the rider's category\n");
    assert("# HELP madcap_rider_overall_rank Overall rank (1 = leader)\n"@[20] != "# HELP madcap_rider_category_rank Rank within the rider's category\n"@[20]);
    reveal_strlit("# TYPE madcap_rider_category_rank gauge\n");
    assert("# HELP madcap_rider_overall_rank Overall rank (1 = leader)\n"@[2] != "# TYPE madcap_rider_category_rank gauge\n"@[2]);
    reveal_strlit("# HELP madcap_rider_battery_pct Tracker battery percentage\n");
    assert("# HELP madcap_rider_overall_rank Overall rank (1 = leader)\n"@[20] != "# HELP madcap_rider_battery_pct Tracker battery percentage\n"@[20]);
    reveal_strlit("# TYPE madcap_rider_battery_pct gauge\n");
    assert("# HELP madcap_rider_overall_rank Overall rank (1 = leader)\n"@[2] != "# TYPE madcap_rider_battery_pct gauge\n"@[2]);
    reveal_strlit("# HELP madcap_rider_sleeping 1 if the rider is currently flagged sleeping, else 0\n");
    assert("# HELP madcap_rider_overall_rank Overall rank (1 = leader)\n"@[20] != "# HELP madcap_rider_sleeping 1 if the rider is currently flagged sleeping, else 0\n"@[20]);
    reveal_strlit("# TYPE madcap_rider_sleeping gauge\n");
    assert("# HELP madcap_rider_overall_rank Overall rank (1 = leader)\n"@[2] != "# TYPE madcap_rider_sleeping gauge\n"@[2]);
    reveal_strlit("# HELP madcap_rider_distance_to_next_cp_km Straight-line distance to the next checkpoint\n");
    assert("# HELP madcap_rider_overall_rank Overall rank (1 = leader)\n"@[20] != "# HELP madcap_rider_distance_to_next_cp_km Straight-line distance to the next checkpoint\n"@[20]);
    reveal_strlit("# TYPE madcap_rider_distance_to_next_cp_km gauge\n");
    assert("# HELP madcap_rider_overall_rank Overall rank (1 = leader)\n"@[2] != "# TYPE madcap_rider_distance_to_next_cp_km gauge\n"@[2]);
    assert forall|j: int| 34 < j < 44 implies header_lines()[34] != #[trigger] header_lines()[j] by {
    }
}

proof fn lemma_header_line_distinct_35()
    ensures
        forall|j: int| 35 < j < 44 ==> header_lines()[35] != #[trigger] header_lines()[j],
{
    reveal_strlit("# TYPE madcap_rider_overall_rank gauge\n");
    reveal_strlit("# HELP madcap_rider_category_rank Rank within the rider's category\n");
    assert("# TYPE madcap_rider_overall_rank gauge\n"@[2] != "# HELP madcap_rider_category_rank Rank within the rider's category\n"@[2]);
    reveal_strlit("# TYPE madcap_rider_category_rank gauge\n");
    assert("# TYPE madcap_rider_overall_rank gauge\n"@[20] != "# TYPE madcap_rider_category_rank gauge\n"@[20]);
    reveal_strlit("# HELP madcap_rider_battery_pct Tracker battery percentage\n");
    assert("# TYPE madcap_rider_overall_rank gauge\n"@[2] != "# HELP madcap_rider_battery_pct Tracker battery percentage\n"@[2]);
    reveal_strlit("# TYPE madcap_rider_battery_pct gauge\n");
    assert("# TYPE madcap_rider_overall_rank gauge\n"@[20] != "# TYPE madcap_rider_battery_pct gauge\n"@[20]);
    reveal_strlit("# HELP madcap_rider_sleeping 1 if the rider is currently flagged sleeping, else 0\n");
    assert("# TYPE madcap_rider_overall_rank gauge\n"@[2] != "# HELP madcap_rider_sleeping 1 if the rider is currently flagged sleeping, else 0\n"@[2]);
    reveal_strlit("# TYPE madcap_rider_sleeping gauge\n");
    assert("# TYPE madcap_rider_overall_rank gauge\n"@[20] != "# TYPE madcap_rider_sleeping gauge\n"@[20]);
    reveal_strlit("# HELP madcap_rider_distance_to_next_cp_km Straight-line distance to the next checkpoint\n");
    assert("# TYPE madcap_rider_overall_rank gauge\n"@[2] != "# HELP madcap_rider_distance_to_next_cp_km Straight-line distance to the next checkpoint\n"@[2]);
    reveal_strlit("# TYPE madcap_rider_distance_to_next_cp_km gauge\n");
    assert("# TYPE madcap_rider_overall_rank gauge\n"@[20] != "# TYPE madcap_rider_distance_to_next_cp_km gauge\n"@[20]);
    assert forall|j: int| 35 < j < 44 implies header_lines()[35] != #[trigger] header_lines()[j] by {
    }
}

proof fn lemma_header_line_distinct_36()
    ensures
        forall|j: int| 36 < j < 44 ==> header_lines()[36] != #[trigger] header_lines()[j],
{
    reveal_strlit("# HELP madcap_rider_category_rank Rank within the rider's category\n");
    reveal_strlit("# TYPE madcap_rider_category_rank gauge\n");
    assert("# HELP madcap_rider_category_rank Rank within the rider's category\n"@[2] != "# TYPE madcap_rider_category_rank gauge\n"@[2]);
    reveal_strlit("# HELP madcap_rider_battery_pct Tracker battery percentage\n");
    assert("# HELP madcap_rider_category_rank Rank within the rider's category\n"@[20] != "# HELP madcap_rider_battery_pct Tracker battery percentage\n"@[20]);
    reveal_strlit("# TYPE madcap_rider_battery_pct gauge\n");
    assert("# HELP madcap_rider_category_rank Rank within the rider's category\n"@[2] != "# TYPE madcap_rider_battery_pct gauge\n"@[2]);
    reveal_strlit("# HELP madcap_rider_sleeping 1 if the rider is currently flagged sleeping, else 0\n");
    assert("# HELP madcap_rider_category_rank Rank within the rider's category\n"@[20] != "# HELP madcap_rider_sleeping 1 if the rider is currently flagged sleeping, else 0\n"@[20]);
    reveal_strlit("# TYPE madcap_rider_sleeping gauge\n");
    assert("# HELP madcap_rider_category_rank Rank within the rider's category\n"@[2] != "# TYPE madcap_rider_sleeping gauge\n"@[2]);
    reveal_strlit("# HELP madcap_rider_distance_to_next_cp_km Straight-line distance to the next checkpoint\n");
    assert("# HELP madcap_rider_category_rank Rank within the rider's category\n"@[20] != "# HELP madcap_rider_distance_to_next_cp_km Straight-line distance to the next checkpoint\n"@[20]);
    reveal_strlit("# TYPE madcap_rider_distance_to_next_cp_km gauge\n");
    assert("# HELP madcap_rider_category_rank Rank within the rider's category\n"@[2] != "# TYPE madcap_rider_distance_to_next_cp_km gauge\n"@[2]);
    assert forall|j: int| 36 < j < 44 implies header_lines()[36] != #[trigger] header_lines()[j] by {
    }
}

proof fn lemma_header_line_distinct_37()
    ensures
        forall|j: int| 37 < j < 44 ==> header_lines()[37] != #[trigger] header_lines()[j],
{
    reveal_strlit("# TYPE madcap_rider_category_rank gauge\n");
    reveal_strlit("# HELP madcap_rider_battery_pct Tracker battery percentage\n");
    assert("# TYPE madcap_rider_category_rank gauge\n"@[2] != "# HELP madcap_rider_battery_pct Tracker battery percentage\n"@[2]);
    reveal_strlit("# TYPE madcap_rider_battery_pct gauge\n");
    assert("# TYPE madcap_rider_category_rank gauge\n"@[20] != "# TYPE madcap_rider_battery_pct gauge\n"@[20]);
    reveal_strlit("# HELP madcap_rider_sleeping 1 if the rider is currently flagged sleeping, else 0\n");
    assert("# TYPE madcap_rider_category_rank gauge\n"@[2] != "# HELP madcap_rider_sleeping 1 if the rider is currently flagged sleeping, else 0\n"@[2]);
    reveal_strlit("# TYPE madcap_rider_sleeping gauge\n");
    assert("# TYPE madcap_rider_category_rank gauge\n"@[20] != "# TYPE madcap_rider_sleeping gauge\n"@[20]);
    reveal_strlit("# HELP madcap_rider_distance_to_next_cp_km Straight-line distance to the next checkpoint\n");
    assert("# TYPE madcap_rider_category_rank gauge\n"@[2] != "# HELP madcap_rider_distance_to_next_cp_km Straight-line distance to the next checkpoint\n"@[2]);
    reveal_strlit("# TYPE madcap_rider_distance_to_next_cp_km gauge\n");
    assert("# TYPE madcap_rider_category_rank gauge\n"@[20] != "# TYPE madcap_rider_distance_to_next_cp_km gauge\n"@[20]);
    assert forall|j: int| 37 < j < 44 implies header_lines()[37] != #[trigger] header_lines()[j] by {
    }
}

proof fn lemma_header_line_distinct_38()
    ensures
        forall|j: int| 38 < j < 44 ==> header_lines()[38] != #[trigger] header_lines()[j],
{
    reveal_strlit("# HELP madcap_rider_battery_pct Tracker battery percentage\n");
    reveal_strlit("# TYPE madcap_rider_battery_pct gauge\n");
    assert("# HELP madcap_rider_battery_pct Tracker battery percentage\n"@[2] != "# TYPE madcap_rider_battery_pct gauge\n"@[2]);
    reveal_strlit("# HELP madcap_rider_sleeping 1 if the rider is currently flagged sleeping, else 0\n");
    assert("# HELP madcap_rider_battery_pct Tracker battery percentage\n"@[20] != "# HELP madcap_rider_sleeping 1 if the rider is currently flagged sleeping, else 0\n"@[20]);
    reveal_strlit("# TYPE madcap_rider_sleeping gauge\n");
    assert("# HELP madcap_rider_battery_pct Tracker battery percentage\n"@[2] != "# TYPE madcap_rider_sleeping gauge\n"@[2]);
    reveal_strlit("# HELP madcap_rider_distance_to_next_cp_km Straight-line distance to the next checkpoint\n");
    assert("# HELP madcap_rider_battery_pct Tracker battery percentage\n"@[20] != "# HELP madcap_rider_distance_to_next_cp_km Straight-line distance to the next checkpoint\n"@[20]);
    reveal_strlit("# TYPE madcap_rider_distance_to_next_cp_km gauge\n");
    assert("# HELP madcap_rider_battery_pct Tracker battery percentage\n"@[2] != "# TYPE madcap_rider_distance_to_next_cp_km gauge\n"@[2]);
    assert forall|j: int| 38 < j < 44 implies header_lines()[38] != #[trigger] header_lines()[j] by {
    }
}

proof fn lemma_header_line_distinct_39()
    ensures
        forall|j: int| 39 < j < 44 ==> header_lines()[39] != #[trigger] header_lines()[j],
{
    reveal_strlit("# TYPE madcap_rider_battery_pct gauge\n");
    reveal_strlit("# HELP madcap_rider_sleeping 1 if the rider is currently flagged sleeping, else 0\n");
    assert("# TYPE madcap_rider_battery_pct gauge\n"@[2] != "# HELP madcap_rider_sleeping 1 if the rider is currently flagged sleeping, else 0\n"@[2]);
    reveal_strlit("# TYPE madcap_rider_sleeping gauge\n");
    assert("# TYPE madcap_rider_battery_pct gauge\n"@[20] != "# TYPE madcap_rider_sleeping gauge\n"@[20]);
    reveal_strlit("# HELP madcap_rider_distance_to_next_cp_km Straight-line distance to the next checkpoint\n");
    assert("# TYPE madcap_rider_battery_pct gauge\n"@[2] != "# HELP madcap_rider_distance_to_next_cp_km Straight-line distance to the next checkpoint\n"@[2]);
    reveal_strlit("# TYPE madcap_rider_distance_to_next_cp_km gauge\n");
    assert("# TYPE madcap_rider_battery_pct gauge\n"@[20] != "# TYPE madcap_rider_distance_to_next_cp_km gauge\n"@[20]);
    assert forall|j: int| 39 < j < 44 implies header_lines()[39] != #[trigger] header_lines()[j] by {
    }
}

proof fn lemma_header_line_distinct_40()
    ensures
        forall|j: int| 40 < j < 44 ==> header_lines()[40] != #[trigger] header_lines()[j],
{
    reveal_strlit("# HELP madcap_rider_sleeping 1 if the rider is currently flagged sleeping, else 0\n");
    reveal_strlit("# TYPE madcap_rider_sleeping gauge\n");
    assert("# HELP madcap_rider_sleeping 1 if the rider is currently flagged sleeping, else 0\n"@[2] != "# TYPE madcap_rider_sleeping gauge\n"@[2]);
    reveal_strlit("# HELP madcap_rider_distance_to_next_cp_km Straight-line distance to the next checkpoint\n");
    assert("# HELP madcap_rider_sleeping 1 if the rider is currently flagged sleeping, else 0\n"@[20] != "# HELP madcap_rider_distance_to_next_cp_km Straight-line distance to the next checkpoint\n"@[20]);
    reveal_strlit("# TYPE madcap_rider_distance_to_next_cp_km gauge\n");
    assert("# HELP madcap_rider_sleeping 1 if the rider is currently flagged sleeping, else 0\n"@[2] != "# TYPE madcap_rider_distance_to_next_cp_km gauge\n"@[2]);
    assert forall|j: int| 40 < j < 44 implies header_lines()[40] != #[trigger] header_lines()[j] by {
    }
}

proof fn lemma_header_line_distinct_41()
    ensures
        forall|j: int| 41 < j < 44 ==> header_lines()[41] != #[trigger] header_lines()[j],
{
    reveal_strlit("# TYPE madcap_rider_sleeping gauge\n");
    reveal_strlit("# HELP madcap_rider_distance_to_next_cp_km Straight-line distance to the next checkpoint\n");
    assert("# TYPE madcap_rider_sleeping gauge\n"@[2] != "# HELP madcap_rider_distance_to_next_cp_km Straight-line distance to the next checkpoint\n"@[2]);
    reveal_strlit("# TYPE madcap_rider_distance_to_next_cp_km gauge\n");
    assert("# TYPE madcap_rider_sleeping gauge\n"@[20] != "# TYPE madcap_rider_distance_to_next_cp_km gauge\n"@[20]);
    assert forall|j: int| 41 < j < 44 implies header_lines()[41] != #[trigger] header_lines()[j] by {
    }
}

proof fn lemma_header_line_distinct_42()
    ensures
        forall|j: int| 42 < j < 44 ==> header_lines()[42] != #[trigger] header_lines()[j],
{
    reveal_strlit("# HELP madcap_rider_distance_to_next_cp_km Straight-line distance to the next checkpoint\n");
    reveal_strlit("# TYPE madcap_rider_distance_to_next_cp_km gauge\n");
    assert("# HELP madcap_rider_distance_to_next_cp_km Straight-line distance to the next checkpoint\n"@[2] != "# TYPE madcap_rider_distance_to_next_cp_km gauge\n"@[2]);
    assert forall|j: int| 42 < j < 44 implies header_lines()[42] != #[trigger] header_lines()[j] by {
    }
}

/// The HELP and TYPE lines are pairwise distinct.
pub proof fn lemma_header_lines_distinct()
    ensures
        header_lines().no_duplicates(),
        header_lines().len() == 44,
{
    lemma_header_line_distinct_0();
    lemma_header_line_distinct_1();
    lemma_header_line_distinct_2();
    lemma_header_line_distinct_3();
    lemma_header_line_distinct_4();
    lemma_header_line_distinct_5();
    lemma_header_line_distinct_6();
    lemma_header_line_distinct_7();
    lemma_header_line_distinct_8();
    lemma_header_line_distinct_9();
    lemma_header_line_distinct_10();
    lemma_header_line_distinct_11();
    lemma_header_line_distinct_12();
    lemma_header_line_distinct_13();
    lemma_header_line_distinct_14();
    lemma_header_line_distinct_15();
    lemma_header_line_distinct_16();
    lemma_header_line_distinct_17();
    lemma_header_line_distinct_18();
    lemma_header_line_distinct_19();
    lemma_header_line_distinct_20();
    lemma_header_line_distinct_21();
    lemma_header_line_distinct_22();
    lemma_header_line_distinct_23();
    lemma_header_line_distinct_24();
    lemma_header_line_distinct_25();
    lemma_header_line_distinct_26();
    lemma_header_line_distinct_27();
    lemma_header_line_distinct_28();
    lemma_header_line_distinct_29();
    lemma_header_line_distinct_30();
    lemma_header_line_distinct_31();
    lemma_header_line_distinct_32();
    lemma_header_line_distinct_33();
    lemma_header_line_distinct_34();
    lemma_header_line_distinct_35();
    lemma_header_line_distinct_36();
    lemma_header_line_distinct_37();
    lemma_header_line_distinct_38();
    lemma_header_line_distinct_39();
    lemma_header_line_distinct_40();
    lemma_header_line_distinct_41();
    lemma_header_line_distinct_42();
    assert forall|i: int, j: int| 0 <= i < 44 && 0 <= j < 44 && i != j implies header_lines()[i] != header_lines()[j] by {
        if i == 0 || j == 0 {
            assert(header_lines()[0] != header_lines()[if i == 0 { j } else { i }]);
        } else if i == 1 || j == 1 {
            assert(header_lines()[1] != header_lines()[if i == 1 { j } else { i }]);
        } else if i == 2 || j == 2 {
            assert(header_lines()[2] != header_lines()[if i == 2 { j } else { i }]);
        } else if i == 3 || j == 3 {
            assert(header_lines()[3] != header_lines()[if i == 3 { j } else { i }]);
        } else if i == 4 || j == 4 {
            assert(header_lines()[4] != header_lines()[if i == 4 { j } else { i }]);
        } else if i == 5 || j == 5 {
            assert(header_lines()[5] != header_lines()[if i == 5 { j } else { i }]);
        } else if i == 6 || j == 6 {
            assert(header_lines()[6] != header_lines()[if i == 6 { j } else { i }]);
        } else if i == 7 || j == 7 {
            assert(header_lines()[7] != header_lines()[if i == 7 { j } else { i }]);
        } else if i == 8 || j == 8 {
            assert(header_lines()[8] != header_lines()[if i == 8 { j } else { i }]);
        } else if i == 9 || j == 9 {
            assert(header_lines()[9] != header_lines()[if i == 9 { j } else { i }]);
        } else if i == 10 || j == 10 {
            assert(header_lines()[10] != header_lines()[if i == 10 { j } else { i }]);
        } else if i == 11 || j == 11 {
            assert(header_lines()[11] != header_lines()[if i == 11 { j } else { i }]);
        } else if i == 12 || j == 12 {
            assert(header_lines()[12] != header_lines()[if i == 12 { j } else { i }]);
        } else if i == 13 || j == 13 {
            assert(header_lines()[13] != header_lines()[if i == 13 { j } else { i }]);
        } else if i == 14 || j == 14 {
            assert(header_lines()[14] != header_lines()[if i == 14 { j } else { i }]);
        } else if i == 15 || j == 15 {
            assert(header_lines()[15] != header_lines()[if i == 15 { j } else { i }]);
        } else if i == 16 || j == 16 {
            assert(header_lines()[16] != header_lines()[if i == 16 { j } else { i }]);
        } else if i == 17 || j == 17 {
            assert(header_lines()[17] != header_lines()[if i == 17 { j } else { i }]);
        } else if i == 18 || j == 18 {
            assert(header_lines()[18] != header_lines()[if i == 18 { j } else { i }]);
        } else if i == 19 || j == 19 {
            assert(header_lines()[19] != header_lines()[if i == 19 { j } else { i }]);
        } else if i == 20 || j == 20 {
            assert(header_lines()[20] != header_lines()[if i == 20 { j } else { i }]);
        } else if i == 21 || j == 21 {
            assert(header_lines()[21] != header_lines()[if i == 21 { j } else { i }]);
        } else if i == 22 || j == 22 {
            assert(header_lines()[22] != header_lines()[if i == 22 { j } else { i }]);
        } else if i == 23 || j == 23 {
            assert(header_lines()[23] != header_lines()[if i == 23 { j } else { i }]);
        } else if i == 24 || j == 24 {
            assert(header_lines()[24] != header_lines()[if i == 24 { j } else { i }]);
        } else if i == 25 || j == 25 {
            assert(header_lines()[25] != header_lines()[if i == 25 { j } else { i }]);
        } else if i == 26 || j == 26 {
            assert(header_lines()[26] != header_lines()[if i == 26 { j } else { i }]);
        } else if i == 27 || j == 27 {
            assert(header_lines()[27] != header_lines()[if i == 27 { j } else { i }]);
        } else if i == 28 || j == 28 {
            assert(header_lines()[28] != header_lines()[if i == 28 { j } else { i }]);
        } else if i == 29 || j == 29 {
            assert(header_lines()[29] != header_lines()[if i == 29 { j } else { i }]);
        } else if i == 30 || j == 30 {
            assert(header_lines()[30] != header_lines()[if i == 30 { j } else { i }]);
        } else if i == 31 || j == 31 {
            assert(header_lines()[31] != header_lines()[if i == 31 { j } else { i }]);
        } else if i == 32 || j == 32 {
            assert(header_lines()[32] != header_lines()[if i == 32 { j } else { i }]);
        } else if i == 33 || j == 33 {
            assert(header_lines()[33] != header_lines()[if i == 33 { j } else { i }]);
        } else if i == 34 || j == 34 {
            assert(header_lines()[34] != header_lines()[if i == 34 { j } else { i }]);
        } else if i == 35 || j == 35 {
            assert(header_lines()[35] != header_lines()[if i == 35 { j } else { i }]);
        } else if i == 36 || j == 36 {
            assert(header_lines()[36] != header_lines()[if i == 36 { j } else { i }]);
        } else if i == 37 || j == 37 {
            assert(header_lines()[37] != header_lines()[if i == 37 { j } else { i }]);
        } else if i == 38 || j == 38 {
            assert(header_lines()[38] != header_lines()[if i == 38 { j } else { i }]);
        } else if i == 39 || j == 39 {
            assert(header_lines()[39] != header_lines()[if i == 39 { j } else { i }]);
        } else if i == 40 || j == 40 {
            assert(header_lines()[40] != header_lines()[if i == 40 { j } else { i }]);
        } else if i == 41 || j == 41 {
            assert(header_lines()[41] != header_lines()[if i == 41 { j } else { i }]);
        } else if i == 42 || j == 42 {
            assert(header_lines()[42] != header_lines()[if i == 42 { j } else { i }]);
        } else if i == 43 || j == 43 {
            assert(header_lines()[43] != header_lines()[if i == 43 { j } else { i }]);
        }
    }
}

} // verus!
