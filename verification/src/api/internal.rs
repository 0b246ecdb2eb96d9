//! The shape of the schedule document that splatoon3.ink publishes, field by
//! field as the bot reads it. Decoding the JSON happens outside the library;
//! these types hold the decoded values.

use vstd::prelude::*;

verus! {

/// A stage as the API lists it.
#[derive(Debug, PartialEq, Eq)]
pub struct ApiStage {
    pub id: String,
    pub vs_stage_id: Option<i32>,
    pub name: String,
}

/// The rule of a versus match; `rule` is a code such as `AREA`.
#[derive(Debug, PartialEq, Eq)]
pub struct ApiVsRule {
    pub name: String,
    pub rule: String,
    pub id: String,
}

/// The stages and rule of one kind of match. For ranked matches `mode` is
/// `CHALLENGE` (Series) or `OPEN`.
#[derive(Debug, PartialEq, Eq)]
pub struct ApiMatchSetting {
    pub vs_stages: Vec<ApiStage>,
    pub vs_rule: ApiVsRule,
    pub mode: Option<String>,
}

/// One rotation of regular (Turf War) matches.
#[derive(Debug, PartialEq, Eq)]
pub struct ApiRegularNode {
    pub start_time: String,
    pub end_time: String,
    pub regular_match_setting: ApiMatchSetting,
    pub fest_match_setting: Option<ApiMatchSetting>,
}

/// The regular rotations, current one first.
#[derive(Debug, PartialEq, Eq)]
pub struct ApiRegularNodeContainer {
    pub nodes: Vec<ApiRegularNode>,
}

/// One rotation of ranked (Anarchy) matches, with one setting for Series and
/// one for Open.
#[derive(Debug, PartialEq, Eq)]
pub struct ApiAnarchyNode {
    pub start_time: String,
    pub end_time: String,
    pub bankara_match_settings: Vec<ApiMatchSetting>,
    pub fest_match_setting: Option<ApiMatchSetting>,
}

/// The ranked rotations, current one first.
#[derive(Debug, PartialEq, Eq)]
pub struct ApiAnarchyNodeContainer {
    pub nodes: Vec<ApiAnarchyNode>,
}

/// A weapon handed out in Salmon Run.
#[derive(Debug, PartialEq, Eq)]
pub struct ApiWeapon {
    pub name: String,
}

/// The stage and weapons of one Salmon Run shift.
#[derive(Debug, PartialEq, Eq)]
pub struct ApiCoopSetting {
    pub coop_stage: ApiStage,
    pub weapons: Vec<ApiWeapon>,
}

/// One Salmon Run shift.
#[derive(Debug, PartialEq, Eq)]
pub struct ApiCoopNode {
    pub start_time: String,
    pub end_time: String,
    pub setting: ApiCoopSetting,
}

/// The Salmon Run shifts, current one first.
#[derive(Debug, PartialEq, Eq)]
pub struct ApiCoopNodeContainer {
    pub nodes: Vec<ApiCoopNode>,
}

/// The Salmon Run schedules.
#[derive(Debug, PartialEq, Eq)]
pub struct ApiCoopGroupingSchedule {
    pub regular_schedules: ApiCoopNodeContainer,
}

/// The schedules of every mode.
#[derive(Debug, PartialEq, Eq)]
pub struct ApiDataResponse {
    pub regular_schedules: ApiRegularNodeContainer,
    pub bankara_schedules: ApiAnarchyNodeContainer,
    pub coop_grouping_schedule: ApiCoopGroupingSchedule,
}

/// The whole schedule document.
#[derive(Debug, PartialEq, Eq)]
pub struct ApiResponse {
    pub data: ApiDataResponse,
}

} // verus!
