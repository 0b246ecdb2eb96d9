//! The schedule model (stages, modes and the four rotations that a post
//! announces) and how it is read off the published schedule document.

pub mod internal;

use vstd::prelude::*;
use crate::strings::str_eq;
use crate::time::{Timestamp, parsed_timestamp, parse_from_rfc3339};
use self::internal::{ApiMatchSetting, ApiResponse, ApiStage, ApiWeapon};

verus! {

/// A stage, by its English name.
#[derive(Debug, PartialEq, Eq)]
pub struct Stage(pub String);

/// A weapon, by its English name.
#[derive(Debug, PartialEq, Eq)]
pub struct Weapon(pub String);

/// The four ranked ("Anarchy") game modes.
#[derive(Debug, Clone, Copy, PartialEq, Eq, Structural)]
pub enum RankedGameMode {
    ClamBlitz,
    TowerControl,
    SplatZones,
    Rainmaker,
}

/// The two kinds of Anarchy Battle.
#[derive(Debug, Clone, Copy, PartialEq, Eq, Structural)]
pub enum AnarchyType {
    Series,
    Open,
}

/// The current Turf War rotation.
#[derive(Debug, PartialEq, Eq)]
pub struct TurfWarSchedule {
    pub ends_at: Timestamp,
    pub stages: Vec<Stage>,
}

/// The current rotation of one kind of Anarchy Battle.
#[derive(Debug, PartialEq, Eq)]
pub struct AnarchySchedule {
    pub ends_at: Timestamp,
    pub stages: Vec<Stage>,
    pub mode: RankedGameMode,
    pub mode_type: AnarchyType,
}

/// The current Salmon Run shift.
#[derive(Debug, PartialEq, Eq)]
pub struct SalmonRunSchedule {
    pub ends_at: Timestamp,
    pub stage: Stage,
    pub weapons: Vec<Weapon>,
}

/// Everything a post announces.
#[derive(Debug, PartialEq, Eq)]
pub struct Schedules {
    pub turf_war: TurfWarSchedule,
    pub anarchy_series: AnarchySchedule,
    pub anarchy_open: AnarchySchedule,
    pub salmon_run: SalmonRunSchedule,
}

/// Why no schedules could be read off a schedule document.
#[derive(Debug, PartialEq, Eq)]
pub enum ScheduleError {
    /// There is no Turf War rotation.
    NoTurfWarNode,
    /// The end of the Turf War rotation is not an RFC 3339 time.
    BadTurfWarTime,
    /// There is no Anarchy rotation.
    NoAnarchyNode,
    /// The Anarchy rotation has no `CHALLENGE` (Series) setting.
    NoSeriesSetting,
    /// The Anarchy rotation has no `OPEN` setting.
    NoOpenSetting,
    /// The end of the Anarchy rotation is not an RFC 3339 time.
    BadAnarchyTime,
    /// An Anarchy setting names a rule code that is not a known mode.
    UnknownRule(String),
    /// There is no Salmon Run shift.
    NoSalmonRunNode,
    /// The end of the Salmon Run shift is not an RFC 3339 time.
    BadSalmonRunTime,
}

/// `ScheduleError` with its text as characters.
pub enum ScheduleFault {
    NoTurfWarNode,
    BadTurfWarTime,
    NoAnarchyNode,
    NoSeriesSetting,
    NoOpenSetting,
    BadAnarchyTime,
    UnknownRule(Seq<char>),
    NoSalmonRunNode,
    BadSalmonRunTime,
}

impl View for ScheduleError {
    type V = ScheduleFault;

    open spec fn view(&self) -> ScheduleFault {
        match self {
            ScheduleError::NoTurfWarNode => ScheduleFault::NoTurfWarNode,
            ScheduleError::BadTurfWarTime => ScheduleFault::BadTurfWarTime,
            ScheduleError::NoAnarchyNode => ScheduleFault::NoAnarchyNode,
            ScheduleError::NoSeriesSetting => ScheduleFault::NoSeriesSetting,
            ScheduleError::NoOpenSetting => ScheduleFault::NoOpenSetting,
            ScheduleError::BadAnarchyTime => ScheduleFault::BadAnarchyTime,
            ScheduleError::UnknownRule(r) => ScheduleFault::UnknownRule(r@),
            ScheduleError::NoSalmonRunNode => ScheduleFault::NoSalmonRunNode,
            ScheduleError::BadSalmonRunTime => ScheduleFault::BadSalmonRunTime,
        }
    }
}

/// A Turf War rotation with its stages as names.
pub struct TurfWarView {
    pub ends_at: Timestamp,
    pub stages: Seq<Seq<char>>,
}

/// An Anarchy rotation with its stages as names.
pub struct AnarchyView {
    pub ends_at: Timestamp,
    pub stages: Seq<Seq<char>>,
    pub mode: RankedGameMode,
    pub mode_type: AnarchyType,
}

/// A Salmon Run shift with its stage and weapons as names.
pub struct SalmonRunView {
    pub ends_at: Timestamp,
    pub stage: Seq<char>,
    pub weapons: Seq<Seq<char>>,
}

/// `Schedules` with every name as characters.
pub struct SchedulesView {
    pub turf_war: TurfWarView,
    pub anarchy_series: AnarchyView,
    pub anarchy_open: AnarchyView,
    pub salmon_run: SalmonRunView,
}

/// The names of a list of stages.
pub open spec fn stage_names(v: Seq<Stage>) -> Seq<Seq<char>> {
    v.map_values(|s: Stage| s.0@)
}

/// The names of a list of weapons.
pub open spec fn weapon_names(v: Seq<Weapon>) -> Seq<Seq<char>> {
    v.map_values(|w: Weapon| w.0@)
}

/// The names of a list of stages as the API gives them.
pub open spec fn api_stage_names(v: Seq<ApiStage>) -> Seq<Seq<char>> {
    v.map_values(|s: ApiStage| s.name@)
}

/// The names of a list of weapons as the API gives them.
pub open spec fn api_weapon_names(v: Seq<ApiWeapon>) -> Seq<Seq<char>> {
    v.map_values(|w: ApiWeapon| w.name@)
}

impl View for TurfWarSchedule {
    type V = TurfWarView;

    open spec fn view(&self) -> TurfWarView {
        TurfWarView { ends_at: self.ends_at, stages: stage_names(self.stages@) }
    }
}

impl View for AnarchySchedule {
    type V = AnarchyView;

    open spec fn view(&self) -> AnarchyView {
        AnarchyView {
            ends_at: self.ends_at,
            stages: stage_names(self.stages@),
            mode: self.mode,
            mode_type: self.mode_type,
        }
    }
}

impl View for SalmonRunSchedule {
    type V = SalmonRunView;

    open spec fn view(&self) -> SalmonRunView {
        SalmonRunView {
            ends_at: self.ends_at,
            stage: self.stage.0@,
            weapons: weapon_names(self.weapons@),
        }
    }
}

impl View for Schedules {
    type V = SchedulesView;

    open spec fn view(&self) -> SchedulesView {
        SchedulesView {
            turf_war: self.turf_war@,
            anarchy_series: self.anarchy_series@,
            anarchy_open: self.anarchy_open@,
            salmon_run: self.salmon_run@,
        }
    }
}

/// The mode that an API rule code stands for, if the code is one of the four
/// known ones.
pub open spec fn mode_of_rule(rule: Seq<char>) -> Option<RankedGameMode> {
    if rule == "AREA"@ {
        Some(RankedGameMode::SplatZones)
    } else if rule == "CLAM"@ {
        Some(RankedGameMode::ClamBlitz)
    } else if rule == "GOAL"@ {
        Some(RankedGameMode::Rainmaker)
    } else if rule == "LOFT"@ {
        Some(RankedGameMode::TowerControl)
    } else {
        None
    }
}

/// The English name of a mode.
pub open spec fn en_name(mode: RankedGameMode) -> Seq<char> {
    match mode {
        RankedGameMode::ClamBlitz => "Clam Blitz"@,
        RankedGameMode::TowerControl => "Tower Control"@,
        RankedGameMode::SplatZones => "Splat Zones"@,
        RankedGameMode::Rainmaker => "Rainmaker"@,
    }
}

impl RankedGameMode {
    /// Reads an API rule code; `None` for a code that names no known mode.
    pub fn parse_rule(rule: &str) -> (res: Option<RankedGameMode>)
        ensures
            res == mode_of_rule(rule@),
    {
        if str_eq(rule, "AREA") {
            Some(RankedGameMode::SplatZones)
        } else if str_eq(rule, "CLAM") {
            Some(RankedGameMode::ClamBlitz)
        } else if str_eq(rule, "GOAL") {
            Some(RankedGameMode::Rainmaker)
        } else if str_eq(rule, "LOFT") {
            Some(RankedGameMode::TowerControl)
        } else {
            None
        }
    }

    /// The mode for a known API rule code.
    pub fn from_rule(rule: &str) -> (res: RankedGameMode)
        requires
            mode_of_rule(rule@) is Some,
        ensures
            mode_of_rule(rule@) == Some(res),
    {
        Self::parse_rule(rule).unwrap()
    }

    /// The mode's English name.
    pub fn get_en_name(&self) -> (res: &'static str)
        ensures
            res@ == en_name(*self),
    {
        match self {
            RankedGameMode::ClamBlitz => "Clam Blitz",
            RankedGameMode::TowerControl => "Tower Control",
            RankedGameMode::SplatZones => "Splat Zones",
            RankedGameMode::Rainmaker => "Rainmaker",
        }
    }
}

/// Whether a match setting is of the given kind (`CHALLENGE` or `OPEN`).
pub open spec fn has_mode(setting: ApiMatchSetting, mode: Seq<char>) -> bool {
    setting.mode matches Some(m) && m@ == mode
}

/// `i` is the position of the first setting of the given kind.
pub open spec fn is_first_with_mode(settings: Seq<ApiMatchSetting>, mode: Seq<char>, i: int) -> bool {
    &&& 0 <= i < settings.len()
    &&& has_mode(settings[i], mode)
    &&& forall|j: int| 0 <= j < i ==> !has_mode(#[trigger] settings[j], mode)
}

/// The position of the first setting of the given kind, if there is one.
pub open spec fn first_with_mode(settings: Seq<ApiMatchSetting>, mode: Seq<char>) -> Option<int> {
    if exists|i: int| is_first_with_mode(settings, mode, i) {
        Some(choose|i: int| is_first_with_mode(settings, mode, i))
    } else {
        None
    }
}

proof fn lemma_first_with_mode_unique(settings: Seq<ApiMatchSetting>, mode: Seq<char>, i: int, k: int)
    requires
        is_first_with_mode(settings, mode, i),
        is_first_with_mode(settings, mode, k),
    ensures
        i == k,
{
    if i < k {
        assert(!has_mode(settings[i], mode));
    } else if k < i {
        assert(!has_mode(settings[k], mode));
    }
}

fn find_setting(settings: &Vec<ApiMatchSetting>, mode: &str) -> (res: Option<usize>)
    ensures
        res matches Some(i) ==> first_with_mode(settings@, mode@) == Some(i as int),
        res is None ==> first_with_mode(settings@, mode@) is None,
{
    let mut i: usize = 0;
    while i < settings.len()
        invariant
            i <= settings.len(),
            forall|j: int| 0 <= j < i ==> !has_mode(#[trigger] settings@[j], mode@),
        decreases settings.len() - i,
    {
        let hit = match &settings[i].mode {
            Some(m) => str_eq(m.as_str(), mode),
            None => false,
        };
        if hit {
            assert(is_first_with_mode(settings@, mode@, i as int));
            proof {
                let k = choose|k: int| is_first_with_mode(settings@, mode@, k);
                lemma_first_with_mode_unique(settings@, mode@, i as int, k);
            }
            return Some(i);
        }
        i = i + 1;
    }
    assert forall|k: int| !is_first_with_mode(settings@, mode@, k) by {
        if 0 <= k < settings@.len() {
            assert(!has_mode(settings@[k], mode@));
        }
    }
    None
}

fn stages_of(v: &Vec<ApiStage>) -> (res: Vec<Stage>)
    ensures
        stage_names(res@) == api_stage_names(v@),
{
    let mut res: Vec<Stage> = Vec::new();
    let mut i: usize = 0;
    while i < v.len()
        invariant
            i <= v.len(),
            stage_names(res@) == api_stage_names(v@.take(i as int)),
        decreases v.len() - i,
    {
        let ghost before = res@;
        let name = v[i].name.clone();
        res.push(Stage(name));
        assert(res@ == before.push(Stage(name)));
        assert(stage_names(res@) == stage_names(before).push(v@[i as int].name@));
        assert(v@.take(i + 1) == v@.take(i as int).push(v@[i as int]));
        i = i + 1;
    }
    assert(v@.take(v.len() as int) == v@);
    res
}

fn weapons_of(v: &Vec<ApiWeapon>) -> (res: Vec<Weapon>)
    ensures
        weapon_names(res@) == api_weapon_names(v@),
{
    let mut res: Vec<Weapon> = Vec::new();
    let mut i: usize = 0;
    while i < v.len()
        invariant
            i <= v.len(),
            weapon_names(res@) == api_weapon_names(v@.take(i as int)),
        decreases v.len() - i,
    {
        let ghost before = res@;
        let name = v[i].name.clone();
        res.push(Weapon(name));
        assert(res@ == before.push(Weapon(name)));
        assert(weapon_names(res@) == weapon_names(before).push(v@[i as int].name@));
        assert(v@.take(i + 1) == v@.take(i as int).push(v@[i as int]));
        i = i + 1;
    }
    assert(v@.take(v.len() as int) == v@);
    res
}

/// The schedules that a schedule document announces, given what parsing the
/// end times of its current Turf War, Anarchy and Salmon Run rotations gave
/// (each is looked at only once that rotation has been found); or the first
/// reason, in the order in which they are checked, why there are none.
///
/// Both Anarchy schedules end when the Anarchy rotation does, and each takes
/// its stages and mode from the first setting of its kind.
pub open spec fn schedules_from(
    resp: ApiResponse,
    turf_end: Option<Timestamp>,
    anarchy_end: Option<Timestamp>,
    salmon_end: Option<Timestamp>,
) -> Result<SchedulesView, ScheduleFault> {
    let regular = resp.data.regular_schedules.nodes@;
    let bankara = resp.data.bankara_schedules.nodes@;
    let coop = resp.data.coop_grouping_schedule.regular_schedules.nodes@;
    if regular.len() == 0 {
        Err(ScheduleFault::NoTurfWarNode)
    } else if turf_end is None {
        Err(ScheduleFault::BadTurfWarTime)
    } else if bankara.len() == 0 {
        Err(ScheduleFault::NoAnarchyNode)
    } else if first_with_mode(bankara[0].bankara_match_settings@, "CHALLENGE"@) is None {
        Err(ScheduleFault::NoSeriesSetting)
    } else if first_with_mode(bankara[0].bankara_match_settings@, "OPEN"@) is None {
        Err(ScheduleFault::NoOpenSetting)
    } else if anarchy_end is None {
        Err(ScheduleFault::BadAnarchyTime)
    } else {
        let settings = bankara[0].bankara_match_settings@;
        let series = settings[first_with_mode(settings, "CHALLENGE"@)->0];
        let open = settings[first_with_mode(settings, "OPEN"@)->0];
        if mode_of_rule(series.vs_rule.rule@) is None {
            Err(ScheduleFault::UnknownRule(series.vs_rule.rule@))
        } else if mode_of_rule(open.vs_rule.rule@) is None {
            Err(ScheduleFault::UnknownRule(open.vs_rule.rule@))
        } else if coop.len() == 0 {
            Err(ScheduleFault::NoSalmonRunNode)
        } else if salmon_end is None {
            Err(ScheduleFault::BadSalmonRunTime)
        } else {
            Ok(
                SchedulesView {
                    turf_war: TurfWarView {
                        ends_at: turf_end->0,
                        stages: api_stage_names(regular[0].regular_match_setting.vs_stages@),
                    },
                    anarchy_series: AnarchyView {
                        ends_at: anarchy_end->0,
                        stages: api_stage_names(series.vs_stages@),
                        mode: mode_of_rule(series.vs_rule.rule@)->0,
                        mode_type: AnarchyType::Series,
                    },
                    anarchy_open: AnarchyView {
                        ends_at: anarchy_end->0,
                        stages: api_stage_names(open.vs_stages@),
                        mode: mode_of_rule(open.vs_rule.rule@)->0,
                        mode_type: AnarchyType::Open,
                    },
                    salmon_run: SalmonRunView {
                        ends_at: salmon_end->0,
                        stage: coop[0].setting.coop_stage.name@,
                        weapons: api_weapon_names(coop[0].setting.weapons@),
                    },
                },
            )
        }
    }
}

/// A computed outcome agrees with the expected one.
pub open spec fn outcome_is(
    res: Result<Schedules, ScheduleError>,
    expected: Result<SchedulesView, ScheduleFault>,
) -> bool {
    match (res, expected) {
        (Ok(s), Ok(v)) => s@ == v,
        (Err(e), Err(f)) => e@ == f,
        _ => false,
    }
}

/// Reads the schedules off a schedule document, given what parsing the end
/// times of its current Turf War, Anarchy and Salmon Run rotations gave.
pub fn schedules_with_times(
    resp: &ApiResponse,
    turf_end: Option<Timestamp>,
    anarchy_end: Option<Timestamp>,
    salmon_end: Option<Timestamp>,
) -> (res: Result<Schedules, ScheduleError>)
    ensures
        outcome_is(res, schedules_from(*resp, turf_end, anarchy_end, salmon_end)),
{
    let regular = &resp.data.regular_schedules.nodes;
    let bankara = &resp.data.bankara_schedules.nodes;
    let coop = &resp.data.coop_grouping_schedule.regular_schedules.nodes;
    if regular.len() == 0 {
        return Err(ScheduleError::NoTurfWarNode);
    }
    let turf_ends_at = match turf_end {
        Some(t) => t,
        None => return Err(ScheduleError::BadTurfWarTime),
    };
    if bankara.len() == 0 {
        return Err(ScheduleError::NoAnarchyNode);
    }
    let settings = &bankara[0].bankara_match_settings;
    let series_idx = match find_setting(settings, "CHALLENGE") {
        Some(i) => i,
        None => return Err(ScheduleError::NoSeriesSetting),
    };
    let open_idx = match find_setting(settings, "OPEN") {
        Some(i) => i,
        None => return Err(ScheduleError::NoOpenSetting),
    };
    let anarchy_ends_at = match anarchy_end {
        Some(t) => t,
        None => return Err(ScheduleError::BadAnarchyTime),
    };
    let series = &settings[series_idx];
    let open = &settings[open_idx];
    let series_mode = match RankedGameMode::parse_rule(series.vs_rule.rule.as_str()) {
        Some(m) => m,
        None => return Err(ScheduleError::UnknownRule(series.vs_rule.rule.clone())),
    };
    let open_mode = match RankedGameMode::parse_rule(open.vs_rule.rule.as_str()) {
        Some(m) => m,
        None => return Err(ScheduleError::UnknownRule(open.vs_rule.rule.clone())),
    };
    if coop.len() == 0 {
        return Err(ScheduleError::NoSalmonRunNode);
    }
    let salmon_ends_at = match salmon_end {
        Some(t) => t,
        None => return Err(ScheduleError::BadSalmonRunTime),
    };
    let turf_war = TurfWarSchedule {
        ends_at: turf_ends_at,
        stages: stages_of(&regular[0].regular_match_setting.vs_stages),
    };
    let anarchy_series = AnarchySchedule {
        ends_at: anarchy_ends_at,
        mode_type: AnarchyType::Series,
        stages: stages_of(&series.vs_stages),
        mode: series_mode,
    };
    let anarchy_open = AnarchySchedule {
        ends_at: anarchy_ends_at,
        mode_type: AnarchyType::Open,
        stages: stages_of(&open.vs_stages),
        mode: open_mode,
    };
    let coop_setting = &coop[0].setting;
    let salmon_run = SalmonRunSchedule {
        ends_at: salmon_ends_at,
        stage: Stage(coop_setting.coop_stage.name.clone()),
        weapons: weapons_of(&coop_setting.weapons),
    };
    Ok(Schedules { turf_war, anarchy_series, anarchy_open, salmon_run })
}

/// What parsing the end time of the first rotation in a list gives; `None`
/// for an empty list.
pub open spec fn first_end(end_times: Seq<Seq<char>>) -> Option<Timestamp> {
    if end_times.len() == 0 {
        None
    } else {
        parsed_timestamp(end_times[0])
    }
}

/// The schedules that a schedule document announces, with each current
/// rotation's end time parsed as RFC 3339; or why there are none.
pub open spec fn schedules_of(resp: ApiResponse) -> Result<SchedulesView, ScheduleFault> {
    schedules_from(
        resp,
        first_end(resp.data.regular_schedules.nodes@.map_values(|n: internal::ApiRegularNode| n.end_time@)),
        first_end(resp.data.bankara_schedules.nodes@.map_values(|n: internal::ApiAnarchyNode| n.end_time@)),
        first_end(
            resp.data.coop_grouping_schedule.regular_schedules.nodes@.map_values(
                |n: internal::ApiCoopNode| n.end_time@,
            ),
        ),
    )
}

/// Reads the current schedules off a schedule document.
pub fn build_schedules(resp: &ApiResponse) -> (res: Result<Schedules, ScheduleError>)
    ensures
        outcome_is(res, schedules_of(*resp)),
{
    let regular = &resp.data.regular_schedules.nodes;
    let bankara = &resp.data.bankara_schedules.nodes;
    let coop = &resp.data.coop_grouping_schedule.regular_schedules.nodes;
    let turf_end = if regular.len() > 0 {
        parse_from_rfc3339(regular[0].end_time.as_str())
    } else {
        None
    };
    let anarchy_end = if bankara.len() > 0 {
        parse_from_rfc3339(bankara[0].end_time.as_str())
    } else {
        None
    };
    let salmon_end = if coop.len() > 0 {
        parse_from_rfc3339(coop[0].end_time.as_str())
    } else {
        None
    };
    schedules_with_times(resp, turf_end, anarchy_end, salmon_end)
}

/// Each of the four rule codes `AREA`, `CLAM`, `GOAL` and `LOFT` stands for
/// its own mode, every mode has one of them, and no other code stands for a
/// mode.
pub proof fn lemma_rule_codes_match_modes(r1: Seq<char>, r2: Seq<char>, m: RankedGameMode)
    ensures
        mode_of_rule(r1) is Some && mode_of_rule(r1) == mode_of_rule(r2) ==> r1 == r2,
        mode_of_rule(r1) is Some <==> (r1 == "AREA"@ || r1 == "CLAM"@ || r1 == "GOAL"@ || r1
            == "LOFT"@),
        exists|r: Seq<char>| mode_of_rule(r) == Some(m),
{
    reveal_strlit("AREA");
    reveal_strlit("CLAM");
    reveal_strlit("GOAL");
    reveal_strlit("LOFT");
    match m {
        RankedGameMode::SplatZones => assert(mode_of_rule("AREA"@) == Some(m)),
        RankedGameMode::ClamBlitz => {
            assert("CLAM"@ != "AREA"@) by { assert("CLAM"@[0] != "AREA"@[0]); }
            assert(mode_of_rule("CLAM"@) == Some(m));
        },
        RankedGameMode::Rainmaker => {
            assert("GOAL"@ != "AREA"@) by { assert("GOAL"@[0] != "AREA"@[0]); }
            assert("GOAL"@ != "CLAM"@) by { assert("GOAL"@[0] != "CLAM"@[0]); }
            assert(mode_of_rule("GOAL"@) == Some(m));
        },
        RankedGameMode::TowerControl => {
            assert("LOFT"@ != "AREA"@) by { assert("LOFT"@[0] != "AREA"@[0]); }
            assert("LOFT"@ != "CLAM"@) by { assert("LOFT"@[0] != "CLAM"@[0]); }
            assert("LOFT"@ != "GOAL"@) by { assert("LOFT"@[0] != "GOAL"@[0]); }
            assert(mode_of_rule("LOFT"@) == Some(m));
        },
    }
}

/// Different modes have different English names.
pub proof fn lemma_en_names_distinct(m1: RankedGameMode, m2: RankedGameMode)
    ensures
        en_name(m1) == en_name(m2) ==> m1 == m2,
{
    reveal_strlit("Clam Blitz");
    reveal_strlit("Tower Control");
    reveal_strlit("Splat Zones");
    reveal_strlit("Rainmaker");
    assert("Clam Blitz"@.len() == 10);
    assert("Tower Control"@.len() == 13);
    assert("Splat Zones"@.len() == 11);
    assert("Rainmaker"@.len() == 9);
    if en_name(m1) == en_name(m2) {
        assert(en_name(m1).len() == en_name(m2).len());
    }
}

/// Whenever schedules can be read off a document, the Series schedule is of
/// kind Series, the Open schedule of kind Open, and both end when the Anarchy
/// rotation does.
pub proof fn lemma_anarchy_schedules_share_end(resp: ApiResponse)
    ensures
        schedules_of(resp) matches Ok(v) ==> {
            &&& v.anarchy_series.mode_type == AnarchyType::Series
            &&& v.anarchy_open.mode_type == AnarchyType::Open
            &&& v.anarchy_series.ends_at == v.anarchy_open.ends_at
            &&& Some(v.anarchy_series.ends_at) == parsed_timestamp(
                resp.data.bankara_schedules.nodes@[0].end_time@,
            )
        },
{
}

/// Two lists of match settings agree on the first setting of a kind: both
/// lack one, or the first ones have the same rule code and stage names.
pub open spec fn first_settings_agree(
    s1: Seq<ApiMatchSetting>,
    s2: Seq<ApiMatchSetting>,
    mode: Seq<char>,
) -> bool {
    match (first_with_mode(s1, mode), first_with_mode(s2, mode)) {
        (None, None) => true,
        (Some(i), Some(j)) => {
            &&& s1[i].vs_rule.rule@ == s2[j].vs_rule.rule@
            &&& api_stage_names(s1[i].vs_stages@) == api_stage_names(s2[j].vs_stages@)
        },
        _ => false,
    }
}

/// Two schedule documents agree on everything that reading schedules looks
/// at: whether each list of rotations is empty, and of the first rotation of
/// each its end time; the Turf War stage names; the rule code and stage names
/// of the first `CHALLENGE` and the first `OPEN` Anarchy setting; the Salmon
/// Run stage name and weapon names.
pub open spec fn read_fields_agree(r1: ApiResponse, r2: ApiResponse) -> bool {
    let reg1 = r1.data.regular_schedules.nodes@;
    let reg2 = r2.data.regular_schedules.nodes@;
    let ban1 = r1.data.bankara_schedules.nodes@;
    let ban2 = r2.data.bankara_schedules.nodes@;
    let coop1 = r1.data.coop_grouping_schedule.regular_schedules.nodes@;
    let coop2 = r2.data.coop_grouping_schedule.regular_schedules.nodes@;
    &&& (reg1.len() == 0) == (reg2.len() == 0)
    &&& reg1.len() > 0 ==> {
        &&& reg1[0].end_time@ == reg2[0].end_time@
        &&& api_stage_names(reg1[0].regular_match_setting.vs_stages@) == api_stage_names(
            reg2[0].regular_match_setting.vs_stages@,
        )
    }
    &&& (ban1.len() == 0) == (ban2.len() == 0)
    &&& ban1.len() > 0 ==> {
        &&& ban1[0].end_time@ == ban2[0].end_time@
        &&& first_settings_agree(
            ban1[0].bankara_match_settings@,
            ban2[0].bankara_match_settings@,
            "CHALLENGE"@,
        )
        &&& first_settings_agree(
            ban1[0].bankara_match_settings@,
            ban2[0].bankara_match_settings@,
            "OPEN"@,
        )
    }
    &&& (coop1.len() == 0) == (coop2.len() == 0)
    &&& coop1.len() > 0 ==> {
        &&& coop1[0].end_time@ == coop2[0].end_time@
        &&& coop1[0].setting.coop_stage.name@ == coop2[0].setting.coop_stage.name@
        &&& api_weapon_names(coop1[0].setting.weapons@) == api_weapon_names(
            coop2[0].setting.weapons@,
        )
    }
}

/// Reading schedules looks only at the current rotation of each list and, in
/// it, only at the end time, the stage and weapon names and the rule codes of
/// the first Series and Open settings: documents that agree on those give the
/// same schedules, or fail in the same way.
pub proof fn lemma_schedules_depend_only_on_read_fields(r1: ApiResponse, r2: ApiResponse)
    requires
        read_fields_agree(r1, r2),
    ensures
        schedules_of(r1) == schedules_of(r2),
{
    let reg1 = r1.data.regular_schedules.nodes@;
    let reg2 = r2.data.regular_schedules.nodes@;
    let ban1 = r1.data.bankara_schedules.nodes@;
    let ban2 = r2.data.bankara_schedules.nodes@;
    let coop1 = r1.data.coop_grouping_schedule.regular_schedules.nodes@;
    let coop2 = r2.data.coop_grouping_schedule.regular_schedules.nodes@;
    let e_reg1 = reg1.map_values(|n: internal::ApiRegularNode| n.end_time@);
    let e_reg2 = reg2.map_values(|n: internal::ApiRegularNode| n.end_time@);
    let e_ban1 = ban1.map_values(|n: internal::ApiAnarchyNode| n.end_time@);
    let e_ban2 = ban2.map_values(|n: internal::ApiAnarchyNode| n.end_time@);
    let e_coop1 = coop1.map_values(|n: internal::ApiCoopNode| n.end_time@);
    let e_coop2 = coop2.map_values(|n: internal::ApiCoopNode| n.end_time@);
    if reg1.len() > 0 {
        assert(e_reg1[0] == e_reg2[0]);
    }
    if ban1.len() > 0 {
        assert(e_ban1[0] == e_ban2[0]);
    }
    if coop1.len() > 0 {
        assert(e_coop1[0] == e_coop2[0]);
    }
    assert(first_end(e_reg1) == first_end(e_reg2));
    assert(first_end(e_ban1) == first_end(e_ban2));
    assert(first_end(e_coop1) == first_end(e_coop2));
}

/// When schedules are read, nothing of the document's current rotations is
/// dropped or reordered: the Turf War stages are all the stages of the first
/// regular rotation; the Series and Open stages are all the stages of the
/// first `CHALLENGE` and the first `OPEN` setting, and their modes are the
/// modes of those settings' rule codes; the Salmon Run stage and weapons are
/// those of the first shift, every weapon in order; and the end times are
/// the ones given.
pub proof fn lemma_read_schedules_keep_everything(
    resp: ApiResponse,
    turf_end: Option<Timestamp>,
    anarchy_end: Option<Timestamp>,
    salmon_end: Option<Timestamp>,
)
    ensures
        schedules_from(resp, turf_end, anarchy_end, salmon_end) matches Ok(v) ==> {
            let regular = resp.data.regular_schedules.nodes@;
            let bankara = resp.data.bankara_schedules.nodes@;
            let coop = resp.data.coop_grouping_schedule.regular_schedules.nodes@;
            let settings = bankara[0].bankara_match_settings@;
            let series = first_with_mode(settings, "CHALLENGE"@);
            let open = first_with_mode(settings, "OPEN"@);
            let turf_stages = regular[0].regular_match_setting.vs_stages@;
            let weapons = coop[0].setting.weapons@;
            &&& regular.len() > 0 && bankara.len() > 0 && coop.len() > 0
            &&& turf_end == Some(v.turf_war.ends_at)
            &&& anarchy_end == Some(v.anarchy_series.ends_at)
            &&& anarchy_end == Some(v.anarchy_open.ends_at)
            &&& salmon_end == Some(v.salmon_run.ends_at)
            &&& v.turf_war.stages.len() == turf_stages.len()
            &&& forall|i: int|
                0 <= i < turf_stages.len() ==> #[trigger] v.turf_war.stages[i]
                    == turf_stages[i].name@
            &&& series matches Some(si) && {
                let setting = settings[si];
                &&& 0 <= si < settings.len()
                &&& has_mode(setting, "CHALLENGE"@)
                &&& forall|j: int| 0 <= j < si ==> !has_mode(#[trigger] settings[j], "CHALLENGE"@)
                &&& v.anarchy_series.mode_type == AnarchyType::Series
                &&& mode_of_rule(setting.vs_rule.rule@) == Some(v.anarchy_series.mode)
                &&& v.anarchy_series.stages.len() == setting.vs_stages@.len()
                &&& forall|i: int|
                    0 <= i < setting.vs_stages@.len() ==> #[trigger] v.anarchy_series.stages[i]
                        == setting.vs_stages@[i].name@
            }
            &&& open matches Some(oi) && {
                let setting = settings[oi];
                &&& 0 <= oi < settings.len()
                &&& has_mode(setting, "OPEN"@)
                &&& forall|j: int| 0 <= j < oi ==> !has_mode(#[trigger] settings[j], "OPEN"@)
                &&& v.anarchy_open.mode_type == AnarchyType::Open
                &&& mode_of_rule(setting.vs_rule.rule@) == Some(v.anarchy_open.mode)
                &&& v.anarchy_open.stages.len() == setting.vs_stages@.len()
                &&& forall|i: int|
                    0 <= i < setting.vs_stages@.len() ==> #[trigger] v.anarchy_open.stages[i]
                        == setting.vs_stages@[i].name@
            }
            &&& v.salmon_run.stage == coop[0].setting.coop_stage.name@
            &&& v.salmon_run.weapons.len() == weapons.len()
            &&& forall|i: int|
                0 <= i < weapons.len() ==> #[trigger] v.salmon_run.weapons[i] == weapons[i].name@
        },
{
    if let Ok(v) = schedules_from(resp, turf_end, anarchy_end, salmon_end) {
        let settings = resp.data.bankara_schedules.nodes@[0].bankara_match_settings@;
        let si = choose|i: int| is_first_with_mode(settings, "CHALLENGE"@, i);
        let oi = choose|i: int| is_first_with_mode(settings, "OPEN"@, i);
        assert(is_first_with_mode(settings, "CHALLENGE"@, si));
        assert(is_first_with_mode(settings, "OPEN"@, oi));
    }
}

} // verus!
