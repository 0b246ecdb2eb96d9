//! The text the bot posts and the decisions around posting it.

use vstd::prelude::*;
use crate::api::{
    RankedGameMode, Schedules, Stage, Weapon, en_name, stage_names, weapon_names, SchedulesView,
};
use crate::config::Emotes;
use crate::config::Credentials;
use crate::strings::{decimal, push_decimal, trim, trimmed, str_eq};
use crate::time::{Duration, trunc_div, trunc_rem};

verus! {

/// Renders a span as the status line shows it: `H hours, ` when there is at
/// least one whole hour, then the minutes and seconds within the hour and the
/// minute, each truncated toward zero as chrono's `num_*` methods and Rust's
/// `%` do.
pub open spec fn duration_text(d: Duration) -> Seq<char> {
    let hours = d.spec_num_hours();
    (if hours > 0 {
        decimal(hours) + " hours, "@
    } else {
        Seq::<char>::empty()
    }) + decimal(trunc_rem(d.spec_num_minutes(), 60)) + " minutes and "@ + decimal(
        trunc_rem(d.spec_num_seconds(), 60),
    ) + " seconds"@
}

fn trunc_div_i128(a: i128, b: i128) -> (res: i128)
    requires
        b > 0,
        -0x1_0000_0000_0000_0000 < a < 0x1_0000_0000_0000_0000,
    ensures
        res == trunc_div(a as int, b as int),
{
    if a >= 0 {
        a / b
    } else {
        -((-a) / b)
    }
}

/// Renders a span as `H hours, M minutes and S seconds`, the hours only when
/// there is at least one.
pub fn format_duration(d: &Duration) -> (res: String)
    ensures
        res@ == duration_text(*d),
{
    let secs: i128 = d.num_seconds() as i128;
    let minutes: i128 = trunc_div_i128(secs, 60);
    let hours: i128 = trunc_div_i128(secs, 3600);
    let minute_of_hour: i128 = minutes - 60 * trunc_div_i128(minutes, 60);
    let second_of_minute: i128 = secs - 60 * trunc_div_i128(secs, 60);
    let mut out = String::new();
    if hours > 0 {
        push_decimal(&mut out, hours as i64);
        out.append(" hours, ");
    }
    push_decimal(&mut out, minute_of_hour as i64);
    out.append(" minutes and ");
    push_decimal(&mut out, second_of_minute as i64);
    out.append(" seconds");
    out
}

/// The emote configured for a ranked mode.
pub open spec fn mode_emote(mode: RankedGameMode, emotes: Emotes) -> Seq<char> {
    match mode {
        RankedGameMode::ClamBlitz => emotes.clam_blitz@,
        RankedGameMode::TowerControl => emotes.tower_control@,
        RankedGameMode::SplatZones => emotes.splat_zones@,
        RankedGameMode::Rainmaker => emotes.rainmaker@,
    }
}

/// The emote configured for a ranked mode.
pub fn emote_anarchy<'a>(mode: &RankedGameMode, emotes: &'a Emotes) -> (res: &'a str)
    ensures
        res@ == mode_emote(*mode, *emotes),
{
    match mode {
        RankedGameMode::ClamBlitz => emotes.clam_blitz.as_str(),
        RankedGameMode::TowerControl => emotes.tower_control.as_str(),
        RankedGameMode::SplatZones => emotes.splat_zones.as_str(),
        RankedGameMode::Rainmaker => emotes.rainmaker.as_str(),
    }
}

/// One ` - name` line per name, each ended by a line break.
pub open spec fn item_lines(names: Seq<Seq<char>>) -> Seq<char>
    decreases names.len(),
{
    if names.len() == 0 {
        Seq::<char>::empty()
    } else {
        item_lines(names.drop_last()) + " - "@ + names.last() + "\n"@
    }
}

/// The ` - name` items joined by line breaks, with none after the last.
pub open spec fn joined_items(names: Seq<Seq<char>>) -> Seq<char>
    decreases names.len(),
{
    if names.len() == 0 {
        Seq::<char>::empty()
    } else if names.len() == 1 {
        " - "@ + names[0]
    } else {
        joined_items(names.drop_last()) + "\n"@ + " - "@ + names.last()
    }
}

/// The block that announces an Anarchy rotation: the mode in bold with its
/// emote, then one line per stage.
pub open spec fn anarchy_block(mode: RankedGameMode, stages: Seq<Seq<char>>, emotes: Emotes) -> Seq<char> {
    "**"@ + en_name(mode) + "** "@ + mode_emote(mode, emotes) + "\n"@ + item_lines(stages)
}

/// The block that announces a Salmon Run shift: the stage in bold, then one
/// line per weapon.
pub open spec fn salmon_block(stage: Seq<char>, weapons: Seq<Seq<char>>) -> Seq<char> {
    "**"@ + stage + "**\n"@ + item_lines(weapons)
}

/// The text of the post that announces a set of schedules.
pub open spec fn sched_text(s: SchedulesView, emotes: Emotes) -> Seq<char> {
    "**Multiplayer maps and modes have been updated!**\n\n"@ + emotes.turf_war@ + " Turf War:\n"@
        + joined_items(s.turf_war.stages) + "\n\n"@ + emotes.ranked@
        + " Anarchy Battle (Series): "@ + anarchy_block(
        s.anarchy_series.mode,
        s.anarchy_series.stages,
        emotes,
    ) + "\n\n"@ + emotes.ranked@ + " Anarchy Battle (Open): "@ + anarchy_block(
        s.anarchy_open.mode,
        s.anarchy_open.stages,
        emotes,
    ) + "\n\n"@ + emotes.salmon_run@ + " Salmon Run: "@ + salmon_block(
        s.salmon_run.stage,
        s.salmon_run.weapons,
    ) + "\n\n"@
}

fn turf_war_list(stages: &Vec<Stage>) -> (res: String)
    ensures
        res@ == joined_items(stage_names(stages@)),
{
    let mut out = String::new();
    let mut i: usize = 0;
    while i < stages.len()
        invariant
            i <= stages.len(),
            out@ == joined_items(stage_names(stages@.take(i as int))),
        decreases stages.len() - i,
    {
        let ghost names = stage_names(stages@.take(i + 1));
        assert(names.drop_last() == stage_names(stages@.take(i as int)));
        assert(names.last() == stages@[i as int].0@);
        if i > 0 {
            out.append("\n");
        }
        out.append(" - ");
        out.append(stages[i].0.as_str());
        proof {
            if i == 0 {
                assert(names.len() == 1);
                assert(names[0] == stages@[0].0@);
                assert(out@ == " - "@ + names[0]);
            }
        }
        i = i + 1;
    }
    assert(stages@.take(stages.len() as int) == stages@);
    out
}

fn push_stage_lines(out: &mut String, stages: &Vec<Stage>)
    ensures
        final(out)@ == old(out)@ + item_lines(stage_names(stages@)),
{
    let ghost start = out@;
    let mut i: usize = 0;
    while i < stages.len()
        invariant
            i <= stages.len(),
            out@ == start + item_lines(stage_names(stages@.take(i as int))),
        decreases stages.len() - i,
    {
        let ghost names = stage_names(stages@.take(i + 1));
        assert(names.drop_last() == stage_names(stages@.take(i as int)));
        assert(names.last() == stages@[i as int].0@);
        out.append(" - ");
        out.append(stages[i].0.as_str());
        out.append("\n");
        i = i + 1;
    }
    assert(stages@.take(stages.len() as int) == stages@);
}

fn push_weapon_lines(out: &mut String, weapons: &Vec<Weapon>)
    ensures
        final(out)@ == old(out)@ + item_lines(weapon_names(weapons@)),
{
    let ghost start = out@;
    let mut i: usize = 0;
    while i < weapons.len()
        invariant
            i <= weapons.len(),
            out@ == start + item_lines(weapon_names(weapons@.take(i as int))),
        decreases weapons.len() - i,
    {
        let ghost names = weapon_names(weapons@.take(i + 1));
        assert(names.drop_last() == weapon_names(weapons@.take(i as int)));
        assert(names.last() == weapons@[i as int].0@);
        out.append(" - ");
        out.append(weapons[i].0.as_str());
        out.append("\n");
        i = i + 1;
    }
    assert(weapons@.take(weapons.len() as int) == weapons@);
}

fn anarchy_list(mode: &RankedGameMode, stages: &Vec<Stage>, emotes: &Emotes) -> (res: String)
    ensures
        res@ == anarchy_block(*mode, stage_names(stages@), *emotes),
{
    let mut out = String::new();
    out.append("**");
    out.append(mode.get_en_name());
    out.append("** ");
    out.append(emote_anarchy(mode, emotes));
    out.append("\n");
    push_stage_lines(&mut out, stages);
    out
}

/// The text of the post that announces a set of schedules.
pub fn get_sched_text(scheds: &Schedules, emotes: &Emotes) -> (res: String)
    ensures
        res@ == sched_text(scheds@, *emotes),
{
    let turf_war_list = turf_war_list(&scheds.turf_war.stages);
    let series_list = anarchy_list(&scheds.anarchy_series.mode, &scheds.anarchy_series.stages, emotes);
    let open_list = anarchy_list(&scheds.anarchy_open.mode, &scheds.anarchy_open.stages, emotes);
    let mut salmon_run_list = String::new();
    salmon_run_list.append("**");
    salmon_run_list.append(scheds.salmon_run.stage.0.as_str());
    salmon_run_list.append("**\n");
    push_weapon_lines(&mut salmon_run_list, &scheds.salmon_run.weapons);

    let mut out = String::new();
    out.append("**Multiplayer maps and modes have been updated!**\n\n");
    out.append(emotes.turf_war.as_str());
    out.append(" Turf War:\n");
    out.append(turf_war_list.as_str());
    out.append("\n\n");
    out.append(emotes.ranked.as_str());
    out.append(" Anarchy Battle (Series): ");
    out.append(series_list.as_str());
    out.append("\n\n");
    out.append(emotes.ranked.as_str());
    out.append(" Anarchy Battle (Open): ");
    out.append(open_list.as_str());
    out.append("\n\n");
    out.append(emotes.salmon_run.as_str());
    out.append(" Salmon Run: ");
    out.append(salmon_run_list.as_str());
    out.append("\n\n");
    out
}

/// The page where the account owner authorizes the bot and is shown an
/// authorization code.
pub fn authorize_url(creds: &Credentials) -> (res: String)
    ensures
        res@ == creds.instance_uri@ + "/oauth/authorize?client_id="@ + creds.client_id@
            + "&scope=read+write+follow+push&redirect_uri=urn:ietf:wg:oauth:2.0:oob&response_type=code"@,
{
    let mut out = creds.instance_uri.clone();
    out.append("/oauth/authorize?client_id=");
    out.append(creds.client_id.as_str());
    out.append(
        "&scope=read+write+follow+push&redirect_uri=urn:ietf:wg:oauth:2.0:oob&response_type=code",
    );
    out
}

/// The authorization code in a line that the account owner typed: the line
/// without its leading and trailing white space.
pub fn auth_code_from_input(line: &str) -> (res: String)
    ensures
        res@ == trimmed(line@),
{
    String::from_str(trim(line))
}

/// Whether the command line asks for an immediate post: its first argument
/// after the program name is `force`.
pub fn is_force_request(args: &Vec<String>) -> (res: bool)
    requires
        args.len() >= 2,
    ensures
        res == (args@[1]@ == "force"@),
{
    str_eq(args[1].as_str(), "force")
}

/// The lines ` - name\n`, one for each name, in order.
pub open spec fn line_per_name(names: Seq<Seq<char>>) -> Seq<char> {
    names.map_values(|n: Seq<char>| " - "@ + n + "\n"@).flatten()
}

/// `item_lines` writes exactly one ` - name` line for each name, in order.
pub proof fn lemma_item_lines_one_per_name(names: Seq<Seq<char>>)
    ensures
        item_lines(names) == line_per_name(names),
    decreases names.len(),
{
    let f = |n: Seq<char>| " - "@ + n + "\n"@;
    let lines = names.map_values(f);
    lines.lemma_flatten_and_flatten_alt_are_equivalent();
    lemma_item_lines_flatten_alt(names);
}

proof fn lemma_item_lines_flatten_alt(names: Seq<Seq<char>>)
    ensures
        item_lines(names) == names.map_values(|n: Seq<char>| " - "@ + n + "\n"@).flatten_alt(),
    decreases names.len(),
{
    let f = |n: Seq<char>| " - "@ + n + "\n"@;
    if names.len() > 0 {
        lemma_item_lines_flatten_alt(names.drop_last());
        assert(names.map_values(f).drop_last() =~= names.drop_last().map_values(f));
        assert(item_lines(names) =~= names.map_values(f).flatten_alt());
    } else {
        assert(names.map_values(f) =~= Seq::<Seq<char>>::empty());
    }
}

/// The Turf War list: ` - name` items in order, separated by line breaks.
pub proof fn lemma_joined_items_one_per_name(names: Seq<Seq<char>>)
    ensures
        names.len() == 0 ==> joined_items(names) == Seq::<char>::empty(),
        names.len() > 0 ==> joined_items(names) == " - "@ + names[0] + names.drop_first().map_values(
            |n: Seq<char>| "\n"@ + " - "@ + n,
        ).flatten(),
    decreases names.len(),
{
    let g = |n: Seq<char>| "\n"@ + " - "@ + n;
    if names.len() > 0 {
        let rest = names.drop_first().map_values(g);
        rest.lemma_flatten_and_flatten_alt_are_equivalent();
        lemma_joined_items_flatten_alt(names);
    }
}

proof fn lemma_joined_items_flatten_alt(names: Seq<Seq<char>>)
    requires
        names.len() > 0,
    ensures
        joined_items(names) == " - "@ + names[0] + names.drop_first().map_values(
            |n: Seq<char>| "\n"@ + " - "@ + n,
        ).flatten_alt(),
    decreases names.len(),
{
    let g = |n: Seq<char>| "\n"@ + " - "@ + n;
    if names.len() == 1 {
        assert(names.drop_first().map_values(g) =~= Seq::<Seq<char>>::empty());
        assert(joined_items(names) =~= " - "@ + names[0] + Seq::<char>::empty());
    } else {
        let init = names.drop_last();
        lemma_joined_items_flatten_alt(init);
        assert(init.drop_first() =~= names.drop_first().drop_last());
        assert(names.drop_first().map_values(g).drop_last() =~= init.drop_first().map_values(g));
        assert(names.drop_first().map_values(g).last() == g(names.last()));
        assert(joined_items(names) =~= " - "@ + names[0] + names.drop_first().map_values(g).flatten_alt());
    }
}

/// The whole post, piece by piece: the headline; the Turf War emote and
/// heading with one ` - stage` item per Turf War stage; for Series and then
/// Open, the ranked emote and heading, the mode's English name in bold with
/// the mode's emote, and one line per stage; and the Salmon Run emote and
/// heading, the stage in bold, and one line per weapon, every weapon in
/// order.
pub proof fn lemma_post_layout(s: SchedulesView, emotes: Emotes)
    ensures
        sched_text(s, emotes) == "**Multiplayer maps and modes have been updated!**\n\n"@
            + emotes.turf_war@ + " Turf War:\n"@ + (if s.turf_war.stages.len() == 0 {
            Seq::<char>::empty()
        } else {
            " - "@ + s.turf_war.stages[0] + s.turf_war.stages.drop_first().map_values(
                |n: Seq<char>| "\n"@ + " - "@ + n,
            ).flatten()
        }) + "\n\n"@ + emotes.ranked@ + " Anarchy Battle (Series): "@ + ("**"@ + en_name(
            s.anarchy_series.mode,
        ) + "** "@ + mode_emote(s.anarchy_series.mode, emotes) + "\n"@ + line_per_name(
            s.anarchy_series.stages,
        )) + "\n\n"@ + emotes.ranked@ + " Anarchy Battle (Open): "@ + ("**"@ + en_name(
            s.anarchy_open.mode,
        ) + "** "@ + mode_emote(s.anarchy_open.mode, emotes) + "\n"@ + line_per_name(
            s.anarchy_open.stages,
        )) + "\n\n"@ + emotes.salmon_run@ + " Salmon Run: "@ + ("**"@ + s.salmon_run.stage
            + "**\n"@ + line_per_name(s.salmon_run.weapons)) + "\n\n"@,
{
    lemma_joined_items_one_per_name(s.turf_war.stages);
    lemma_item_lines_one_per_name(s.anarchy_series.stages);
    lemma_item_lines_one_per_name(s.anarchy_open.stages);
    lemma_item_lines_one_per_name(s.salmon_run.weapons);
}

/// The text of `d` shows `h` hours (only when there are some), `m` minutes
/// and `s` seconds, with the minutes and seconds below sixty, and together
/// they make up the span's whole seconds.
pub open spec fn shows_span(d: Duration, h: int, m: int, s: int) -> bool {
    &&& 0 <= h && 0 <= m < 60 && 0 <= s < 60
    &&& h * 3600 + m * 60 + s == d.spec_num_seconds()
    &&& duration_text(d) == (if h > 0 {
        decimal(h) + " hours, "@
    } else {
        Seq::<char>::empty()
    }) + decimal(m) + " minutes and "@ + decimal(s) + " seconds"@
}

/// Whenever the span holds a whole hour, the text begins with the number of
/// hours; and for a non-negative span the text shows hours (only when there
/// are some), minutes below sixty and seconds below sixty that add up to the
/// span's whole seconds.
pub proof fn lemma_duration_text_shows_whole_span(d: Duration)
    ensures
        d.spec_num_hours() > 0 ==> exists|rest: Seq<char>| duration_text(d) == decimal(
            d.spec_num_hours(),
        ) + " hours, "@ + rest,
        d.spec_num_seconds() >= 0 ==> exists|h: int, m: int, s: int| #[trigger]
            shows_span(d, h, m, s),
{
    let h = d.spec_num_hours();
    let tail = decimal(trunc_rem(d.spec_num_minutes(), 60)) + " minutes and "@ + decimal(
        trunc_rem(d.spec_num_seconds(), 60),
    ) + " seconds"@;
    if h > 0 {
        assert(duration_text(d) =~= decimal(h) + " hours, "@ + tail);
    }
    let secs = d.spec_num_seconds();
    if secs >= 0 {
        let mins = secs / 60;
        vstd::arithmetic::div_mod::lemma_div_denominator(secs, 60, 60);
        assert(h == mins / 60);
        let m = mins % 60;
        let sec = secs % 60;
        assert(d.spec_num_minutes() == mins);
        assert(trunc_rem(d.spec_num_minutes(), 60) == m);
        assert(trunc_rem(secs, 60) == sec);
        assert(h * 3600 + m * 60 + sec == secs);
        assert(duration_text(d) =~= (if h > 0 {
            decimal(h) + " hours, "@
        } else {
            Seq::<char>::empty()
        }) + decimal(m) + " minutes and "@ + decimal(sec) + " seconds"@);
        assert(shows_span(d, h, m, sec));
    }
}

} // verus!
