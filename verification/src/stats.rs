use vstd::prelude::*;

use crate::text::{decimal, i64_text, signed_decimal, u64_text};

verus! {

/// How often, in seconds, the statistics message is refreshed.
pub const STATS_REFRESH_SECS: u64 = 120;

/// Integer division that rounds toward zero, as Rust's `/` does (for `b > 0`).
pub open spec fn trunc_div(a: int, b: int) -> int {
    if a >= 0 {
        a / b
    } else {
        -((-a) / b)
    }
}

/// The remainder that goes with `trunc_div`, as Rust's `%` gives it.
pub open spec fn trunc_rem(a: int, b: int) -> int {
    a - b * trunc_div(a, b)
}

/// How an uptime of `secs` whole seconds is shown: whole hours, then the minutes
/// and seconds left over, each as chrono's `num_hours`, `num_minutes() % 60` and
/// `num_seconds() % 60` give them.
pub open spec fn uptime_spec(secs: int) -> Seq<char> {
    signed_decimal(trunc_div(secs, 3600)) + "h "@ + signed_decimal(
        trunc_rem(trunc_div(secs, 60), 60),
    ) + "m "@ + signed_decimal(trunc_rem(secs, 60)) + "s"@
}

/// The three numbers an uptime is shown with, in order: hours, minutes, seconds.
pub open spec fn uptime_parts(secs: int) -> (int, int, int) {
    (trunc_div(secs, 3600), trunc_rem(trunc_div(secs, 60), 60), trunc_rem(secs, 60))
}

/// An uptime is shown as its hours, minutes and seconds: together they make up
/// the whole duration, minutes and seconds are below sixty, and all three carry
/// the sign of the duration.
pub proof fn lemma_uptime_parts(secs: int)
    ensures
        ({
            let (h, m, s) = uptime_parts(secs);
            &&& 3600 * h + 60 * m + s == secs
            &&& -60 < m < 60
            &&& -60 < s < 60
            &&& secs >= 0 ==> h >= 0 && m >= 0 && s >= 0
            &&& secs < 0 ==> h <= 0 && m <= 0 && s <= 0
            &&& uptime_spec(secs) == signed_decimal(h) + "h "@ + signed_decimal(m) + "m "@
                + signed_decimal(s) + "s"@
        }),
{
    let a: int = if secs >= 0 { secs } else { -secs };
    assert(a >= 0);
    let q: int = a / 60;
    let r: int = a % 60;
    assert(a == 60 * q + r && 0 <= r < 60);
    let hq: int = q / 60;
    let mq: int = q % 60;
    assert(q == 60 * hq + mq && 0 <= mq < 60);
    assert(a / 3600 == hq) by (nonlinear_arith)
        requires
            a == 60 * q + r,
            0 <= r < 60,
            q == 60 * hq + mq,
            0 <= mq < 60,
            a >= 0,
    {
        assert(a == 3600 * hq + (60 * mq + r));
        assert(0 <= 60 * mq + r < 3600);
    }
    assert(q >= 0);
    if secs >= 0 {
        assert(trunc_div(secs, 60) == q);
        assert(trunc_div(q, 60) == hq);
        assert(trunc_rem(q, 60) == mq);
    } else {
        assert(trunc_div(secs, 60) == -q);
        if q > 0 {
            assert(trunc_div(-q, 60) == -hq);
            assert(trunc_rem(-q, 60) == -mq);
        } else {
            assert(trunc_rem(-q, 60) == 0);
        }
    }
}

/// The address of a user's avatar image.
pub open spec fn avatar_url_spec(user_id: u64, avatar: Seq<char>) -> Seq<char> {
    "https://cdn.discordapp.com/avatars/"@ + decimal(user_id as nat) + "/"@ + avatar + ".png"@
}

/// Shows an uptime of `secs` whole seconds as hours, minutes and seconds.
pub fn uptime_text(secs: i64) -> (s: String)
    ensures
        s@ == uptime_spec(secs as int),
{
    let negative: bool = secs < 0;
    let magnitude: u64 = if negative {
        ((-(secs + 1)) as u64) + 1
    } else {
        secs as u64
    };
    let hours: u64 = magnitude / 3600;
    let total_minutes: u64 = magnitude / 60;
    let minutes: u64 = total_minutes % 60;
    let seconds: u64 = magnitude % 60;
    assert(hours <= magnitude && total_minutes <= magnitude);
    let (h, m, sec): (i64, i64, i64) = if negative {
        (-(hours as i64), -(minutes as i64), -(seconds as i64))
    } else {
        (hours as i64, minutes as i64, seconds as i64)
    };
    proof {
        let a: int = secs as int;
        if negative {
            assert(magnitude as int == -a);
            assert(trunc_div(a, 3600) == -(hours as int));
            assert(trunc_div(a, 60) == -(total_minutes as int));
            assert(trunc_rem(a, 60) == -(seconds as int));
            if total_minutes == 0 {
                assert(trunc_rem(-(total_minutes as int), 60) == 0);
            } else {
                assert(trunc_rem(-(total_minutes as int), 60) == -(minutes as int));
            }
        } else {
            assert(trunc_rem(a, 60) == seconds as int);
            assert(trunc_rem(trunc_div(a, 60), 60) == minutes as int);
        }
    }
    let hs = i64_text(h);
    let ms = i64_text(m);
    let ss = i64_text(sec);
    let mut s = hs;
    s.append("h ");
    s.append(ms.as_str());
    s.append("m ");
    s.append(ss.as_str());
    s.append("s");
    s
}

/// The address of the avatar image `avatar` of the user `user_id`.
pub fn avatar_url(user_id: u64, avatar: &str) -> (s: String)
    ensures
        s@ == avatar_url_spec(user_id, avatar@),
{
    let id = u64_text(user_id);
    let mut s = String::from_str("https://cdn.discordapp.com/avatars/");
    s.append(id.as_str());
    s.append("/");
    s.append(avatar);
    s.append(".png");
    s
}

/// Calls `serenity::utils::Colour::from_rgb`, whose source packs the three
/// components as `r << 16 | g << 8 | b`; the contract claims that value.
#[verifier::external_body]
fn colour_from_rgb(r: u8, g: u8, b: u8) -> (c: u32)
    ensures
        c == r as int * 65536 + g as int * 256 + b as int,
{
    serenity::utils::Colour::from_rgb(r, g, b).0
}

/// The text chrono's `DateTime<Utc>::format("%a, %B %d, %Y (%r)")` gives for the
/// instant `secs` seconds and `nanos` nanoseconds after the Unix epoch, or `None`
/// when chrono has no such instant.
pub uninterp spec fn chrono_start_text(secs: i64, nanos: u32) -> Option<Seq<char>>;

/// Calls chrono's `DateTime::from_timestamp` and formats the instant with
/// `%a, %B %d, %Y (%r)`; the contract only names the result, which depends on
/// the arguments alone.
#[verifier::external_body]
fn format_start_time(secs: i64, nanos: u32) -> (r: Option<String>)
    ensures
        match r {
            Some(s) => chrono_start_text(secs, nanos) == Some(s@),
            None => chrono_start_text(secs, nanos) is None,
        },
{
    match chrono::DateTime::from_timestamp(secs, nanos) {
        Some(t) => Some(t.format("%a, %B %d, %Y (%r)").to_string()),
        None => None,
    }
}

/// The figures shown in the statistics message. The load and memory texts are
/// already formatted.
pub struct SystemLoad {
    pub cpu_load: String,
    pub memory: String,
    pub guilds: u64,
    pub users: u64,
    pub shards: u64,
    /// The bot's own user id and avatar hash.
    pub bot_id: u64,
    pub avatar: String,
    /// When the bot started, as seconds and nanoseconds after the Unix epoch.
    pub started_secs: i64,
    pub started_nanos: u32,
    /// How long it has run, in whole seconds.
    pub uptime_secs: i64,
    pub version: String,
}

/// One field of an embed.
pub struct EmbedField {
    pub name: String,
    pub value: String,
    pub inline: bool,
}

pub struct FieldView {
    pub name: Seq<char>,
    pub value: Seq<char>,
    pub inline: bool,
}

impl View for EmbedField {
    type V = FieldView;

    open spec fn view(&self) -> FieldView {
        FieldView { name: self.name@, value: self.value@, inline: self.inline }
    }
}

/// The statistics embed.
pub struct StatsReport {
    pub title: String,
    pub colour: u32,
    pub fields: Vec<EmbedField>,
    pub footer_text: String,
    pub footer_icon: String,
}

pub open spec fn inline_field(name: Seq<char>, value: Seq<char>) -> FieldView {
    FieldView { name, value, inline: true }
}

/// The fields of the statistics embed, in order; `started` is the start time as shown.
pub open spec fn stats_fields(load: SystemLoad, started: Seq<char>) -> Seq<FieldView> {
    seq![
        inline_field("Cpu Load Average"@, load.cpu_load@),
        inline_field("Memory Usage"@, load.memory@),
        inline_field("Total Guilds"@, decimal(load.guilds as nat)),
        inline_field("Total Users"@, decimal(load.users as nat)),
        inline_field("Total shards"@, decimal(load.shards as nat)),
        inline_field("Started at"@, started),
        inline_field("Uptime"@, uptime_spec(load.uptime_secs as int)),
        inline_field("Bot version"@, load.version@),
    ]
}

/// What the statistics embed holds, given the start time as shown.
pub open spec fn stats_report_matches(r: StatsReport, load: SystemLoad, started: Seq<char>) -> bool {
    &&& r.title@ == "System resource Load"@
    &&& r.colour == 52 * 65536 + 235 * 256 + 116
    &&& r.fields@.map_values(|f: EmbedField| f@) == stats_fields(load, started)
    &&& r.footer_text@ == "Updated"@
    &&& r.footer_icon@ == avatar_url_spec(load.bot_id, load.avatar@)
}

fn field(name: &str, value: String) -> (f: EmbedField)
    ensures
        f@ == inline_field(name@, value@),
{
    EmbedField { name: String::from_str(name), value, inline: true }
}

fn copy_text(s: &String) -> (r: String)
    ensures
        r@ == s@,
{
    String::from_str(s.as_str())
}

/// The statistics embed, given the start time as shown.
pub fn stats_report(load: &SystemLoad, started: &str) -> (r: StatsReport)
    ensures
        stats_report_matches(r, *load, started@),
{
    let mut fields: Vec<EmbedField> = Vec::new();
    fields.push(field("Cpu Load Average", copy_text(&load.cpu_load)));
    fields.push(field("Memory Usage", copy_text(&load.memory)));
    fields.push(field("Total Guilds", u64_text(load.guilds)));
    fields.push(field("Total Users", u64_text(load.users)));
    fields.push(field("Total shards", u64_text(load.shards)));
    fields.push(field("Started at", String::from_str(started)));
    fields.push(field("Uptime", uptime_text(load.uptime_secs)));
    fields.push(field("Bot version", copy_text(&load.version)));
    assert(fields@.map_values(|f: EmbedField| f@) =~= stats_fields(*load, started@));
    StatsReport {
        title: String::from_str("System resource Load"),
        colour: colour_from_rgb(52, 235, 116),
        fields,
        footer_text: String::from_str("Updated"),
        footer_icon: avatar_url(load.bot_id, load.avatar.as_str()),
    }
}

/// The statistics embed, with the start time formatted by chrono; `None` when
/// chrono has no instant for the start time.
pub fn system_load_report(load: &SystemLoad) -> (r: Option<StatsReport>)
    ensures
        match r {
            Some(report) => chrono_start_text(load.started_secs, load.started_nanos) matches Some(
                started,
            ) && stats_report_matches(report, *load, started),
            None => chrono_start_text(load.started_secs, load.started_nanos) is None,
        },
{
    match format_start_time(load.started_secs, load.started_nanos) {
        Some(started) => Some(stats_report(load, started.as_str())),
        None => None,
    }
}

} // verus!
