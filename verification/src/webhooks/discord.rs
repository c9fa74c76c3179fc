//! The Discord message that reports a service's last run.

use vstd::prelude::*;

use crate::args::DiscordArgs;
use crate::systemd_logs::{ServiceInfo, ServiceInfoModel};
use crate::text::{IntErrorKind, decimal, ends_with, format_i64, law_i64_decimal_round_trip, push_str_chars, spec_parse_i64};
use crate::webhooks::discord_structs::{
    owned, spec_new_embed, utc_now_rfc3339, EmbedField, EmbedModel, FieldModel, Webhook,
    WebhookEmbed, WebhookModel,
};

verus! {

/// What `humansize::format_size` makes of a byte count with the
/// `humansize::DECIMAL` options.
pub uninterp spec fn humansize_decimal(bytes: u64) -> Seq<char>;

/// Calls `humansize::format_size` with `humansize::DECIMAL`. Trusted: the
/// result is `humansize_decimal` of the count.
#[verifier::external_body]
fn format_size_decimal(bytes: u64) -> (res: String)
    ensures
        res@ == humansize_decimal(bytes),
{
    humansize::format_size(bytes, humansize::DECIMAL)
}

/// Shown where a value is missing.
pub const NOT_AVAILABLE: &'static str = "N/A";

/// The text, or `"N/A"` where it is empty.
pub open spec fn or_not_available(s: Seq<char>) -> Seq<char> {
    if s.len() == 0 {
        NOT_AVAILABLE@
    } else {
        s
    }
}

/// `* KEY=VALUE`.
pub open spec fn environment_line(pair: (Seq<char>, Seq<char>)) -> Seq<char> {
    "* "@ + pair.0 + "="@ + pair.1
}

/// One `* KEY=VALUE` line per pair, joined by `'\n'`.
pub open spec fn environment_lines(pairs: Seq<(Seq<char>, Seq<char>)>) -> Seq<char>
    decreases pairs.len(),
{
    if pairs.len() == 0 {
        seq![]
    } else if pairs.len() == 1 {
        environment_line(pairs[0])
    } else {
        environment_lines(pairs.drop_last()) + "\n"@ + environment_line(pairs.last())
    }
}

/// The environment as shown: the pairs as lines, or the raw value where no
/// pair was read from it.
pub open spec fn environment_text(info: ServiceInfoModel) -> Seq<char> {
    if info.environment_vals.len() == 0 {
        info.environment_str
    } else {
        environment_lines(info.environment_vals)
    }
}

/// A field's value.
pub open spec fn field(name: Seq<char>, value: Seq<char>, inline: bool) -> FieldModel {
    FieldModel { name, value, inline }
}

/// The fields of the report, in order: the unit file, the result, the exit
/// code, start and exit time, the user, the trigger, CPU time and peak
/// memory (`cpu_time` and `memory_peak` are the formatted values, shown
/// where the service reports them), the environment and the invocation id.
pub open spec fn spec_embed_fields(
    info: ServiceInfoModel,
    cpu_time: Seq<char>,
    memory_peak: Seq<char>,
) -> Seq<FieldModel> {
    seq![
        field("Service File"@, info.fragment_path, false),
        field("Result"@, info.result, true),
        field("Exit Code"@, decimal(info.main_status as int), true),
        field("Started"@, info.start_timestamp, true),
        field("Exited"@, info.exit_timestamp, true),
        field("User"@, or_not_available(info.user), true),
        field("Triggered By"@, or_not_available(info.triggered_by), true),
        field(
            "CPU Time"@,
            if info.cpu_usage_ns is Some {
                cpu_time
            } else {
                NOT_AVAILABLE@
            },
            true,
        ),
        field(
            "Memory Peak"@,
            if info.memory_peak is Some {
                memory_peak
            } else {
                NOT_AVAILABLE@
            },
            true,
        ),
        field("Environment Variables"@, environment_text(info), false),
        field("Invocation ID"@, info.invocation_id, false),
    ]
}

/// The peak memory as `humansize` formats it; empty where there is none.
pub open spec fn memory_peak_text(peak: Option<u64>) -> Seq<char> {
    match peak {
        Some(bytes) => humansize_decimal(bytes),
        None => seq![],
    }
}

/// The report's embed: the notifier's embed, titled with the service's
/// names, described with its description, with the report's fields.
pub open spec fn spec_report_embed(
    thumbnail: Option<Seq<char>>,
    color: Option<u32>,
    info: ServiceInfoModel,
    cpu_time: Seq<char>,
    timestamp: Seq<char>,
) -> EmbedModel {
    EmbedModel {
        title: Some(info.name),
        description: Some(info.description),
        fields: Some(spec_embed_fields(info, cpu_time, memory_peak_text(info.memory_peak))),
        ..spec_new_embed(thumbnail, color, timestamp)
    }
}

/// The report: no content, one embed.
pub open spec fn spec_report(
    thumbnail: Option<Seq<char>>,
    color: Option<u32>,
    info: ServiceInfoModel,
    cpu_time: Seq<char>,
    timestamp: Seq<char>,
) -> WebhookModel {
    WebhookModel {
        content: None,
        embeds: seq![spec_report_embed(thumbnail, color, info, cpu_time, timestamp)],
    }
}

/// The "Exit Code" field of a report reads back, as an `i64`, as the
/// service's exit status.
pub proof fn law_exit_code_field_reads_back(
    info: ServiceInfoModel,
    cpu_time: Seq<char>,
    memory_peak: Seq<char>,
)
    ensures
        spec_embed_fields(info, cpu_time, memory_peak)[2].name == "Exit Code"@,
        spec_parse_i64(spec_embed_fields(info, cpu_time, memory_peak)[2].value) == Ok::<
            i64,
            IntErrorKind,
        >(info.main_status),
{
    law_i64_decimal_round_trip(info.main_status);
}

/// The "CPU Time" field shows the formatted CPU time whenever the service
/// reports its CPU usage, and `"N/A"` when it does not; the peak memory,
/// reported or not, and its formatted text leave the field as it is.
pub proof fn law_cpu_time_field(info: ServiceInfoModel, cpu_time: Seq<char>, memory_peak: Seq<char>)
    ensures
        spec_embed_fields(info, cpu_time, memory_peak).len() == 11,
        spec_embed_fields(info, cpu_time, memory_peak)[7].name == "CPU Time"@,
        info.cpu_usage_ns is Some ==> spec_embed_fields(info, cpu_time, memory_peak)[7].value
            == cpu_time,
        info.cpu_usage_ns is None ==> spec_embed_fields(info, cpu_time, memory_peak)[7].value
            == NOT_AVAILABLE@,
        forall|peak: Option<u64>, other_memory: Seq<char>|
            #[trigger] spec_embed_fields(
                ServiceInfoModel { memory_peak: peak, ..info },
                cpu_time,
                other_memory,
            )[7] == spec_embed_fields(info, cpu_time, memory_peak)[7],
{
}

/// The "Memory Peak" field shows the formatted peak memory whenever the
/// service reports it, and `"N/A"` when it does not; the CPU usage, reported
/// or not, and its formatted text leave the field as it is.
pub proof fn law_memory_peak_field(
    info: ServiceInfoModel,
    cpu_time: Seq<char>,
    memory_peak: Seq<char>,
)
    ensures
        spec_embed_fields(info, cpu_time, memory_peak)[8].name == "Memory Peak"@,
        info.memory_peak is Some ==> spec_embed_fields(info, cpu_time, memory_peak)[8].value
            == memory_peak,
        info.memory_peak is None ==> spec_embed_fields(info, cpu_time, memory_peak)[8].value
            == NOT_AVAILABLE@,
        forall|usage: Option<u64>, other_cpu: Seq<char>|
            #[trigger] spec_embed_fields(
                ServiceInfoModel { cpu_usage_ns: usage, ..info },
                other_cpu,
                memory_peak,
            )[8] == spec_embed_fields(info, cpu_time, memory_peak)[8],
{
}

/// The report's fields come in a fixed order of names; the unit file, the
/// result, the start and exit times and the invocation id are shown as the
/// service reports them; the first, the environment and the invocation id
/// take a line of their own, the others stand inline.
pub proof fn law_report_field_order(
    info: ServiceInfoModel,
    cpu_time: Seq<char>,
    memory_peak: Seq<char>,
)
    ensures
        spec_embed_fields(info, cpu_time, memory_peak).map_values(|f: FieldModel| f.name) == seq![
            "Service File"@,
            "Result"@,
            "Exit Code"@,
            "Started"@,
            "Exited"@,
            "User"@,
            "Triggered By"@,
            "CPU Time"@,
            "Memory Peak"@,
            "Environment Variables"@,
            "Invocation ID"@,
        ],
        spec_embed_fields(info, cpu_time, memory_peak).map_values(|f: FieldModel| f.inline)
            == seq![false, true, true, true, true, true, true, true, true, false, false],
        spec_embed_fields(info, cpu_time, memory_peak)[0].value == info.fragment_path,
        spec_embed_fields(info, cpu_time, memory_peak)[1].value == info.result,
        spec_embed_fields(info, cpu_time, memory_peak)[3].value == info.start_timestamp,
        spec_embed_fields(info, cpu_time, memory_peak)[4].value == info.exit_timestamp,
        spec_embed_fields(info, cpu_time, memory_peak)[10].value == info.invocation_id,
{
    let f = spec_embed_fields(info, cpu_time, memory_peak);
    assert(f.map_values(|f: FieldModel| f.name) =~= seq![
        "Service File"@,
        "Result"@,
        "Exit Code"@,
        "Started"@,
        "Exited"@,
        "User"@,
        "Triggered By"@,
        "CPU Time"@,
        "Memory Peak"@,
        "Environment Variables"@,
        "Invocation ID"@,
    ]);
    assert(f.map_values(|f: FieldModel| f.inline) =~= seq![
        false,
        true,
        true,
        true,
        true,
        true,
        true,
        true,
        true,
        false,
        false,
    ]);
}

/// In the report, a reported peak memory is shown as `humansize` formats
/// the byte count.
pub proof fn law_report_memory_peak(
    thumbnail: Option<Seq<char>>,
    color: Option<u32>,
    info: ServiceInfoModel,
    cpu_time: Seq<char>,
    timestamp: Seq<char>,
    bytes: u64,
)
    requires
        info.memory_peak == Some(bytes),
    ensures
        spec_report(thumbnail, color, info, cpu_time, timestamp).embeds[0].fields->0[8].value
            == humansize_decimal(bytes),
{
}

/// The "User" and "Triggered By" fields show the user and the trigger, or
/// `"N/A"` where they are empty.
pub proof fn law_user_and_trigger_fields(
    info: ServiceInfoModel,
    cpu_time: Seq<char>,
    memory_peak: Seq<char>,
)
    ensures
        spec_embed_fields(info, cpu_time, memory_peak)[5].name == "User"@,
        info.user.len() > 0 ==> spec_embed_fields(info, cpu_time, memory_peak)[5].value
            == info.user,
        info.user.len() == 0 ==> spec_embed_fields(info, cpu_time, memory_peak)[5].value
            == NOT_AVAILABLE@,
        spec_embed_fields(info, cpu_time, memory_peak)[6].name == "Triggered By"@,
        info.triggered_by.len() > 0 ==> spec_embed_fields(info, cpu_time, memory_peak)[6].value
            == info.triggered_by,
        info.triggered_by.len() == 0 ==> spec_embed_fields(info, cpu_time, memory_peak)[6].value
            == NOT_AVAILABLE@,
{
}

/// The "Environment Variables" field shows the pairs read from
/// `Environment=` as lines, or the raw value where no pair was read.
pub proof fn law_environment_field(
    info: ServiceInfoModel,
    cpu_time: Seq<char>,
    memory_peak: Seq<char>,
)
    ensures
        spec_embed_fields(info, cpu_time, memory_peak)[9].name == "Environment Variables"@,
        info.environment_vals.len() > 0 ==> spec_embed_fields(info, cpu_time, memory_peak)[9].value
            == environment_lines(info.environment_vals),
        info.environment_vals.len() == 0 ==> spec_embed_fields(info, cpu_time, memory_peak)[9].value
            == info.environment_str,
{
}

/// One pair is one line, `* KEY=VALUE`.
pub proof fn law_environment_single_line(key: Seq<char>, value: Seq<char>)
    ensures
        environment_lines(seq![(key, value)]) == "* "@ + key + "="@ + value,
{
}

/// The lines of two non-empty runs of pairs are the lines of the first,
/// `'\n'`, and the lines of the second: every pair gets a line of its own,
/// in order.
pub proof fn law_environment_lines_concat(
    first: Seq<(Seq<char>, Seq<char>)>,
    second: Seq<(Seq<char>, Seq<char>)>,
)
    requires
        first.len() > 0,
        second.len() > 0,
    ensures
        environment_lines(first + second) == environment_lines(first) + "\n"@ + environment_lines(
            second,
        ),
    decreases second.len(),
{
    let all = first + second;
    assert(all.drop_last() =~= first + second.drop_last());
    assert(all.last() == second.last());
    if second.len() == 1 {
        assert(second.drop_last() =~= Seq::<(Seq<char>, Seq<char>)>::empty());
        assert(first + second.drop_last() =~= first);
        assert(environment_lines(second) == environment_line(second[0]));
    } else {
        law_environment_lines_concat(first, second.drop_last());
        assert(environment_lines(all) =~= environment_lines(first) + "\n"@ + (environment_lines(
            second.drop_last(),
        ) + "\n"@ + environment_line(second.last())));
    }
}

/// The characters of an optional text.
pub open spec fn opt_str_view(o: Option<String>) -> Option<Seq<char>> {
    match o {
        Some(s) => Some(s@),
        None => None,
    }
}

/// Appends `* KEY=VALUE` to `s`.
fn push_environment_line(s: &mut String, pair: &(String, String))
    ensures
        final(s)@ == old(s)@ + environment_line((pair.0@, pair.1@)),
{
    push_str_chars(s, "* ");
    push_str_chars(s, pair.0.as_str());
    push_str_chars(s, "=");
    push_str_chars(s, pair.1.as_str());
    assert(final(s)@ =~= old(s)@ + environment_line((pair.0@, pair.1@)));
}

/// One `* KEY=VALUE` line per pair, joined by `'\n'`.
pub fn environment_lines_of(pairs: &Vec<(String, String)>) -> (res: String)
    ensures
        res@ == environment_lines(pairs@.map_values(|p: (String, String)| (p.0@, p.1@))),
{
    let ghost all = pairs@.map_values(|p: (String, String)| (p.0@, p.1@));
    let mut s = String::new();
    let mut i: usize = 0;
    assert(all.take(0) =~= seq![]);
    while i < pairs.len()
        invariant
            i <= pairs@.len(),
            all == pairs@.map_values(|p: (String, String)| (p.0@, p.1@)),
            s@ == environment_lines(all.take(i as int)),
        decreases pairs@.len() - i,
    {
        let ghost prefix = all.take(i + 1);
        assert(prefix.drop_last() =~= all.take(i as int));
        assert(prefix.last() == (pairs@[i as int].0@, pairs@[i as int].1@));
        if i > 0 {
            push_str_chars(&mut s, "\n");
        } else {
            assert(s@ =~= seq![]);
        }
        push_environment_line(&mut s, &pairs[i]);
        i += 1;
        assert(s@ =~= environment_lines(prefix));
    }
    assert(all.take(pairs@.len() as int) =~= all);
    s
}

/// Pushes a field to a list of fields.
fn push_field(fields: &mut Vec<EmbedField>, f: EmbedField)
    ensures
        final(fields)@.map_values(|e: EmbedField| e@) == old(fields)@.map_values(
            |e: EmbedField| e@,
        ).push(f@),
{
    let ghost before = fields@;
    fields.push(f);
    assert(fields@.map_values(|e: EmbedField| e@) =~= before.map_values(|e: EmbedField| e@).push(
        f@,
    ));
}

/// The fields of the report; `cpu_time` and `memory_peak` are the
/// formatted CPU time and peak memory, shown where the service reports
/// them.
pub fn embed_fields(info: &ServiceInfo, cpu_time: &str, memory_peak: &str) -> (res: Vec<
    EmbedField,
>)
    ensures
        res@.map_values(|f: EmbedField| f@) == spec_embed_fields(info@, cpu_time@, memory_peak@),
{
    let mut fields: Vec<EmbedField> = Vec::new();
    push_field(&mut fields, EmbedField::new("Service File", info.fragment_path.as_str()));
    push_field(&mut fields, EmbedField::new_inline("Result", info.result.as_str()));
    let exit_code = format_i64(info.main_status);
    push_field(&mut fields, EmbedField::new_inline("Exit Code", exit_code.as_str()));
    push_field(&mut fields, EmbedField::new_inline("Started", info.start_timestamp.as_str()));
    push_field(&mut fields, EmbedField::new_inline("Exited", info.exit_timestamp.as_str()));
    let user: &str = if info.user.as_str().is_empty() {
        NOT_AVAILABLE
    } else {
        info.user.as_str()
    };
    push_field(&mut fields, EmbedField::new_inline("User", user));
    let triggered_by: &str = if info.triggered_by.as_str().is_empty() {
        NOT_AVAILABLE
    } else {
        info.triggered_by.as_str()
    };
    push_field(&mut fields, EmbedField::new_inline("Triggered By", triggered_by));
    let cpu: &str = match info.cpu_usage_ns {
        Some(_) => cpu_time,
        None => NOT_AVAILABLE,
    };
    push_field(&mut fields, EmbedField::new_inline("CPU Time", cpu));
    let memory: &str = match info.memory_peak {
        Some(_) => memory_peak,
        None => NOT_AVAILABLE,
    };
    push_field(&mut fields, EmbedField::new_inline("Memory Peak", memory));
    if info.environment_vals.len() == 0 {
        push_field(
            &mut fields,
            EmbedField::new("Environment Variables", info.environment_str.as_str()),
        );
    } else {
        let lines = environment_lines_of(&info.environment_vals);
        push_field(&mut fields, EmbedField::new("Environment Variables", lines.as_str()));
    }
    push_field(&mut fields, EmbedField::new("Invocation ID", info.invocation_id.as_str()));
    assert(fields@.map_values(|f: EmbedField| f@) =~= spec_embed_fields(
        info@,
        cpu_time@,
        memory_peak@,
    ));
    fields
}

/// The report on `info` at `timestamp`: the notifier's embed with the
/// thumbnail and color, titled with the service's names, described with its
/// description, with the report's fields; `cpu_time` is the formatted CPU
/// time and peak memory is formatted by `humansize`.
pub fn build_webhook(
    thumbnail: Option<&str>,
    color: Option<u32>,
    info: &ServiceInfo,
    cpu_time: &str,
    timestamp: String,
) -> (res: Webhook)
    ensures
        res@ == spec_report(
            match thumbnail {
                Some(t) => Some(t@),
                None => None,
            },
            color,
            info@,
            cpu_time@,
            timestamp@,
        ),
{
    let mut webhook = Webhook::default();
    let mut embed = WebhookEmbed::new_at(thumbnail, color, timestamp);
    embed.title = Some(owned(info.name.as_str()));
    embed.description = Some(owned(info.description.as_str()));
    let memory_peak = match info.memory_peak {
        Some(bytes) => format_size_decimal(bytes),
        None => String::new(),
    };
    embed.fields = Some(embed_fields(info, cpu_time, memory_peak.as_str()));
    let ghost e = embed@;
    webhook.embeds.push(embed);
    assert(webhook@.embeds =~= seq![e]);
    webhook
}

/// The report on `info` for the `discord` command's options, stamped with
/// the current time in UTC; `cpu_time` is the formatted CPU time.
pub fn discord_webhook(args: &DiscordArgs, info: &ServiceInfo, cpu_time: &str) -> (res: Webhook)
    ensures
        res.embeds@.len() == 1,
        res.embeds@[0].timestamp is Some,
        ends_with(res.embeds@[0].timestamp->0@, "+00:00"@),
        res@ == spec_report(
            opt_str_view(args.thumbnail),
            args.color,
            info@,
            cpu_time@,
            res.embeds@[0].timestamp->0@,
        ),
{
    let thumbnail: Option<&str> = match &args.thumbnail {
        Some(t) => Some(t.as_str()),
        None => None,
    };
    let now = utc_now_rfc3339();
    let ghost stamp = now@;
    let res = build_webhook(thumbnail, args.color, info, cpu_time, now);
    assert(res@.embeds.len() == 1);
    assert(res.embeds@.len() == 1);
    assert(res.embeds@[0]@ == res@.embeds[0]);
    assert(opt_str_view(res.embeds@[0].timestamp) == Some(stamp));
    res
}

} // verus!
