//! The system load report.

use vstd::prelude::*;
use vstd::string::StringExecFns;
use crate::model::Embed;
use crate::model::EmbedField;
use crate::text::decimal;
use crate::text::push_bold_line;

verus! {

/// What the load report shows, as read from the system: the number of
/// CPU cores, their frequency in MHz, the fifteen-minute load average as
/// it is to be printed, and the total, available and free memory in KiB.
pub struct SystemStats {
    pub cores: u32,
    pub frequency: u64,
    pub load: String,
    pub mem_total: u64,
    pub mem_avail: u64,
    pub mem_free: u64,
}

/// The share of memory that the report shows as used, in percent: the free
/// memory over a hundredth of the total, both rounded down.
pub open spec fn usage_percent(s: SystemStats) -> nat {
    (s.mem_free / (s.mem_total / 100)) as nat
}

/// The text of the report's CPU field.
pub open spec fn cpu_info_text(s: SystemStats) -> Seq<char> {
    "Total cores count: "@ + crate::text::bold_line_text(crate::text::dec(s.cores as nat))
        + "Frequency: "@ + crate::text::bold_line_text(crate::text::dec(s.frequency as nat))
        + "System load: "@ + crate::text::bold_line_text(s.load@)
}

/// The text of the report's memory field.
pub open spec fn memory_text(s: SystemStats) -> Seq<char> {
    "Total memory: "@ + crate::text::bold_line_text(crate::text::dec(s.mem_total as nat))
        + "Available memory: "@ + crate::text::bold_line_text(crate::text::dec(s.mem_avail as nat))
        + "Usage %: "@ + crate::text::bold_line_text(crate::text::dec(usage_percent(s)))
}

fn labelled(s: &mut String, label: &str, value: &str)
    ensures
        final(s)@ == old(s)@ + label@ + crate::text::bold_line_text(value@),
{
    s.append(label);
    push_bold_line(s, value);
}

/// The system load report: an inline field `CPU info` and an inline field
/// `Memory usage`. The memory total must be at least 100 KiB, or the usage
/// could not be computed.
pub fn build_system_load_embed(stats: &SystemStats) -> (e: Embed)
    requires
        stats.mem_total >= 100,
    ensures
        e.title is None,
        e.description is None,
        e.fields@.len() == 2,
        e.fields@[0].name@ == "CPU info"@,
        e.fields@[0].value@ == cpu_info_text(*stats),
        e.fields@[0].inline,
        e.fields@[1].name@ == "Memory usage"@,
        e.fields@[1].value@ == memory_text(*stats),
        e.fields@[1].inline,
{
    let mut cpu = String::new();
    labelled(&mut cpu, "Total cores count: ", decimal(stats.cores as u64).as_str());
    labelled(&mut cpu, "Frequency: ", decimal(stats.frequency).as_str());
    labelled(&mut cpu, "System load: ", stats.load.as_str());
    assert(cpu@ =~= cpu_info_text(*stats));
    let usage = stats.mem_free / (stats.mem_total / 100);
    let mut memory = String::new();
    labelled(&mut memory, "Total memory: ", decimal(stats.mem_total).as_str());
    labelled(&mut memory, "Available memory: ", decimal(stats.mem_avail).as_str());
    labelled(&mut memory, "Usage %: ", decimal(usage).as_str());
    assert(memory@ =~= memory_text(*stats));
    let mut fields = Vec::new();
    fields.push(EmbedField { name: "CPU info".to_owned(), value: cpu, inline: true });
    fields.push(EmbedField { name: "Memory usage".to_owned(), value: memory, inline: true });
    Embed { title: None, description: None, fields }
}

/// The load report shows what it was given: each figure in decimal, bold,
/// on a line of its own after its label, the core count first, reading back
/// as the core count; the usage is the free memory counted in hundredths of
/// the total, rounded down.
pub proof fn lemma_report_shows_stats(s: SystemStats)
    ensures
        cpu_info_text(s) == "Total cores count: **"@ + crate::text::dec(s.cores as nat) + "**\nFrequency: **"@
            + crate::text::dec(s.frequency as nat) + "**\nSystem load: **"@ + s.load@ + "**\n"@,
        crate::text::parse_u64_spec(
            cpu_info_text(s).subrange(
                "Total cores count: **"@.len() as int,
                "Total cores count: **"@.len() + crate::text::dec(s.cores as nat).len() as int,
            ),
        ) == Some(s.cores as u64),
        memory_text(s) == "Total memory: **"@ + crate::text::dec(s.mem_total as nat) + "**\nAvailable memory: **"@
            + crate::text::dec(s.mem_avail as nat) + "**\nUsage %: **"@ + crate::text::dec(usage_percent(s))
            + "**\n"@,
        s.mem_total >= 100 ==> usage_percent(s) * (s.mem_total / 100) <= s.mem_free < (usage_percent(s)
            + 1) * (s.mem_total / 100),
{
    reveal_strlit("Total cores count: **");
    reveal_strlit("Total cores count: ");
    reveal_strlit("**\nFrequency: **");
    reveal_strlit("Frequency: ");
    reveal_strlit("**\nSystem load: **");
    reveal_strlit("System load: ");
    reveal_strlit("**\n");
    reveal_strlit("Total memory: **");
    reveal_strlit("Total memory: ");
    reveal_strlit("**\nAvailable memory: **");
    reveal_strlit("Available memory: ");
    reveal_strlit("**\nUsage %: **");
    reveal_strlit("Usage %: ");
    let cores = crate::text::dec(s.cores as nat);
    assert(cpu_info_text(s) =~= "Total cores count: **"@ + cores + "**\nFrequency: **"@
        + crate::text::dec(s.frequency as nat) + "**\nSystem load: **"@ + s.load@ + "**\n"@);
    assert(memory_text(s) =~= "Total memory: **"@ + crate::text::dec(s.mem_total as nat) + "**\nAvailable memory: **"@
        + crate::text::dec(s.mem_avail as nat) + "**\nUsage %: **"@ + crate::text::dec(usage_percent(s))
        + "**\n"@);
    let p = "Total cores count: **"@;
    assert(cpu_info_text(s).subrange(p.len() as int, p.len() + cores.len() as int) =~= cores);
    crate::text::lemma_parse_dec(s.cores as u64);
    if s.mem_total >= 100 {
        let q = (s.mem_total / 100) as int;
        let f = s.mem_free as int;
        assert(q > 0);
        assert((f / q) * q <= f < (f / q + 1) * q) by (nonlinear_arith)
            requires
                q > 0,
                f >= 0,
        ;
    }
}

} // verus!
