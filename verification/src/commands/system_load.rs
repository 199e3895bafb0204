//! `/system_load`: report the machine's load.

use vstd::prelude::*;
use vstd::string::StringExecFns;
use crate::model::CommandSpec;
use crate::model::InteractionResponse;
use crate::utils::build_system_load_embed;
use crate::utils::SystemStats;

verus! {

/// The answer to `/system_load`: the system load report for `stats`.
pub fn command(stats: &SystemStats) -> (r: InteractionResponse)
    requires
        stats.mem_total >= 100,
    ensures
        r.embed matches Some(e) && e.fields@.len() == 2 && e.title is None && e.description is None
            && e.fields@[0].name@ == "CPU info"@ && e.fields@[0].value@
            == crate::utils::cpu_info_text(*stats) && e.fields@[0].inline && e.fields@[1].name@
            == "Memory usage"@ && e.fields@[1].value@ == crate::utils::memory_text(*stats)
            && e.fields@[1].inline,
{
    InteractionResponse { embed: Some(build_system_load_embed(stats)) }
}

/// The `/system_load` command, without options.
pub open spec fn is_system_load_command(c: CommandSpec) -> bool {
    &&& c.name@ == "system_load"@
    &&& c.description@ == "Get system load"@
    &&& c.options@.len() == 0
}

/// The `/system_load` command, without options.
pub fn setup_command() -> (c: CommandSpec)
    ensures
        is_system_load_command(c),
{
    CommandSpec {
        name: "system_load".to_owned(),
        description: "Get system load".to_owned(),
        options: Vec::new(),
    }
}

} // verus!
