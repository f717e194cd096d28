//! Small formatting utilities for the system-information view.

use crate::text::dec_nat;
use crate::text::u64_to_dec;
use vstd::prelude::*;
use vstd::string::StringExecFns;

verus! {

/// A count followed by the grammatically fitting noun form.
pub open spec fn spec_pluralize(count: nat, singular: Seq<char>, plural: Seq<char>) -> Seq<char> {
    dec_nat(count) + " "@ + if count == 1 {
        singular
    } else {
        plural
    }
}

/// The uptime rendering: days, hours and minutes when there are days; hours
/// and minutes when there are hours; minutes alone when there are minutes;
/// otherwise seconds.
pub open spec fn spec_format_uptime(uptime: nat) -> Seq<char> {
    let days = uptime / 86400;
    let hours = (uptime % 86400) / 3600;
    let minutes = (uptime % 3600) / 60;
    if days > 0 {
        spec_pluralize(days, "día"@, "días"@) + ", "@ + spec_pluralize(hours, "hora"@, "horas"@)
            + ", "@ + spec_pluralize(minutes, "minuto"@, "minutos"@)
    } else if hours > 0 {
        spec_pluralize(hours, "hora"@, "horas"@) + ", "@ + spec_pluralize(
            minutes,
            "minuto"@,
            "minutos"@,
        )
    } else if minutes > 0 {
        spec_pluralize(minutes, "minuto"@, "minutos"@)
    } else {
        spec_pluralize(uptime, "segundo"@, "segundos"@)
    }
}

/// Renders a count with the right singular or plural noun.
pub fn pluralize(count: u64, singular: &str, plural: &str) -> (r: String)
    ensures
        r@ =~= spec_pluralize(count as nat, singular@, plural@),
{
    let mut s = u64_to_dec(count);
    s.append(" ");
    if count == 1 {
        s.append(singular);
    } else {
        s.append(plural);
    }
    s
}

/// Formats a system uptime, given in seconds, as human-readable text.
pub fn format_uptime(uptime: u64) -> (r: String)
    ensures
        r@ =~= spec_format_uptime(uptime as nat),
{
    let seconds = uptime;
    let days = seconds / 86400;
    let hours = (seconds % 86400) / 3600;
    let minutes = (seconds % 3600) / 60;

    if days > 0 {
        let mut s = pluralize(days, "día", "días");
        s.append(", ");
        s.append(pluralize(hours, "hora", "horas").as_str());
        s.append(", ");
        s.append(pluralize(minutes, "minuto", "minutos").as_str());
        s
    } else if hours > 0 {
        let mut s = pluralize(hours, "hora", "horas");
        s.append(", ");
        s.append(pluralize(minutes, "minuto", "minutos").as_str());
        s
    } else if minutes > 0 {
        pluralize(minutes, "minuto", "minutos")
    } else {
        pluralize(seconds, "segundo", "segundos")
    }
}

} // verus!
