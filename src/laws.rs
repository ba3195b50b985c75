//! Properties of the transcoder that hold for every input.
use vstd::prelude::*;
use crate::filter::{filtered, line_of, property_out};
use crate::model::{Calendar, Config, Event, Mode, Property, UnknownPolicy};
use crate::policy::{action_of, Action, ComponentKind};
use crate::pseudonym::{hex_digit, hex_of, hmac_sha256, pseudonym};
use crate::render::property_line;
use crate::transcode::{
    concat_outs, enclosed, event_out, events_out, generated, has_summary, masked_lines, own_header, then_ok,
    timezone_out, timezones_out, transition_out, transitions_out, unsupported, Out,
};

verus! {

proof fn lemma_hex_len(b: Seq<u8>)
    ensures
        hex_of(b).len() == 2 * b.len(),
    decreases b.len(),
{
    if b.len() > 0 {
        lemma_hex_len(b.drop_last());
    }
}

proof fn lemma_hex_digit_injective(m: u8, n: u8)
    requires
        m < 16,
        n < 16,
        hex_digit(m) == hex_digit(n),
    ensures
        m == n,
{
    let digits = seq!['0', '1', '2', '3', '4', '5', '6', '7', '8', '9', 'a', 'b', 'c', 'd', 'e', 'f'];
    assert(hex_digit(m) == digits[m as int]);
    assert(hex_digit(n) == digits[n as int]);
}

/// The hex form of a byte string determines the byte string.
pub proof fn lemma_hex_injective(a: Seq<u8>, b: Seq<u8>)
    requires
        hex_of(a) == hex_of(b),
    ensures
        a == b,
    decreases a.len(),
{
    lemma_hex_len(a);
    lemma_hex_len(b);
    if a.len() > 0 {
        let ha = hex_of(a.drop_last());
        let hb = hex_of(b.drop_last());
        lemma_hex_len(a.drop_last());
        lemma_hex_len(b.drop_last());
        let n = ha.len() as int;
        assert(hex_of(a)[n] == hex_digit(a.last() / 16));
        assert(hex_of(b)[n] == hex_digit(b.last() / 16));
        assert(hex_of(a)[n + 1] == hex_digit(a.last() % 16));
        assert(hex_of(b)[n + 1] == hex_digit(b.last() % 16));
        lemma_hex_digit_injective(a.last() / 16, b.last() / 16);
        lemma_hex_digit_injective(a.last() % 16, b.last() % 16);
        assert(a.last() == b.last()) by (nonlinear_arith)
            requires
                a.last() / 16 == b.last() / 16,
                a.last() % 16 == b.last() % 16,
        ;
        assert(hex_of(a).subrange(0, n) =~= ha);
        assert(hex_of(b).subrange(0, n) =~= hb);
        lemma_hex_injective(a.drop_last(), b.drop_last());
        assert(a =~= a.drop_last().push(a.last()));
        assert(b =~= b.drop_last().push(b.last()));
    }
}

/// A pseudonym depends on the seed and the identifier alone, and two seeds
/// give the same pseudonym of an identifier only where their HMAC tags of it
/// collide.
pub proof fn pseudonym_deterministic(seed1: Seq<char>, seed2: Seq<char>, id: Seq<char>)
    ensures
        seed1 == seed2 ==> pseudonym(seed1, id) == pseudonym(seed2, id),
        pseudonym(seed1, id) == pseudonym(seed2, id) ==> hmac_sha256(seed1, id) == hmac_sha256(seed2, id),
{
    if pseudonym(seed1, id) == pseudonym(seed2, id) {
        lemma_hex_injective(hmac_sha256(seed1, id), hmac_sha256(seed2, id));
    }
}

/// A calendar that holds alarms, to-dos, journals or free/busy blocks is
/// rejected, whatever the mode.
pub proof fn unsupported_always_rejected(cal: Calendar, cfg: Config)
    requires
        unsupported(cal) is Some,
    ensures
        generated(cal, cfg) is Err,
{
}

proof fn lemma_filtered_err_at(kind: ComponentKind, ps: Seq<Property>, cfg: Config, i: int)
    requires
        0 <= i < ps.len(),
        property_out(kind, ps[i], cfg) is Err,
    ensures
        filtered(kind, ps, cfg) is Err,
    decreases ps.len(),
{
    if i < ps.len() - 1 {
        lemma_filtered_err_at(kind, ps.drop_last(), cfg, i);
    }
}

proof fn lemma_concat_err_at<T>(xs: Seq<T>, f: spec_fn(T) -> Out, i: int)
    requires
        0 <= i < xs.len(),
        f(xs[i]) is Err,
    ensures
        concat_outs(xs, f) is Err,
    decreases xs.len(),
{
    if i < xs.len() - 1 {
        lemma_concat_err_at(xs.drop_last(), f, i);
    }
}

/// Under the strict policy a calendar property that the table does not list
/// fails the whole transcode.
pub proof fn strict_rejects_unknown_calendar_property(cal: Calendar, cfg: Config, i: int)
    requires
        cfg.unknown == UnknownPolicy::Strict,
        0 <= i < cal.properties@.len(),
        action_of(ComponentKind::Calendar, cal.properties@[i].name@, cal.properties@[i].value.deep_view()) == Action::Unknown,
    ensures
        generated(cal, cfg) is Err,
{
    lemma_filtered_err_at(ComponentKind::Calendar, cal.properties@, cfg, i);
}

/// Under the strict policy a timezone property that the table does not list
/// fails the whole transcode.
pub proof fn strict_rejects_unknown_timezone_property(cal: Calendar, cfg: Config, t: int, i: int)
    requires
        cfg.unknown == UnknownPolicy::Strict,
        0 <= t < cal.timezones@.len(),
        0 <= i < cal.timezones@[t].properties@.len(),
        action_of(
            ComponentKind::Timezone,
            cal.timezones@[t].properties@[i].name@,
            cal.timezones@[t].properties@[i].value.deep_view(),
        ) == Action::Unknown,
    ensures
        generated(cal, cfg) is Err,
{
    let tz = cal.timezones@[t];
    lemma_filtered_err_at(ComponentKind::Timezone, tz.properties@, cfg, i);
    assert(timezone_out(tz, cfg) is Err);
    lemma_concat_err_at(cal.timezones@, |z: crate::model::Timezone| timezone_out(z, cfg), t);
    assert(timezones_out(cal.timezones@, cfg) is Err);
}

/// Under the strict policy a timezone-transition property that the table
/// does not list fails the whole transcode.
pub proof fn strict_rejects_unknown_transition_property(cal: Calendar, cfg: Config, t: int, k: int, i: int)
    requires
        cfg.unknown == UnknownPolicy::Strict,
        0 <= t < cal.timezones@.len(),
        0 <= k < cal.timezones@[t].transitions@.len(),
        0 <= i < cal.timezones@[t].transitions@[k]@.len(),
        action_of(
            ComponentKind::TimezoneTransition,
            cal.timezones@[t].transitions@[k]@[i].name@,
            cal.timezones@[t].transitions@[k]@[i].value.deep_view(),
        ) == Action::Unknown,
    ensures
        generated(cal, cfg) is Err,
{
    let tz = cal.timezones@[t];
    let tr = tz.transitions@[k];
    lemma_filtered_err_at(ComponentKind::TimezoneTransition, tr@, cfg, i);
    assert(transition_out(tr@, cfg) is Err);
    lemma_concat_err_at(tz.transitions@, |x: Vec<Property>| transition_out(x@, cfg), k);
    assert(transitions_out(tz.transitions@, cfg) is Err);
    assert(timezone_out(tz, cfg) is Err);
    lemma_concat_err_at(cal.timezones@, |z: crate::model::Timezone| timezone_out(z, cfg), t);
    assert(timezones_out(cal.timezones@, cfg) is Err);
}

/// Under the strict policy an event property that the table does not list
/// fails the whole transcode, unless the event is one that is left out.
pub proof fn strict_rejects_unknown_event_property(cal: Calendar, cfg: Config, j: int, i: int)
    requires
        cfg.unknown == UnknownPolicy::Strict,
        0 <= j < cal.events@.len(),
        0 <= i < cal.events@[j].properties@.len(),
        action_of(
            ComponentKind::Event,
            cal.events@[j].properties@[i].name@,
            cal.events@[j].properties@[i].value.deep_view(),
        ) == Action::Unknown,
        !(cfg.mode matches Mode::IgnoreMatching { sentinel } && has_summary(cal.events@[j].properties@, sentinel@)),
    ensures
        generated(cal, cfg) is Err,
{
    let e = cal.events@[j];
    lemma_filtered_err_at(ComponentKind::Event, e.properties@, cfg, i);
    assert(event_out(e, cfg) is Err);
    lemma_concat_err_at(cal.events@, |x: Event| event_out(x, cfg), j);
    assert(events_out(cal.events@, cfg) is Err);
}

/// Under the lenient policy a property that the table does not list is left
/// out: the list gives what it gives without that property.
pub proof fn lenient_drops_unknown(kind: ComponentKind, ps: Seq<Property>, cfg: Config, i: int)
    requires
        cfg.unknown == UnknownPolicy::Lenient,
        0 <= i < ps.len(),
        action_of(kind, ps[i].name@, ps[i].value.deep_view()) == Action::Unknown,
    ensures
        filtered(kind, ps, cfg) == filtered(kind, ps.remove(i), cfg),
    decreases ps.len(),
{
    if i == ps.len() - 1 {
        assert(ps.remove(i) =~= ps.drop_last());
        assert(property_out(kind, ps.last(), cfg) == Ok::<Seq<char>, crate::error::TranscodeError>(Seq::empty()));
        match filtered(kind, ps.drop_last(), cfg) {
            Ok(t) => assert(t + Seq::<char>::empty() =~= t),
            Err(_) => {},
        }
    } else {
        lenient_drops_unknown(kind, ps.drop_last(), cfg, i);
        let r = ps.remove(i);
        assert(r.drop_last() =~= ps.drop_last().remove(i));
        assert(r.last() == ps.last());
    }
}

proof fn lemma_own_header_remove(ps: Seq<Property>, cfg: Config, i: int)
    requires
        0 <= i < ps.len(),
        !(ps[i].name@ == "VERSION"@ || ps[i].name@ == "PRODID"@),
    ensures
        own_header(ps, cfg) == own_header(ps.remove(i), cfg),
    decreases ps.len(),
{
    if i == ps.len() - 1 {
        assert(ps.remove(i) =~= ps.drop_last());
        assert(own_header(ps, cfg) =~= own_header(ps.drop_last(), cfg));
    } else {
        lemma_own_header_remove(ps.drop_last(), cfg, i);
        let r = ps.remove(i);
        assert(r.drop_last() =~= ps.drop_last().remove(i));
        assert(r.last() == ps.last());
    }
}

proof fn lemma_unknown_calendar_name(name: Seq<char>, value: Option<Seq<char>>)
    requires
        action_of(ComponentKind::Calendar, name, value) == Action::Unknown,
    ensures
        !(name == "VERSION"@ || name == "PRODID"@),
{
}

/// Under the lenient policy a calendar whose calendar-level properties differ
/// only by one property that the table does not list transcodes the same.
pub proof fn lenient_calendar_drops_unknown(cal: Calendar, without: Calendar, cfg: Config, i: int)
    requires
        cfg.unknown == UnknownPolicy::Lenient,
        0 <= i < cal.properties@.len(),
        action_of(ComponentKind::Calendar, cal.properties@[i].name@, cal.properties@[i].value.deep_view()) == Action::Unknown,
        without.properties@ == cal.properties@.remove(i),
        without.timezones == cal.timezones,
        without.events == cal.events,
        without.alarms == cal.alarms,
        without.todos == cal.todos,
        without.journals == cal.journals,
        without.free_busys == cal.free_busys,
    ensures
        generated(cal, cfg) == generated(without, cfg),
{
    lenient_drops_unknown(ComponentKind::Calendar, cal.properties@, cfg, i);
    let p = cal.properties@[i];
    lemma_unknown_calendar_name(p.name@, p.value.deep_view());
    lemma_own_header_remove(cal.properties@, cfg, i);
}

proof fn lemma_event_actions(value: Option<Seq<char>>)
    ensures
        action_of(ComponentKind::Event, "SUMMARY"@, value) == Action::Drop,
        action_of(ComponentKind::Event, "UID"@, value) == Action::Pseudonymize,
{
    reveal_strlit("SUMMARY");
    reveal_strlit("UID");
    reveal_strlit("DTSTART");
    reveal_strlit("DTEND");
    reveal_strlit("EXDATE");
    reveal_strlit("EXRULE");
    reveal_strlit("RDATE");
    reveal_strlit("RRULE");
    reveal_strlit("SEQUENCE");
    reveal_strlit("STATUS");
    reveal_strlit("CREATED");
    reveal_strlit("DTSTAMP");
    reveal_strlit("DESCRIPTION");
    reveal_strlit("LAST-MODIFIED");
    reveal_strlit("LOCATION");
    assert("SUMMARY"@ != "DTSTART"@) by { assert("SUMMARY"@[0] != "DTSTART"@[0]); }
    assert("UID"@ != "DTSTART"@) by { assert("UID"@.len() != "DTSTART"@.len()); }
    assert("SUMMARY"@ != "DTEND"@) by { assert("SUMMARY"@[0] != "DTEND"@[0]); }
    assert("UID"@ != "DTEND"@) by { assert("UID"@.len() != "DTEND"@.len()); }
    assert("SUMMARY"@ != "EXDATE"@) by { assert("SUMMARY"@[0] != "EXDATE"@[0]); }
    assert("UID"@ != "EXDATE"@) by { assert("UID"@.len() != "EXDATE"@.len()); }
    assert("SUMMARY"@ != "EXRULE"@) by { assert("SUMMARY"@[0] != "EXRULE"@[0]); }
    assert("UID"@ != "EXRULE"@) by { assert("UID"@.len() != "EXRULE"@.len()); }
    assert("SUMMARY"@ != "RDATE"@) by { assert("SUMMARY"@[0] != "RDATE"@[0]); }
    assert("UID"@ != "RDATE"@) by { assert("UID"@.len() != "RDATE"@.len()); }
    assert("SUMMARY"@ != "RRULE"@) by { assert("SUMMARY"@[0] != "RRULE"@[0]); }
    assert("UID"@ != "RRULE"@) by { assert("UID"@.len() != "RRULE"@.len()); }
    assert("SUMMARY"@ != "SEQUENCE"@) by { assert("SUMMARY"@[1] != "SEQUENCE"@[1]); }
    assert("UID"@ != "SEQUENCE"@) by { assert("UID"@.len() != "SEQUENCE"@.len()); }
    assert("SUMMARY"@ != "STATUS"@) by { assert("SUMMARY"@[1] != "STATUS"@[1]); }
    assert("UID"@ != "STATUS"@) by { assert("UID"@.len() != "STATUS"@.len()); }
    assert("SUMMARY"@ != "CREATED"@) by { assert("SUMMARY"@[0] != "CREATED"@[0]); }
    assert("SUMMARY"@ != "DTSTAMP"@) by { assert("SUMMARY"@[0] != "DTSTAMP"@[0]); }
    assert("SUMMARY"@ != "DESCRIPTION"@) by { assert("SUMMARY"@[0] != "DESCRIPTION"@[0]); }
    assert("SUMMARY"@ != "LAST-MODIFIED"@) by { assert("SUMMARY"@[0] != "LAST-MODIFIED"@[0]); }
    assert("SUMMARY"@ != "LOCATION"@) by { assert("SUMMARY"@[0] != "LOCATION"@[0]); }
    assert("SUMMARY"@ != "UID"@) by { assert("SUMMARY"@[0] != "UID"@[0]); }
}

/// In ignore-matching mode an event whose summary is the sentinel gives no
/// line at all; any other event is its block of permitted properties, as
/// they are, and never a summary line.
pub proof fn ignore_matching_events(e: Event, cfg: Config, p: Property)
    requires
        cfg.mode is IgnoreMatching,
    ensures
        has_summary(e.properties@, cfg.mode->sentinel@) ==> event_out(e, cfg) == Ok::<Seq<char>, crate::error::TranscodeError>(Seq::empty()),
        !has_summary(e.properties@, cfg.mode->sentinel@) ==> event_out(e, cfg) == enclosed(
            "BEGIN:VEVENT\n"@,
            filtered(ComponentKind::Event, e.properties@, cfg),
            "END:VEVENT\n"@,
        ),
        p.name@ == "SUMMARY"@ ==> property_out(ComponentKind::Event, p, cfg) == Ok::<Seq<char>, crate::error::TranscodeError>(Seq::empty()),
        action_of(ComponentKind::Event, p.name@, p.value.deep_view()) == Action::Pass
            || action_of(ComponentKind::Event, p.name@, p.value.deep_view()) == Action::Pseudonymize
            ==> property_out(ComponentKind::Event, p, cfg) == Ok::<Seq<char>, crate::error::TranscodeError>(line_of(p, cfg)),
{
    lemma_event_actions(p.value.deep_view());
}

/// In anonymize mode every event opens with the configured message as its
/// summary, any summary of its own is left out, and a UID is replaced by its
/// pseudonym under the seed.
pub proof fn anonymize_events(e: Event, cfg: Config, p: Property)
    requires
        cfg.mode is Anonymize,
    ensures
        event_out(e, cfg) == enclosed(
            "BEGIN:VEVENT\n"@ + masked_lines(cfg.mode->message@, cfg),
            filtered(ComponentKind::Event, e.properties@, cfg),
            "END:VEVENT\n"@,
        ),
        masked_lines(cfg.mode->message@, cfg).subrange(0, 9 + cfg.mode->message@.len() as int)
            == "SUMMARY:"@ + cfg.mode->message@ + "\n"@,
        p.name@ == "SUMMARY"@ ==> property_out(ComponentKind::Event, p, cfg) == Ok::<Seq<char>, crate::error::TranscodeError>(Seq::empty()),
        p.name@ == "UID"@ && cfg.mode->seed@.len() > 0 && p.value is Some ==> property_out(ComponentKind::Event, p, cfg)
            == Ok::<Seq<char>, crate::error::TranscodeError>(property_line(
                "UID"@,
                p.params.deep_view(),
                Some(pseudonym(cfg.mode->seed@, p.value->0@)),
                cfg.params,
            )),
{
    lemma_event_actions(p.value.deep_view());
    let m = cfg.mode->message@;
    reveal_strlit("SUMMARY");
    reveal_strlit(":");
    reveal_strlit("\n");
    reveal_strlit("SUMMARY:");
    assert("SUMMARY:"@ =~= "SUMMARY"@ + ":"@);
    let line = property_line("SUMMARY"@, None, Some(m), cfg.params);
    assert(line =~= "SUMMARY:"@ + m + "\n"@);
    assert(masked_lines(m, cfg).subrange(0, 9 + m.len() as int) =~= line);
}

} // verus!
