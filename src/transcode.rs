//! The calendar transcoder: header, calendar properties, timezones with their
//! transitions, then events, each filtered through the policy, or a failure.
use vstd::prelude::*;
use vstd::string::*;
use crate::error::{TranscodeError, Unsupported};
use crate::filter::{filter_properties, filtered, line_of};
use crate::model::{Calendar, Config, Event, HeaderStyle, Mode, Property, Timezone};
use crate::policy::ComponentKind;
use crate::render::{property_line, render_property};
use crate::text::str_eq;

verus! {

/// Output text, or the first failure met while producing it.
pub type Out = Result<Seq<char>, TranscodeError>;

/// `a` followed by `b`; the first failure wins.
pub open spec fn then_ok(a: Out, b: Out) -> Out {
    match a {
        Err(e) => Err(e),
        Ok(x) => match b {
            Err(e) => Err(e),
            Ok(y) => Ok(x + y),
        },
    }
}

/// `r` between `open` and `close`, unless it failed.
pub open spec fn enclosed(open: Seq<char>, r: Out, close: Seq<char>) -> Out {
    match r {
        Err(e) => Err(e),
        Ok(t) => Ok(open + t + close),
    }
}

/// The outputs of `xs` under `f`, one after another; the first failure wins.
pub open spec fn concat_outs<T>(xs: Seq<T>, f: spec_fn(T) -> Out) -> Out
    decreases xs.len(),
{
    if xs.len() == 0 {
        Ok(Seq::empty())
    } else {
        then_ok(concat_outs(xs.drop_last(), f), f(xs.last()))
    }
}

/// A failure on a prefix of a list is the failure of the whole list.
pub proof fn lemma_concat_prefix_err<T>(xs: Seq<T>, f: spec_fn(T) -> Out, k: int)
    requires
        0 <= k <= xs.len(),
        concat_outs(xs.take(k), f) is Err,
    ensures
        concat_outs(xs, f) == concat_outs(xs.take(k), f),
    decreases xs.len(),
{
    if k < xs.len() {
        assert(xs.drop_last().take(k) =~= xs.take(k));
        lemma_concat_prefix_err(xs.drop_last(), f, k);
    } else {
        assert(xs.take(k) =~= xs);
    }
}

/// One transition block. Whether it was a daylight or a standard transition
/// is not kept, so every transition is written as a standard one.
pub open spec fn transition_out(props: Seq<Property>, cfg: Config) -> Out {
    enclosed("BEGIN:STANDARD\n"@, filtered(ComponentKind::TimezoneTransition, props, cfg), "END:STANDARD\n"@)
}

pub open spec fn transitions_out(ts: Seq<Vec<Property>>, cfg: Config) -> Out {
    concat_outs(ts, |t: Vec<Property>| transition_out(t@, cfg))
}

/// One timezone block: its properties, then its transitions.
pub open spec fn timezone_out(tz: Timezone, cfg: Config) -> Out {
    enclosed(
        "BEGIN:VTIMEZONE\n"@,
        then_ok(filtered(ComponentKind::Timezone, tz.properties@, cfg), transitions_out(tz.transitions@, cfg)),
        "END:VTIMEZONE\n"@,
    )
}

pub open spec fn timezones_out(tzs: Seq<Timezone>, cfg: Config) -> Out {
    concat_outs(tzs, |tz: Timezone| timezone_out(tz, cfg))
}

/// Whether some property is a `SUMMARY` whose value is `s`.
pub open spec fn has_summary(ps: Seq<Property>, s: Seq<char>) -> bool {
    exists|i: int| 0 <= i < ps.len() && ps[i].name@ == "SUMMARY"@ && ps[i].value.deep_view() == Some(s)
}

/// The summary and fixed stamp lines that open an anonymized event.
pub open spec fn masked_lines(message: Seq<char>, cfg: Config) -> Seq<char> {
    property_line("SUMMARY"@, None, Some(message), cfg.params)
        + property_line("DTSTAMP"@, None, Some("20200101T000001Z"@), cfg.params)
}

/// One event block, or nothing for an event that is left out.
pub open spec fn event_out(e: Event, cfg: Config) -> Out {
    match cfg.mode {
        Mode::IgnoreMatching { sentinel } => {
            if has_summary(e.properties@, sentinel@) {
                Ok(Seq::empty())
            } else {
                enclosed("BEGIN:VEVENT\n"@, filtered(ComponentKind::Event, e.properties@, cfg), "END:VEVENT\n"@)
            }
        },
        Mode::Anonymize { message, .. } => enclosed(
            "BEGIN:VEVENT\n"@ + masked_lines(message@, cfg),
            filtered(ComponentKind::Event, e.properties@, cfg),
            "END:VEVENT\n"@,
        ),
    }
}

pub open spec fn events_out(es: Seq<Event>, cfg: Config) -> Out {
    concat_outs(es, |e: Event| event_out(e, cfg))
}

/// The calendar's own `VERSION` and `PRODID` properties, as they are.
pub open spec fn own_header(ps: Seq<Property>, cfg: Config) -> Seq<char>
    decreases ps.len(),
{
    if ps.len() == 0 {
        Seq::empty()
    } else {
        own_header(ps.drop_last(), cfg) + if ps.last().name@ == "VERSION"@ || ps.last().name@ == "PRODID"@ {
            line_of(ps.last(), cfg)
        } else {
            Seq::empty()
        }
    }
}

/// The header lines that follow `BEGIN:VCALENDAR`.
pub open spec fn header_out(cal: Calendar, cfg: Config) -> Seq<char> {
    match cfg.header {
        HeaderStyle::Fixed => "VERSION:2.0\n"@ + "PRODID:CALDAV-ANON\n"@,
        HeaderStyle::PassThrough => own_header(cal.properties@, cfg),
    }
}

/// The first kind of refused component that the calendar holds, if any.
pub open spec fn unsupported(cal: Calendar) -> Option<Unsupported> {
    if cal.alarms > 0 {
        Some(Unsupported::Alarms)
    } else if cal.todos > 0 {
        Some(Unsupported::Todos)
    } else if cal.journals > 0 {
        Some(Unsupported::Journals)
    } else if cal.free_busys > 0 {
        Some(Unsupported::FreeBusys)
    } else {
        None
    }
}

/// The whole transcoded document, or the first failure.
pub open spec fn generated(cal: Calendar, cfg: Config) -> Out {
    match then_ok(
        then_ok(filtered(ComponentKind::Calendar, cal.properties@, cfg), timezones_out(cal.timezones@, cfg)),
        events_out(cal.events@, cfg),
    ) {
        Err(e) => Err(e),
        Ok(body) => match unsupported(cal) {
            Some(k) => Err(TranscodeError::UnsupportedComponent(k)),
            None => Ok("BEGIN:VCALENDAR\n"@ + header_out(cal, cfg) + body + "END:VCALENDAR\n"@),
        },
    }
}

fn handle_transitions(ts: &Vec<Vec<Property>>, cfg: &Config, res: &mut String) -> (r: Result<(), TranscodeError>)
    ensures
        match transitions_out(ts@, *cfg) {
            Ok(t) => r is Ok && final(res)@ == old(res)@ + t,
            Err(e) => r == Err::<(), TranscodeError>(e),
        },
{
    let ghost start = res@;
    let ghost mut acc: Seq<char> = Seq::empty();
    let mut i: usize = 0;
    proof {
        assert(ts@.take(0) =~= Seq::<Vec<Property>>::empty());
    }
    while i < ts.len()
        invariant
            i <= ts.len(),
            transitions_out(ts@.take(i as int), *cfg) == Ok::<Seq<char>, TranscodeError>(acc),
            res@ == start + acc,
        decreases ts.len() - i,
    {
        res.append("BEGIN:STANDARD\n");
        let out = filter_properties(ComponentKind::TimezoneTransition, &ts[i], cfg, res);
        proof {
            assert(ts@.take(i + 1).drop_last() =~= ts@.take(i as int));
            assert(ts@.take(i + 1).last() == ts@[i as int]);
        }
        match out {
            Err(e) => {
                proof {
                    lemma_concat_prefix_err(ts@, |t: Vec<Property>| transition_out(t@, *cfg), i + 1);
                }
                return Err(e);
            },
            Ok(()) => {},
        }
        res.append("END:STANDARD\n");
        proof {
            acc = acc + transition_out(ts@[i as int]@, *cfg)->Ok_0;
            assert(res@ =~= start + acc);
        }
        i = i + 1;
    }
    proof {
        assert(ts@.take(ts.len() as int) =~= ts@);
    }
    Ok(())
}

fn handle_timezone(tz: &Timezone, cfg: &Config, res: &mut String) -> (r: Result<(), TranscodeError>)
    ensures
        match timezone_out(*tz, *cfg) {
            Ok(t) => r is Ok && final(res)@ == old(res)@ + t,
            Err(e) => r == Err::<(), TranscodeError>(e),
        },
{
    let ghost start = res@;
    res.append("BEGIN:VTIMEZONE\n");
    match filter_properties(ComponentKind::Timezone, &tz.properties, cfg, res) {
        Err(e) => return Err(e),
        Ok(()) => {},
    }
    match handle_transitions(&tz.transitions, cfg, res) {
        Err(e) => return Err(e),
        Ok(()) => {},
    }
    res.append("END:VTIMEZONE\n");
    proof {
        assert(res@ =~= start + timezone_out(*tz, *cfg)->Ok_0);
    }
    Ok(())
}

/// Appends each timezone block to `res`, in order.
pub fn handle_timezones(tzs: &Vec<Timezone>, cfg: &Config, res: &mut String) -> (r: Result<(), TranscodeError>)
    ensures
        match timezones_out(tzs@, *cfg) {
            Ok(t) => r is Ok && final(res)@ == old(res)@ + t,
            Err(e) => r == Err::<(), TranscodeError>(e),
        },
{
    let ghost start = res@;
    let ghost mut acc: Seq<char> = Seq::empty();
    let mut i: usize = 0;
    proof {
        assert(tzs@.take(0) =~= Seq::<Timezone>::empty());
    }
    while i < tzs.len()
        invariant
            i <= tzs.len(),
            timezones_out(tzs@.take(i as int), *cfg) == Ok::<Seq<char>, TranscodeError>(acc),
            res@ == start + acc,
        decreases tzs.len() - i,
    {
        let out = handle_timezone(&tzs[i], cfg, res);
        proof {
            assert(tzs@.take(i + 1).drop_last() =~= tzs@.take(i as int));
            assert(tzs@.take(i + 1).last() == tzs@[i as int]);
        }
        match out {
            Err(e) => {
                proof {
                    lemma_concat_prefix_err(tzs@, |tz: Timezone| timezone_out(tz, *cfg), i + 1);
                }
                return Err(e);
            },
            Ok(()) => {},
        }
        proof {
            acc = acc + timezone_out(tzs@[i as int], *cfg)->Ok_0;
            assert(res@ =~= start + acc);
        }
        i = i + 1;
    }
    proof {
        assert(tzs@.take(tzs.len() as int) =~= tzs@);
    }
    Ok(())
}

/// Whether some property is a `SUMMARY` whose value is `sentinel`.
pub fn summary_is(props: &Vec<Property>, sentinel: &str) -> (r: bool)
    ensures
        r == has_summary(props@, sentinel@),
{
    let mut i: usize = 0;
    while i < props.len()
        invariant
            i <= props.len(),
            forall|j: int| 0 <= j < i ==> !(props@[j].name@ == "SUMMARY"@ && props@[j].value.deep_view() == Some(sentinel@)),
        decreases props.len() - i,
    {
        let p = &props[i];
        if str_eq(p.name.as_str(), "SUMMARY") {
            match &p.value {
                Some(v) => {
                    if str_eq(v.as_str(), sentinel) {
                        assert(props@[i as int].value.deep_view() == Some(sentinel@));
                        return true;
                    }
                },
                None => {},
            }
        }
        i = i + 1;
    }
    false
}

fn handle_event(e: &Event, cfg: &Config, res: &mut String) -> (r: Result<(), TranscodeError>)
    ensures
        match event_out(*e, *cfg) {
            Ok(t) => r is Ok && final(res)@ == old(res)@ + t,
            Err(err) => r == Err::<(), TranscodeError>(err),
        },
{
    let ghost start = res@;
    match &cfg.mode {
        Mode::IgnoreMatching { sentinel } => {
            if summary_is(&e.properties, sentinel.as_str()) {
                assert(res@ =~= start + Seq::<char>::empty());
                return Ok(());
            }
            res.append("BEGIN:VEVENT\n");
        },
        Mode::Anonymize { message, .. } => {
            res.append("BEGIN:VEVENT\n");
            res.append(render_property("SUMMARY", &None, &Some(message.clone()), cfg.params).as_str());
            res.append(render_property("DTSTAMP", &None, &Some("20200101T000001Z".to_owned()), cfg.params).as_str());
        },
    }
    match filter_properties(ComponentKind::Event, &e.properties, cfg, res) {
        Err(err) => return Err(err),
        Ok(()) => {},
    }
    res.append("END:VEVENT\n");
    proof {
        assert(res@ =~= start + event_out(*e, *cfg)->Ok_0);
    }
    Ok(())
}

/// Appends each event block to `res`, in order; events that are left out
/// add nothing.
pub fn handle_events(evts: &Vec<Event>, cfg: &Config, res: &mut String) -> (r: Result<(), TranscodeError>)
    ensures
        match events_out(evts@, *cfg) {
            Ok(t) => r is Ok && final(res)@ == old(res)@ + t,
            Err(e) => r == Err::<(), TranscodeError>(e),
        },
{
    let ghost start = res@;
    let ghost mut acc: Seq<char> = Seq::empty();
    let mut i: usize = 0;
    proof {
        assert(evts@.take(0) =~= Seq::<Event>::empty());
    }
    while i < evts.len()
        invariant
            i <= evts.len(),
            events_out(evts@.take(i as int), *cfg) == Ok::<Seq<char>, TranscodeError>(acc),
            res@ == start + acc,
        decreases evts.len() - i,
    {
        let out = handle_event(&evts[i], cfg, res);
        proof {
            assert(evts@.take(i + 1).drop_last() =~= evts@.take(i as int));
            assert(evts@.take(i + 1).last() == evts@[i as int]);
        }
        match out {
            Err(e) => {
                proof {
                    lemma_concat_prefix_err(evts@, |e: Event| event_out(e, *cfg), i + 1);
                }
                return Err(e);
            },
            Ok(()) => {},
        }
        proof {
            acc = acc + event_out(evts@[i as int], *cfg)->Ok_0;
            assert(res@ =~= start + acc);
        }
        i = i + 1;
    }
    proof {
        assert(evts@.take(evts.len() as int) =~= evts@);
    }
    Ok(())
}

/// Appends the calendar-level properties that the policy lets through.
pub fn handle_calendar_properties(props: &Vec<Property>, cfg: &Config, res: &mut String) -> (r: Result<(), TranscodeError>)
    ensures
        match filtered(ComponentKind::Calendar, props@, *cfg) {
            Ok(t) => r is Ok && final(res)@ == old(res)@ + t,
            Err(e) => r == Err::<(), TranscodeError>(e),
        },
{
    filter_properties(ComponentKind::Calendar, props, cfg, res)
}

fn handle_header(cal: &Calendar, cfg: &Config, res: &mut String)
    ensures
        final(res)@ == old(res)@ + header_out(*cal, *cfg),
{
    match cfg.header {
        HeaderStyle::Fixed => {
            res.append("VERSION:2.0\n");
            res.append("PRODID:CALDAV-ANON\n");
        },
        HeaderStyle::PassThrough => {
            let ghost start = res@;
            let props = &cal.properties;
            let mut i: usize = 0;
            proof {
                assert(props@.take(0) =~= Seq::<Property>::empty());
            }
            while i < props.len()
                invariant
                    i <= props.len(),
                    props == &cal.properties,
                    cfg.header == HeaderStyle::PassThrough,
                    res@ == start + own_header(props@.take(i as int), *cfg),
                decreases props.len() - i,
            {
                let p = &props[i];
                if str_eq(p.name.as_str(), "VERSION") || str_eq(p.name.as_str(), "PRODID") {
                    res.append(render_property(p.name.as_str(), &p.params, &p.value, cfg.params).as_str());
                }
                proof {
                    assert(props@.take(i + 1).drop_last() =~= props@.take(i as int));
                    assert(props@.take(i + 1).last() == props@[i as int]);
                    assert(res@ =~= start + own_header(props@.take(i + 1), *cfg));
                }
                i = i + 1;
            }
            proof {
                assert(props@.take(props.len() as int) =~= props@);
            }
        },
    }
}

/// Transcodes a parsed calendar into calendar text under `cfg`.
pub fn generate_ics(cal: &Calendar, cfg: &Config) -> (r: Result<String, TranscodeError>)
    ensures
        match generated(*cal, *cfg) {
            Ok(t) => r matches Ok(s) && s@ == t,
            Err(e) => r == Err::<String, TranscodeError>(e),
        },
{
    let mut res = "BEGIN:VCALENDAR\n".to_owned();
    handle_header(cal, cfg, &mut res);
    let ghost body_start = res@;
    match handle_calendar_properties(&cal.properties, cfg, &mut res) {
        Err(e) => return Err(e),
        Ok(()) => {},
    }
    match handle_timezones(&cal.timezones, cfg, &mut res) {
        Err(e) => return Err(e),
        Ok(()) => {},
    }
    match handle_events(&cal.events, cfg, &mut res) {
        Err(e) => return Err(e),
        Ok(()) => {},
    }
    if cal.alarms > 0 {
        return Err(TranscodeError::UnsupportedComponent(Unsupported::Alarms));
    }
    if cal.todos > 0 {
        return Err(TranscodeError::UnsupportedComponent(Unsupported::Todos));
    }
    if cal.journals > 0 {
        return Err(TranscodeError::UnsupportedComponent(Unsupported::Journals));
    }
    if cal.free_busys > 0 {
        return Err(TranscodeError::UnsupportedComponent(Unsupported::FreeBusys));
    }
    res.append("END:VCALENDAR\n");
    proof {
        assert(res@ =~= generated(*cal, *cfg)->Ok_0);
    }
    Ok(res)
}

} // verus!
