//! Filtering of one component's property list through the policy table.
use vstd::prelude::*;
use vstd::string::*;
use crate::error::TranscodeError;
use crate::model::{Config, Mode, Property, UnknownPolicy};
use crate::policy::{action_of, classify, Action, ComponentKind};
use crate::pseudonym::{pseudonym, pseudonymize};
use crate::render::{property_line, render_property};

verus! {

/// The line of `p` as it stands.
pub open spec fn line_of(p: Property, cfg: Config) -> Seq<char> {
    property_line(p.name@, p.params.deep_view(), p.value.deep_view(), cfg.params)
}

/// What one property of a component of kind `kind` contributes.
pub open spec fn property_out(kind: ComponentKind, p: Property, cfg: Config) -> Result<Seq<char>, TranscodeError> {
    match action_of(kind, p.name@, p.value.deep_view()) {
        Action::Pass => Ok(line_of(p, cfg)),
        Action::Drop => Ok(Seq::empty()),
        Action::Pseudonymize => match cfg.mode {
            Mode::Anonymize { seed, .. } => match p.value {
                None => Err(TranscodeError::MissingValue(kind, p.name)),
                Some(v) => if seed@.len() == 0 {
                    Err(TranscodeError::MissingSeed)
                } else {
                    Ok(property_line(p.name@, p.params.deep_view(), Some(pseudonym(seed@, v@)), cfg.params))
                },
            },
            Mode::IgnoreMatching { .. } => Ok(line_of(p, cfg)),
        },
        Action::Unknown => match cfg.unknown {
            UnknownPolicy::Strict => Err(TranscodeError::UnknownProperty(kind, p.name)),
            UnknownPolicy::Lenient => Ok(Seq::empty()),
        },
    }
}

/// The lines of a property list, in order, or the first failure.
pub open spec fn filtered(kind: ComponentKind, ps: Seq<Property>, cfg: Config) -> Result<Seq<char>, TranscodeError>
    decreases ps.len(),
{
    if ps.len() == 0 {
        Ok(Seq::empty())
    } else {
        match filtered(kind, ps.drop_last(), cfg) {
            Err(e) => Err(e),
            Ok(t) => match property_out(kind, ps.last(), cfg) {
                Err(e) => Err(e),
                Ok(l) => Ok(t + l),
            },
        }
    }
}

/// Appends the output of one property to `res`.
fn handle_property(kind: ComponentKind, p: &Property, cfg: &Config, res: &mut String) -> (r: Result<(), TranscodeError>)
    ensures
        match property_out(kind, *p, *cfg) {
            Ok(l) => r is Ok && final(res)@ == old(res)@ + l,
            Err(e) => r == Err::<(), TranscodeError>(e),
        },
{
    match classify(kind, p.name.as_str(), &p.value) {
        Action::Pass => {
            res.append(render_property(p.name.as_str(), &p.params, &p.value, cfg.params).as_str());
            Ok(())
        },
        Action::Drop => Ok(()),
        Action::Pseudonymize => match &cfg.mode {
            Mode::Anonymize { seed, .. } => match &p.value {
                None => Err(TranscodeError::MissingValue(kind, p.name.clone())),
                Some(v) => {
                    let hashed = pseudonymize(seed.as_str(), v.as_str())?;
                    res.append(render_property(p.name.as_str(), &p.params, &Some(hashed), cfg.params).as_str());
                    Ok(())
                },
            },
            Mode::IgnoreMatching { .. } => {
                res.append(render_property(p.name.as_str(), &p.params, &p.value, cfg.params).as_str());
                Ok(())
            },
        },
        Action::Unknown => match cfg.unknown {
            UnknownPolicy::Strict => Err(TranscodeError::UnknownProperty(kind, p.name.clone())),
            UnknownPolicy::Lenient => Ok(()),
        },
    }
}

/// A failure on a prefix of a property list is the failure of the whole list.
pub proof fn lemma_filtered_prefix_err(kind: ComponentKind, ps: Seq<Property>, cfg: Config, k: int)
    requires
        0 <= k <= ps.len(),
        filtered(kind, ps.take(k), cfg) is Err,
    ensures
        filtered(kind, ps, cfg) == filtered(kind, ps.take(k), cfg),
    decreases ps.len(),
{
    if k < ps.len() {
        assert(ps.drop_last().take(k) =~= ps.take(k));
        lemma_filtered_prefix_err(kind, ps.drop_last(), cfg, k);
    } else {
        assert(ps.take(k) =~= ps);
    }
}

/// Appends the permitted, possibly transformed, lines of `props` to `res`,
/// in their order; stops at the first failure.
pub fn filter_properties(kind: ComponentKind, props: &Vec<Property>, cfg: &Config, res: &mut String) -> (r: Result<(), TranscodeError>)
    ensures
        match filtered(kind, props@, *cfg) {
            Ok(t) => r is Ok && final(res)@ == old(res)@ + t,
            Err(e) => r == Err::<(), TranscodeError>(e),
        },
{
    let ghost start = res@;
    let ghost mut acc: Seq<char> = Seq::empty();
    let mut i: usize = 0;
    proof {
        assert(props@.take(0) =~= Seq::<Property>::empty());
    }
    while i < props.len()
        invariant
            i <= props.len(),
            filtered(kind, props@.take(i as int), *cfg) == Ok::<Seq<char>, TranscodeError>(acc),
            res@ == start + acc,
        decreases props.len() - i,
    {
        let out = handle_property(kind, &props[i], cfg, res);
        proof {
            assert(props@.take(i + 1).drop_last() =~= props@.take(i as int));
            assert(props@.take(i + 1).last() == props@[i as int]);
        }
        match out {
            Err(e) => {
                proof {
                    lemma_filtered_prefix_err(kind, props@, *cfg, i + 1);
                }
                return Err(e);
            },
            Ok(()) => {},
        }
        proof {
            acc = acc + property_out(kind, props@[i as int], *cfg)->Ok_0;
            assert(res@ =~= start + acc);
        }
        i = i + 1;
    }
    proof {
        assert(props@.take(props.len() as int) =~= props@);
    }
    Ok(())
}

/// The names, in order, of the properties in `ps` that the table does not
/// list for `kind`.
pub open spec fn unknown_names(kind: ComponentKind, ps: Seq<Property>) -> Seq<Seq<char>>
    decreases ps.len(),
{
    if ps.len() == 0 {
        Seq::empty()
    } else if action_of(kind, ps.last().name@, ps.last().value.deep_view()) == Action::Unknown {
        unknown_names(kind, ps.drop_last()).push(ps.last().name@)
    } else {
        unknown_names(kind, ps.drop_last())
    }
}

/// The names of the properties that the table does not list for `kind`, in
/// their order: what the lenient policy leaves out, and the strict one
/// refuses.
pub fn unknown_properties(kind: ComponentKind, props: &Vec<Property>) -> (r: Vec<String>)
    ensures
        r.deep_view() == unknown_names(kind, props@),
{
    let mut r: Vec<String> = Vec::new();
    let mut i: usize = 0;
    proof {
        assert(props@.take(0) =~= Seq::<Property>::empty());
        assert(r.deep_view() =~= Seq::<Seq<char>>::empty());
    }
    while i < props.len()
        invariant
            i <= props.len(),
            r.deep_view() == unknown_names(kind, props@.take(i as int)),
        decreases props.len() - i,
    {
        let p = &props[i];
        if classify(kind, p.name.as_str(), &p.value) == Action::Unknown {
            r.push(p.name.clone());
        }
        proof {
            assert(props@.take(i + 1).drop_last() =~= props@.take(i as int));
            assert(props@.take(i + 1).last() == props@[i as int]);
            assert(r.deep_view() =~= unknown_names(kind, props@.take(i + 1)));
        }
        i = i + 1;
    }
    proof {
        assert(props@.take(props.len() as int) =~= props@);
    }
    r
}

} // verus!
