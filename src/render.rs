//! Rendering of one property into a calendar content line.
use vstd::prelude::*;
use vstd::string::*;

verus! {

/// How the values of a parameter are written.
#[derive(Clone, Copy, Debug, PartialEq, Eq, Structural)]
pub enum ParamStyle {
    /// `PARAM=a,b`
    Bare,
    /// `PARAM="a","b"`
    Quoted,
}

/// Ordered parameters of a property: each name with its ordered values.
pub type Params = Vec<(String, Vec<String>)>;

/// `vs` joined with `sep` between consecutive items.
pub open spec fn joined(vs: Seq<Seq<char>>, sep: Seq<char>) -> Seq<char>
    decreases vs.len(),
{
    if vs.len() == 0 {
        Seq::empty()
    } else if vs.len() == 1 {
        vs[0]
    } else {
        joined(vs.drop_last(), sep) + sep + vs.last()
    }
}

/// The text of one parameter, leading `;` included.
pub open spec fn param_text(name: Seq<char>, values: Seq<Seq<char>>, style: ParamStyle) -> Seq<char> {
    match style {
        ParamStyle::Bare => ";"@ + name + "="@ + joined(values, ","@),
        ParamStyle::Quoted => ";"@ + name + "=\""@ + joined(values, "\",\""@) + "\""@,
    }
}

/// The text of all parameters, in their order.
pub open spec fn params_text(ps: Seq<(Seq<char>, Seq<Seq<char>>)>, style: ParamStyle) -> Seq<char>
    decreases ps.len(),
{
    if ps.len() == 0 {
        Seq::empty()
    } else {
        params_text(ps.drop_last(), style) + param_text(ps.last().0, ps.last().1, style)
    }
}

/// One content line: `NAME[;PARAM=VALUES]*:VALUE` and a newline. A missing
/// value leaves the segment after the colon empty.
pub open spec fn property_line(
    name: Seq<char>,
    params: Option<Seq<(Seq<char>, Seq<Seq<char>>)>>,
    value: Option<Seq<char>>,
    style: ParamStyle,
) -> Seq<char> {
    name + match params {
        Some(ps) => params_text(ps, style),
        None => Seq::empty(),
    } + ":"@ + match value {
        Some(v) => v,
        None => Seq::empty(),
    } + "\n"@
}

fn append_joined(res: &mut String, vs: &Vec<String>, sep: &str)
    ensures
        final(res)@ == old(res)@ + joined(vs.deep_view(), sep@),
{
    let ghost start = res@;
    let ghost dv = vs.deep_view();
    let mut i: usize = 0;
    while i < vs.len()
        invariant
            i <= vs.len(),
            dv == vs.deep_view(),
            res@ == start + joined(dv.take(i as int), sep@),
        decreases vs.len() - i,
    {
        if i > 0 {
            res.append(sep);
        }
        res.append(vs[i].as_str());
        proof {
            let t = dv.take(i + 1);
            assert(t.drop_last() =~= dv.take(i as int));
            assert(t.last() == vs@[i as int]@);
            if i == 0 {
                assert(joined(dv.take(0), sep@) =~= Seq::empty());
                assert(res@ =~= start + joined(t, sep@));
            } else {
                assert(res@ =~= start + joined(t, sep@));
            }
        }
        i = i + 1;
    }
    assert(dv.take(vs.len() as int) =~= dv);
}

fn append_params(res: &mut String, ps: &Params, style: ParamStyle)
    ensures
        final(res)@ == old(res)@ + params_text(ps.deep_view(), style),
{
    let ghost start = res@;
    let ghost dv = ps.deep_view();
    let mut i: usize = 0;
    while i < ps.len()
        invariant
            i <= ps.len(),
            dv == ps.deep_view(),
            res@ == start + params_text(dv.take(i as int), style),
        decreases ps.len() - i,
    {
        let ghost before = res@;
        let p = &ps[i];
        res.append(";");
        res.append(p.0.as_str());
        match style {
            ParamStyle::Bare => {
                res.append("=");
                append_joined(res, &p.1, ",");
            },
            ParamStyle::Quoted => {
                res.append("=\"");
                append_joined(res, &p.1, "\",\"");
                res.append("\"");
            },
        }
        proof {
            let t = dv.take(i + 1);
            assert(t.drop_last() =~= dv.take(i as int));
            assert(t.last() == (p.0@, p.1.deep_view()));
            assert(res@ =~= before + param_text(p.0@, p.1.deep_view(), style));
            assert(res@ =~= start + params_text(t, style));
        }
        i = i + 1;
    }
    assert(dv.take(ps.len() as int) =~= dv);
}

/// Renders one property in the given parameter style.
pub fn render_property(
    name: &str,
    params: &Option<Params>,
    value: &Option<String>,
    style: ParamStyle,
) -> (r: String)
    ensures
        r@ == property_line(name@, params.deep_view(), value.deep_view(), style),
{
    let mut res = name.to_owned();
    match params {
        Some(ps) => append_params(&mut res, ps, style),
        None => {},
    }
    res.append(":");
    match value {
        Some(v) => res.append(v.as_str()),
        None => {},
    }
    res.append("\n");
    proof {
        assert(res@ =~= property_line(name@, params.deep_view(), value.deep_view(), style));
    }
    res
}

/// Renders one property with bare parameter values: `NAME;P=a,b:VALUE`.
pub fn build_property(name: &str, params: &Option<Params>, value: &Option<String>) -> (r: String)
    ensures
        r@ == property_line(name@, params.deep_view(), value.deep_view(), ParamStyle::Bare),
{
    render_property(name, params, value, ParamStyle::Bare)
}

} // verus!
