//! Parameter binding, shared by every statement execution path.
//!
//! Host code supplies either an ordered sequence, bound positionally in
//! order, or a keyed mapping, where each declared parameter name (with its
//! binding-sigil prefix stripped) is looked up in the mapping.  A missing
//! key, an unsupported value type, or an out-of-range integer is a binding
//! fault; the first fault in declaration order wins.

use vstd::prelude::*;

use crate::error::BindingFault;
use crate::value::{host_to_engine, spec_host_to_engine, HostValue, Value};

verus! {

/// Parameters as the host hands them in: an ordered sequence or a keyed
/// mapping.
#[derive(Debug, PartialEq)]
pub enum HostParams {
    Positional(Vec<HostValue>),
    Named(Vec<(String, HostValue)>),
}

/// Parameters ready for the engine: positional values in order, or pairs of
/// declared parameter name (sigil included) and value.
#[derive(Debug, PartialEq)]
pub enum BoundParams {
    Positional(Vec<Value>),
    Named(Vec<(String, Value)>),
}

/// The mathematical shape of bound parameters.
pub enum BoundParamsView {
    Positional(Seq<Value>),
    Named(Seq<(String, Value)>),
}

impl View for BoundParams {
    type V = BoundParamsView;

    open spec fn view(&self) -> BoundParamsView {
        match self {
            BoundParams::Positional(vals) => BoundParamsView::Positional(vals@),
            BoundParams::Named(pairs) => BoundParamsView::Named(pairs@),
        }
    }
}

/// Positional binding: each value marshals in order, and the first fault
/// aborts the binding.
pub open spec fn spec_bind_positional(vals: Seq<HostValue>) -> Result<Seq<Value>, BindingFault>
    decreases vals.len(),
{
    if vals.len() == 0 {
        Ok(Seq::empty())
    } else {
        match spec_host_to_engine(vals[0]) {
            Err(f) => Err(f),
            Ok(ev) => match spec_bind_positional(vals.drop_first()) {
                Err(f) => Err(f),
                Ok(rest) => Ok(seq![ev] + rest),
            },
        }
    }
}

/// `j` is the index of the first entry of `args` whose key is `key`.
pub open spec fn is_first_match(args: Seq<(String, HostValue)>, key: Seq<char>, j: int) -> bool {
    &&& 0 <= j < args.len()
    &&& args[j].0@ == key
    &&& forall|k: int| 0 <= k < j ==> args[k].0@ != key
}

/// The declared name with its one-character binding sigil stripped.
pub open spec fn spec_stripped(name: String) -> Seq<char> {
    name@.subrange(1, name@.len() as int)
}

/// Named binding: each declared name, stripped of its sigil, is looked up in
/// the mapping; the matched entry is consumed and its value marshaled.  A
/// name absent from the mapping is a fault, and the first fault in
/// declaration order wins.
pub open spec fn spec_bind_named(names: Seq<String>, args: Seq<(String, HostValue)>) -> Result<
    Seq<(String, Value)>,
    BindingFault,
>
    decreases names.len(),
{
    if names.len() == 0 {
        Ok(Seq::empty())
    } else {
        let name = names[0];
        let key = spec_stripped(name);
        if exists|j: int| is_first_match(args, key, j) {
            let j = choose|j: int| is_first_match(args, key, j);
            match spec_host_to_engine(args[j].1) {
                Err(f) => Err(f),
                Ok(ev) => match spec_bind_named(names.drop_first(), args.remove(j)) {
                    Err(f) => Err(f),
                    Ok(rest) => Ok(seq![(name, ev)] + rest),
                },
            }
        } else {
            Err(BindingFault::MissingNamedParameter(name))
        }
    }
}

/// How host parameters bind against the declared parameter names: an
/// ordered sequence binds positionally (the names play no part), a keyed
/// mapping binds by stripped name.
pub open spec fn spec_bind(params: HostParams, names: Seq<String>) -> Result<
    BoundParamsView,
    BindingFault,
> {
    match params {
        HostParams::Positional(vals) => match spec_bind_positional(vals@) {
            Ok(s) => Ok(BoundParamsView::Positional(s)),
            Err(f) => Err(f),
        },
        HostParams::Named(args) => match spec_bind_named(names, args@) {
            Ok(s) => Ok(BoundParamsView::Named(s)),
            Err(f) => Err(f),
        },
    }
}

/// Binds an ordered sequence of host values positionally, in order.
pub fn bind_positional(vals: Vec<HostValue>) -> (r: Result<Vec<Value>, BindingFault>)
    ensures
        match r {
            Ok(out) => spec_bind_positional(vals@) == Ok::<_, BindingFault>(out@),
            Err(f) => spec_bind_positional(vals@) == Err::<Seq<Value>, _>(f),
        },
{
    let ghost full = spec_bind_positional(vals@);
    let mut rest = vals;
    let mut out: Vec<Value> = Vec::new();
    proof {
        assert(rest@.skip(0) =~= rest@);
        match full {
            Ok(tail) => {
                assert(out@ + tail =~= tail);
            },
            Err(_) => {},
        }
    }
    while rest.len() > 0
        invariant
            full == spec_bind_positional(vals@),
            match spec_bind_positional(rest@) {
                Ok(tail) => full == Ok::<_, BindingFault>(out@ + tail),
                Err(f) => full == Err::<Seq<Value>, _>(f),
            },
        decreases rest@.len(),
    {
        let ghost before = rest@;
        let v = rest.remove(0);
        assert(v == before[0]);
        assert(rest@ =~= before.drop_first());
        match host_to_engine(v) {
            Err(f) => {
                return Err(f);
            },
            Ok(ev) => {
                let ghost out_before = out@;
                out.push(ev);
                proof {
                    match spec_bind_positional(rest@) {
                        Ok(tail) => {
                            assert(spec_bind_positional(before) == Ok::<_, BindingFault>(
                                seq![ev] + tail,
                            ));
                            assert(out@ + tail =~= out_before + (seq![ev] + tail));
                        },
                        Err(_) => {},
                    }
                }
            },
        }
    }
    proof {
        match spec_bind_positional(rest@) {
            Ok(tail) => {
                assert(tail =~= Seq::<Value>::empty());
                assert(out@ + tail =~= out@);
            },
            Err(_) => {},
        }
    }
    Ok(out)
}

/// Finds the first entry of `args` whose key equals `key`.
fn find_first(args: &Vec<(String, HostValue)>, key: &String) -> (r: Option<usize>)
    ensures
        match r {
            Some(j) => is_first_match(args@, key@, j as int),
            None => forall|k: int| 0 <= k < args@.len() ==> args@[k].0@ != key@,
        },
{
    let mut k: usize = 0;
    while k < args.len()
        invariant
            k <= args@.len(),
            forall|m: int| 0 <= m < k ==> args@[m].0@ != key@,
        decreases args@.len() - k,
    {
        if args[k].0 == *key {
            return Some(k);
        }
        k = k + 1;
    }
    None
}

/// Binds a keyed mapping against the declared parameter names: each name,
/// stripped of its one-character sigil, must appear in the mapping.
pub fn bind_named(decl_names: &Vec<String>, args: Vec<(String, HostValue)>) -> (r: Result<
    Vec<(String, Value)>,
    BindingFault,
>)
    requires
        forall|i: int| 0 <= i < decl_names@.len() ==> decl_names@[i]@.len() >= 1,
    ensures
        match r {
            Ok(out) => spec_bind_named(decl_names@, args@) == Ok::<_, BindingFault>(out@),
            Err(f) => spec_bind_named(decl_names@, args@) == Err::<Seq<(String, Value)>, _>(f),
        },
{
    let ghost full = spec_bind_named(decl_names@, args@);
    let mut cur = args;
    let mut out: Vec<(String, Value)> = Vec::new();
    let mut i: usize = 0;
    proof {
        assert(decl_names@.skip(0) =~= decl_names@);
        match full {
            Ok(tail) => {
                assert(out@ + tail =~= tail);
            },
            Err(_) => {},
        }
    }
    while i < decl_names.len()
        invariant
            i <= decl_names@.len(),
            forall|n: int| 0 <= n < decl_names@.len() ==> decl_names@[n]@.len() >= 1,
            full == spec_bind_named(decl_names@, args@),
            match spec_bind_named(decl_names@.skip(i as int), cur@) {
                Ok(tail) => full == Ok::<_, BindingFault>(out@ + tail),
                Err(f) => full == Err::<Seq<(String, Value)>, _>(f),
            },
        decreases decl_names@.len() - i,
    {
        let ghost names_here = decl_names@.skip(i as int);
        proof {
            assert(names_here[0] == decl_names@[i as int]);
            assert(names_here.drop_first() =~= decl_names@.skip(i as int + 1));
        }
        let name = &decl_names[i];
        let len = name.unicode_len();
        let key = name.substring_char(1, len).to_owned();
        assert(key@ == spec_stripped(decl_names@[i as int]));
        match find_first(&cur, &key) {
            None => {
                proof {
                    assert(forall|j: int| !is_first_match(cur@, key@, j));
                }
                return Err(BindingFault::MissingNamedParameter(name.clone()));
            },
            Some(j) => {
                let ghost cur_before = cur@;
                proof {
                    let jj = choose|x: int| is_first_match(cur_before, key@, x);
                    assert(is_first_match(cur_before, key@, j as int));
                    assert(is_first_match(cur_before, key@, jj));
                    if jj < j as int {
                        assert(cur_before[jj].0@ == key@);
                        assert(false);
                    }
                    if (j as int) < jj {
                        assert(cur_before[j as int].0@ == key@);
                        assert(false);
                    }
                    assert(jj == j as int);
                }
                let pair = cur.remove(j);
                assert(pair == cur_before[j as int]);
                match host_to_engine(pair.1) {
                    Err(f) => {
                        return Err(f);
                    },
                    Ok(ev) => {
                        let ghost out_before = out@;
                        out.push((name.clone(), ev));
                        proof {
                            match spec_bind_named(decl_names@.skip(i as int + 1), cur@) {
                                Ok(tail) => {
                                    assert(spec_bind_named(names_here, cur_before) == Ok::<
                                        _,
                                        BindingFault,
                                    >(seq![(decl_names@[i as int], ev)] + tail));
                                    assert(out@ + tail =~= out_before + (seq![
                                        (decl_names@[i as int], ev),
                                    ] + tail));
                                },
                                Err(_) => {},
                            }
                        }
                    },
                }
            },
        }
        i = i + 1;
    }
    proof {
        assert(decl_names@.skip(i as int) =~= Seq::<String>::empty());
        match spec_bind_named(decl_names@.skip(i as int), cur@) {
            Ok(tail) => {
                assert(tail =~= Seq::<(String, Value)>::empty());
                assert(out@ + tail =~= out@);
            },
            Err(_) => {},
        }
    }
    Ok(out)
}

/// Binds host parameters for one execution: an ordered sequence binds
/// positionally, a keyed mapping binds by stripped declared name.
pub fn bind(params: HostParams, decl_names: &Vec<String>) -> (r: Result<BoundParams, BindingFault>)
    requires
        forall|i: int| 0 <= i < decl_names@.len() ==> decl_names@[i]@.len() >= 1,
    ensures
        match r {
            Ok(b) => spec_bind(params, decl_names@) == Ok::<_, BindingFault>(b@),
            Err(f) => spec_bind(params, decl_names@) == Err::<BoundParamsView, _>(f),
        },
{
    match params {
        HostParams::Positional(vals) => match bind_positional(vals) {
            Ok(out) => Ok(BoundParams::Positional(out)),
            Err(f) => Err(f),
        },
        HostParams::Named(args) => match bind_named(decl_names, args) {
            Ok(out) => Ok(BoundParams::Named(out)),
            Err(f) => Err(f),
        },
    }
}

} // verus!
