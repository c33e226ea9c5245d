//! Scrubbing of absent fields from wire values.

use vstd::prelude::*;

use crate::wire::{wire_fields_view, wire_seq_view, WireV, WireValue};

verus! {

/// A wire value with every null-valued object field removed, recursively.
/// Nulls inside arrays are kept: only object fields are elided.
pub open spec fn spec_scrub(j: WireV) -> WireV
    decreases j,
{
    match j {
        WireV::Obj(fs) => WireV::Obj(spec_scrub_fields(fs)),
        WireV::Arr(es) => WireV::Arr(spec_scrub_seq(es)),
        other => other,
    }
}

/// The field list with null-valued fields dropped and the remaining
/// values scrubbed.
pub open spec fn spec_scrub_fields(fs: Seq<(Seq<char>, WireV)>) -> Seq<(Seq<char>, WireV)>
    decreases fs,
{
    if fs.len() == 0 {
        Seq::empty()
    } else if fs[0].1 is Null {
        spec_scrub_fields(fs.drop_first())
    } else {
        seq![(fs[0].0, spec_scrub(fs[0].1))] + spec_scrub_fields(fs.drop_first())
    }
}

/// The element list with each element scrubbed; no element is dropped.
pub open spec fn spec_scrub_seq(es: Seq<WireV>) -> Seq<WireV>
    decreases es,
{
    if es.len() == 0 {
        Seq::empty()
    } else {
        seq![spec_scrub(es[0])] + spec_scrub_seq(es.drop_first())
    }
}

/// Scrubbing a field list extended by one field appends that field's
/// contribution.
proof fn lemma_scrub_fields_snoc(fs: Seq<(Seq<char>, WireV)>, x: (Seq<char>, WireV))
    ensures
        spec_scrub_fields(fs.push(x)) == spec_scrub_fields(fs) + (if x.1 is Null {
            Seq::<(Seq<char>, WireV)>::empty()
        } else {
            seq![(x.0, spec_scrub(x.1))]
        }),
    decreases fs.len(),
{
    reveal_with_fuel(spec_scrub_fields, 3);
    if fs.len() == 0 {
        assert(fs.push(x).drop_first() =~= Seq::<(Seq<char>, WireV)>::empty());
        assert(spec_scrub_fields(fs) =~= Seq::<(Seq<char>, WireV)>::empty());
        assert(spec_scrub_fields(fs) + (if x.1 is Null {
            Seq::<(Seq<char>, WireV)>::empty()
        } else {
            seq![(x.0, spec_scrub(x.1))]
        }) =~= (if x.1 is Null {
            Seq::<(Seq<char>, WireV)>::empty()
        } else {
            seq![(x.0, spec_scrub(x.1))]
        }));
    } else {
        assert(fs.push(x).drop_first() =~= fs.drop_first().push(x));
        lemma_scrub_fields_snoc(fs.drop_first(), x);
        if !(fs[0].1 is Null) {
            assert(seq![(fs[0].0, spec_scrub(fs[0].1))] + (spec_scrub_fields(fs.drop_first()) + (
            if x.1 is Null {
                Seq::<(Seq<char>, WireV)>::empty()
            } else {
                seq![(x.0, spec_scrub(x.1))]
            })) =~= (seq![(fs[0].0, spec_scrub(fs[0].1))] + spec_scrub_fields(fs.drop_first()))
                + (if x.1 is Null {
                Seq::<(Seq<char>, WireV)>::empty()
            } else {
                seq![(x.0, spec_scrub(x.1))]
            }));
        }
    }
}

/// Scrubbing an element list extended by one element appends that
/// element's scrubbed form.
proof fn lemma_scrub_seq_snoc(es: Seq<WireV>, x: WireV)
    ensures
        spec_scrub_seq(es.push(x)) == spec_scrub_seq(es) + seq![spec_scrub(x)],
    decreases es.len(),
{
    reveal_with_fuel(spec_scrub_seq, 3);
    if es.len() == 0 {
        assert(es.push(x).drop_first() =~= Seq::<WireV>::empty());
        assert(spec_scrub_seq(es.push(x)) =~= spec_scrub_seq(es) + seq![spec_scrub(x)]);
    } else {
        assert(es.push(x).drop_first() =~= es.drop_first().push(x));
        lemma_scrub_seq_snoc(es.drop_first(), x);
        assert(seq![spec_scrub(es[0])] + (spec_scrub_seq(es.drop_first()) + seq![spec_scrub(x)])
            =~= (seq![spec_scrub(es[0])] + spec_scrub_seq(es.drop_first())) + seq![spec_scrub(x)]);
    }
}

/// A scrubbed copy of the given wire value.
#[verifier::loop_isolation(false)]
fn scrub(v: &WireValue) -> (r: WireValue)
    ensures
        r@ == spec_scrub(v@),
    decreases *v,
{
    match v {
        WireValue::Null => WireValue::Null,
        WireValue::Bool(b) => WireValue::Bool(*b),
        WireValue::Int(i) => WireValue::Int(*i),
        WireValue::Str(s) => WireValue::Str(s.clone()),
        WireValue::Obj(fields) => {
            let ghost gfs = wire_fields_view(fields@);
            proof {
                crate::codec::lemma_wire_fields_view_props(fields@);
            }
            let mut out: Vec<(String, WireValue)> = Vec::new();
            let mut i: usize = 0;
            while i < fields.len()
                invariant
                    i <= fields@.len(),
                    wire_fields_view(out@) == spec_scrub_fields(gfs.take(i as int)),
                decreases fields@.len() - i,
            {
                proof {
                    assert(gfs.take(i + 1) =~= gfs.take(i as int).push(gfs[i as int]));
                    lemma_scrub_fields_snoc(gfs.take(i as int), gfs[i as int]);
                }
                if matches!(&fields[i].1, WireValue::Null) {
                    proof {
                        assert(wire_fields_view(out@) =~= spec_scrub_fields(gfs.take(i + 1)));
                    }
                } else {
                    let s = scrub(&fields[i].1);
                    let ghost out0 = out@;
                    out.push((fields[i].0.clone(), s));
                    proof {
                        crate::codec::lemma_wire_fields_view_props(out@);
                        crate::codec::lemma_wire_fields_view_props(out0);
                        assert(wire_fields_view(out@) =~= spec_scrub_fields(gfs.take(i + 1)));
                    }
                }
                i += 1;
            }
            proof {
                assert(gfs.take(gfs.len() as int) =~= gfs);
            }
            WireValue::Obj(out)
        },
        WireValue::Arr(items) => {
            let ghost ges = wire_seq_view(items@);
            proof {
                crate::codec::lemma_wire_seq_view_props(items@);
            }
            let mut out: Vec<WireValue> = Vec::new();
            let mut i: usize = 0;
            while i < items.len()
                invariant
                    i <= items@.len(),
                    wire_seq_view(out@) == spec_scrub_seq(ges.take(i as int)),
                decreases items@.len() - i,
            {
                proof {
                    assert(ges.take(i + 1) =~= ges.take(i as int).push(ges[i as int]));
                    lemma_scrub_seq_snoc(ges.take(i as int), ges[i as int]);
                }
                let s = scrub(&items[i]);
                let ghost out0 = out@;
                out.push(s);
                proof {
                    crate::codec::lemma_wire_seq_view_props(out@);
                    crate::codec::lemma_wire_seq_view_props(out0);
                    assert(wire_seq_view(out@) =~= spec_scrub_seq(ges.take(i + 1)));
                }
                i += 1;
            }
            proof {
                assert(ges.take(ges.len() as int) =~= ges);
            }
            WireValue::Arr(out)
        },
    }
}

/// Removes every null-valued field from every object in the value,
/// recursively; array elements are scrubbed in place but never removed.
pub fn delete_none_values(value: &mut WireValue)
    ensures
        final(value)@ == spec_scrub(old(value)@),
{
    let r = scrub(value);
    *value = r;
}

} // verus!
