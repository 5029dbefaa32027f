//! The report text: what a synthesized routine, once compiled and invoked,
//! prints. Rendering a routine to a string is the reference semantics of its
//! emission steps.

use vstd::prelude::*;
use vstd::string::StringExecFns;
use crate::synth::{RenderingRoutine, RoutineV, Step, StepV};

verus! {

/// One printed documentation line: the prefix marker, the text, a break.
pub open spec fn rendered_doc_line(line: Seq<char>) -> Seq<char> {
    "# "@ + line + "\n"@
}

/// A documentation group: its lines in order, without the closing blank.
pub open spec fn rendered_doc_lines(lines: Seq<Seq<char>>) -> Seq<char>
    decreases lines.len(),
{
    if lines.len() == 0 {
        Seq::empty()
    } else {
        rendered_doc_lines(lines.drop_last()) + rendered_doc_line(lines.last())
    }
}

/// The text printed by one emission step.
pub open spec fn rendered_step(s: StepV) -> Seq<char> {
    match s {
        StepV::LiteralLine(text) => text + "\n"@,
        StepV::FieldDocBlock { name, declared_type, docs } => "# name: '"@ + name + "'\n"@
            + "# type: '"@ + declared_type + "'\n"@ + "# desc:\n"@ + rendered_doc_lines(docs)
            + "\n"@,
        StepV::Passthrough => Seq::empty(),
    }
}

/// The text printed by a step sequence, in order.
pub open spec fn rendered_steps(steps: Seq<StepV>) -> Seq<char>
    decreases steps.len(),
{
    if steps.len() == 0 {
        Seq::empty()
    } else {
        rendered_steps(steps.drop_last()) + rendered_step(steps.last())
    }
}

/// The full report text printed by a routine.
pub open spec fn rendered_routine(r: RoutineV) -> Seq<char> {
    rendered_steps(r.steps)
}

/// Execute a routine's emission steps against a string: the report text the
/// routine prints when invoked.
pub fn render(routine: &RenderingRoutine) -> (r: String)
    ensures
        r@ == rendered_routine(routine@),
{
    let mut out = String::new();
    let steps = &routine.steps;
    let ghost sv = steps.deep_view();
    let mut i: usize = 0;
    while i < steps.len()
        invariant
            i <= steps.len(),
            sv == steps.deep_view(),
            sv.len() == steps.len(),
            out@ == rendered_steps(sv.take(i as int)),
        decreases steps.len() - i,
    {
        let ghost pre = out@;
        match &steps[i] {
            Step::LiteralLine(text) => {
                out.append(text.as_str());
                out.append("\n");
            },
            Step::FieldDocBlock { name, declared_type, docs } => {
                out.append("# name: '");
                out.append(name.as_str());
                out.append("'\n");
                out.append("# type: '");
                out.append(declared_type.as_str());
                out.append("'\n");
                out.append("# desc:\n");
                let ghost base = out@;
                let ghost dv = docs.deep_view();
                let mut k: usize = 0;
                while k < docs.len()
                    invariant
                        k <= docs.len(),
                        dv == docs.deep_view(),
                        dv.len() == docs.len(),
                        out@ == base + rendered_doc_lines(dv.take(k as int)),
                    decreases docs.len() - k,
                {
                    out.append("# ");
                    out.append(docs[k].as_str());
                    out.append("\n");
                    proof {
                        assert(dv.take(k + 1).drop_last() =~= dv.take(k as int));
                        assert(out@ =~= base + rendered_doc_lines(dv.take(k + 1)));
                    }
                    k = k + 1;
                }
                proof {
                    assert(dv.take(docs.len() as int) =~= dv);
                }
                out.append("\n");
            },
            Step::Passthrough => {},
        }
        proof {
            assert(sv.take(i + 1).drop_last() =~= sv.take(i as int));
            assert(sv.take(i + 1).last() == sv[i as int]);
            assert(out@ =~= pre + rendered_step(sv[i as int]));
        }
        i = i + 1;
    }
    proof {
        assert(sv.take(steps.len() as int) =~= sv);
    }
    out
}

} // verus!
