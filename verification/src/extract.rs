//! The documentation extractor: filters an annotation list down to its
//! documentation lines, verbatim and in input order.

use vstd::prelude::*;
use crate::decl::{ann_wf, anns_wf, Annotation, AnnotationKind, AnnotationV, AnnotationValue,
    AnnotationValueV};
use crate::errors::GenerationErrorKind;

verus! {

/// Whether an annotation is flagged as documentation.
pub open spec fn is_doc(a: AnnotationV) -> bool {
    a.kind is Documentation
}

/// The literal text carried by an annotation.
pub open spec fn ann_text(a: AnnotationV) -> Seq<char>
    recommends
        a.value is Literal,
{
    a.value->Literal_0
}

/// The documentation lines carried by an annotation sequence: one line per
/// documentation annotation, verbatim, in input order. Annotations of other
/// kinds contribute nothing.
pub open spec fn doc_lines(s: Seq<AnnotationV>) -> Seq<Seq<char>>
    decreases s.len(),
{
    if s.len() == 0 {
        Seq::empty()
    } else {
        let init = doc_lines(s.drop_last());
        let a = s.last();
        if a.kind is Documentation {
            match a.value {
                AnnotationValueV::Literal(t) => init.push(t),
                AnnotationValueV::Structured => init,
            }
        } else {
            init
        }
    }
}

/// The documentation annotations of a sequence, mapped to their text.
pub open spec fn docs_filtered(s: Seq<AnnotationV>) -> Seq<Seq<char>> {
    s.filter(|a: AnnotationV| is_doc(a)).map_values(|a: AnnotationV| ann_text(a))
}

/// Law: on a well-formed annotation sequence, extraction yields exactly the
/// documentation annotations, in input order, each contributing its literal
/// text as one line — no more, no fewer.
pub proof fn lemma_doc_lines_are_filtered_docs(s: Seq<AnnotationV>)
    requires
        anns_wf(s),
    ensures
        doc_lines(s) == docs_filtered(s),
    decreases s.len(),
{
    reveal(Seq::filter);
    if s.len() == 0 {
        assert(doc_lines(s) =~= docs_filtered(s));
    } else {
        let init = s.drop_last();
        assert(anns_wf(init)) by {
            assert(forall|i: int| 0 <= i < init.len() ==> init[i] == s[i]);
        }
        lemma_doc_lines_are_filtered_docs(init);
        assert(ann_wf(s.last()));
        if s.last().kind is Documentation {
            assert(docs_filtered(s) =~= docs_filtered(init).push(ann_text(s.last())));
        } else {
            assert(docs_filtered(s) =~= docs_filtered(init));
        }
    }
}

/// Law: a well-formed annotation sequence with n documentation annotations
/// yields exactly n documentation lines.
pub proof fn lemma_doc_line_count(s: Seq<AnnotationV>)
    requires
        anns_wf(s),
    ensures
        doc_lines(s).len() == s.filter(|a: AnnotationV| is_doc(a)).len(),
{
    lemma_doc_lines_are_filtered_docs(s);
}

/// Scan an annotation list and collect the text of every documentation
/// annotation, verbatim, in input order. Succeeds exactly when every
/// documentation annotation carries literal text; a zero-line result is
/// valid. Other annotation kinds are ignored.
pub fn extract_docs(annotations: &Vec<Annotation>) -> (r: Result<Vec<String>, GenerationErrorKind>)
    ensures
        r is Ok <==> anns_wf(annotations.deep_view()),
        r matches Ok(lines) ==> lines.deep_view() == doc_lines(annotations.deep_view()),
        r is Err ==> r->Err_0 is MalformedAnnotation,
{
    let ghost dv = annotations.deep_view();
    let mut lines: Vec<String> = Vec::new();
    let mut i: usize = 0;
    while i < annotations.len()
        invariant
            i <= annotations.len(),
            dv == annotations.deep_view(),
            dv.len() == annotations.len(),
            lines.deep_view() == doc_lines(dv.take(i as int)),
            forall|j: int| 0 <= j < i ==> ann_wf(#[trigger] dv[j]),
        decreases annotations.len() - i,
    {
        let a = &annotations[i];
        let ghost prev = lines.deep_view();
        match a.kind {
            AnnotationKind::Documentation => {
                match &a.value {
                    AnnotationValue::Literal(t) => {
                        lines.push(t.clone());
                        proof {
                            assert(lines.deep_view() =~= prev.push(t@));
                        }
                    },
                    AnnotationValue::Structured => {
                        proof {
                            assert(!ann_wf(dv[i as int]));
                        }
                        return Err(GenerationErrorKind::MalformedAnnotation);
                    },
                }
            },
            AnnotationKind::Other => {},
        }
        proof {
            assert(dv.take(i + 1).drop_last() =~= dv.take(i as int));
            assert(dv.take(i + 1).last() == dv[i as int]);
        }
        i = i + 1;
    }
    proof {
        assert(dv.take(annotations.len() as int) =~= dv);
    }
    Ok(lines)
}

} // verus!
