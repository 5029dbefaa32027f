//! Laws of the generator that relate several components: what the
//! synthesized steps contain and what their rendered report looks like.

use vstd::prelude::*;
use crate::decl::{decl_wf, AnnotationV, DeclarationV, FieldListV, FieldV};
use crate::extract::doc_lines;
use crate::render::{rendered_routine, rendered_step, rendered_steps};
use crate::synth::{field_block_step, field_steps, header_step, owner_doc_steps, spec_steps,
    spec_synthesize, StepV};

verus! {

/// Whether a step is one field's documentation block.
pub open spec fn is_field_block(s: StepV) -> bool {
    s is FieldDocBlock
}

proof fn lemma_doc_lines_no_docs(s: Seq<AnnotationV>)
    requires
        forall|i: int| 0 <= i < s.len() ==> !((#[trigger] s[i]).kind is Documentation),
    ensures
        doc_lines(s) == Seq::<Seq<char>>::empty(),
    decreases s.len(),
{
    if s.len() > 0 {
        let init = s.drop_last();
        assert(forall|i: int| 0 <= i < init.len() ==> init[i] == s[i]);
        lemma_doc_lines_no_docs(init);
    }
}

proof fn lemma_filter_none<A>(s: Seq<A>, pred: spec_fn(A) -> bool)
    requires
        forall|i: int| 0 <= i < s.len() ==> !pred(#[trigger] s[i]),
    ensures
        s.filter(pred) == Seq::<A>::empty(),
    decreases s.len(),
{
    reveal(Seq::filter);
    if s.len() > 0 {
        let init = s.drop_last();
        assert(forall|i: int| 0 <= i < init.len() ==> init[i] == s[i]);
        lemma_filter_none(init, pred);
    }
}

proof fn lemma_filter_all<A>(s: Seq<A>, pred: spec_fn(A) -> bool)
    requires
        forall|i: int| 0 <= i < s.len() ==> pred(#[trigger] s[i]),
    ensures
        s.filter(pred) == s,
    decreases s.len(),
{
    reveal(Seq::filter);
    if s.len() == 0 {
        assert(s.filter(pred) =~= s);
    } else {
        let init = s.drop_last();
        assert(forall|i: int| 0 <= i < init.len() ==> init[i] == s[i]);
        lemma_filter_all(init, pred);
        assert(init.push(s.last()) =~= s);
    }
}

/// Law: a product record with no named fields and no documentation
/// annotations — whether its field list is empty or positional — renders as
/// exactly its header line followed by the one mandatory blank line.
pub proof fn lemma_empty_record_output(d: DeclarationV)
    requires
        d.kind is ProductRecord,
        forall|i: int| 0 <= i < d.annotations.len() ==> !((#[trigger] d.annotations[i]).kind
            is Documentation),
        d.fields == FieldListV::Named(Seq::<FieldV>::empty()) || d.fields is Positional,
    ensures
        rendered_routine(spec_synthesize(d)) == "### "@ + d.name + "\n\n"@,
{
    lemma_doc_lines_no_docs(d.annotations);
    let hdr = header_step(d.name);
    let blank = StepV::LiteralLine(Seq::<char>::empty());
    let s1 = seq![hdr];
    let s2 = seq![hdr, blank];
    reveal_with_fuel(rendered_steps, 3);
    assert(owner_doc_steps(doc_lines(d.annotations)) =~= seq![blank]);
    assert(s1.drop_last() =~= Seq::<StepV>::empty());
    assert(s2.drop_last() =~= s1);
    assert(rendered_steps(s1) =~= rendered_step(hdr));
    assert(rendered_steps(s2) == rendered_steps(s1) + rendered_step(blank));
    reveal_strlit("\n");
    reveal_strlit("\n\n");
    assert(rendered_steps(s2) =~= "### "@ + d.name + "\n\n"@);
    if d.fields == FieldListV::Named(Seq::<FieldV>::empty()) {
        assert(field_steps(d.fields) =~= Seq::<StepV>::empty());
        assert(spec_steps(d) =~= s2);
    } else {
        let s3 = seq![hdr, blank, StepV::Passthrough];
        assert(spec_steps(d) =~= s3);
        assert(s3.drop_last() =~= s2);
        assert(rendered_steps(s3) =~= rendered_steps(s2));
    }
}

/// Law: the synthesized steps contain exactly one field block per named
/// field, in declaration order, each carrying that field's name, declared
/// type and documentation lines; a positional field list contributes no
/// field block at all.
pub proof fn lemma_field_blocks_match_fields(d: DeclarationV)
    ensures
        d.fields matches FieldListV::Named(fs) ==> spec_steps(d).filter(
            |s: StepV| is_field_block(s),
        ) == fs.map_values(|f: FieldV| field_block_step(f)),
        d.fields is Positional ==> spec_steps(d).filter(|s: StepV| is_field_block(s))
            == Seq::<StepV>::empty(),
{
    let pred = |s: StepV| is_field_block(s);
    let head = seq![header_step(d.name)] + owner_doc_steps(doc_lines(d.annotations));
    let tail = field_steps(d.fields);
    assert(spec_steps(d) == head + tail);
    assert forall|i: int| 0 <= i < head.len() implies !pred(#[trigger] head[i]) by {
        let lines = doc_lines(d.annotations);
        if i >= 1 {
            assert(head[i] == owner_doc_steps(lines)[i - 1]);
            if i - 1 < lines.len() {
                assert(owner_doc_steps(lines)[i - 1] == StepV::LiteralLine("# "@ + lines[i - 1]));
            }
        }
    }
    lemma_filter_none(head, pred);
    Seq::filter_distributes_over_add(head, tail, pred);
    match d.fields {
        FieldListV::Named(fs) => {
            assert(tail == fs.map_values(|f: FieldV| field_block_step(f)));
            assert(forall|i: int| 0 <= i < tail.len() ==> pred(#[trigger] tail[i]));
            lemma_filter_all(tail, pred);
            assert(spec_steps(d).filter(pred) =~= tail);
        },
        FieldListV::Positional => {
            assert(forall|i: int| 0 <= i < tail.len() ==> !pred(#[trigger] tail[i]));
            lemma_filter_none(tail, pred);
            assert(spec_steps(d).filter(pred) =~= Seq::<StepV>::empty());
        },
    }
}

/// A copy of a declaration in which one named field's declared type is
/// replaced, everything else unchanged.
pub open spec fn with_field_type(d: DeclarationV, i: int, ty: Seq<char>) -> DeclarationV
    recommends
        d.fields is Named,
        0 <= i < d.fields->Named_0.len(),
{
    let fs = d.fields->Named_0;
    DeclarationV {
        name: d.name,
        generics: d.generics,
        kind: d.kind,
        annotations: d.annotations,
        fields: FieldListV::Named(
            fs.update(
                i,
                FieldV { name: fs[i].name, declared_type: ty, annotations: fs[i].annotations },
            ),
        ),
    }
}

/// Law: whether synthesis succeeds never depends on a field's declared
/// type. A field typed outside the dispatch allowlist can therefore fail
/// only at the consuming build step, where the routine is compiled — never
/// during synthesis.
pub proof fn lemma_success_ignores_declared_types(d: DeclarationV, i: int, ty: Seq<char>)
    requires
        d.fields is Named,
        0 <= i < d.fields->Named_0.len(),
    ensures
        (d.kind is ProductRecord && decl_wf(d)) <==> (with_field_type(d, i, ty).kind
            is ProductRecord && decl_wf(with_field_type(d, i, ty))),
{
    let d2 = with_field_type(d, i, ty);
    let fs = d.fields->Named_0;
    let fs2 = d2.fields->Named_0;
    assert(fs2.len() == fs.len());
    assert forall|k: int| 0 <= k < fs.len() implies (#[trigger] fs2[k]).annotations
        == fs[k].annotations by {
        if k != i {
            assert(fs2[k] == fs[k]);
        }
    }
    if decl_wf(d) {
        assert forall|k: int| 0 <= k < fs2.len() implies crate::decl::anns_wf(
            #[trigger] fs2[k].annotations,
        ) by {
            assert(crate::decl::anns_wf(fs[k].annotations));
        }
    }
    if decl_wf(d2) {
        assert forall|k: int| 0 <= k < fs.len() implies crate::decl::anns_wf(
            #[trigger] fs[k].annotations,
        ) by {
            assert(crate::decl::anns_wf(fs2[k].annotations));
        }
    }
}

} // verus!
