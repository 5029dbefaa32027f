//! The report synthesizer: validates a declaration's kind and assembles the
//! ordered emission steps of its text-rendering routine.

use vstd::prelude::*;
use vstd::string::StringExecFns;
use crate::decl::{anns_wf, decl_wf, DeclKind, Declaration, DeclarationV, FieldList,
    FieldListV, FieldV};
use crate::errors::{GenerationError, GenerationErrorKind};
use crate::extract::{doc_lines, extract_docs};

verus! {

/// One emission step of a rendering routine.
#[derive(Clone, Debug)]
pub enum Step {
    /// Write this text followed by a line break; empty text is a blank line.
    LiteralLine(String),
    /// Write one field's block: its name line, its type line, the `desc`
    /// marker line, its documentation lines, and a closing blank line.
    FieldDocBlock { name: String, declared_type: String, docs: Vec<String> },
    /// Write nothing: the degraded mode for unit and positional records.
    Passthrough,
}

/// Mathematical view of an emission step.
pub enum StepV {
    LiteralLine(Seq<char>),
    FieldDocBlock { name: Seq<char>, declared_type: Seq<char>, docs: Seq<Seq<char>> },
    Passthrough,
}

impl View for Step {
    type V = StepV;

    open spec fn view(&self) -> StepV {
        match self {
            Step::LiteralLine(text) => StepV::LiteralLine(text@),
            Step::FieldDocBlock { name, declared_type, docs } => StepV::FieldDocBlock {
                name: name@,
                declared_type: declared_type@,
                docs: docs.deep_view(),
            },
            Step::Passthrough => StepV::Passthrough,
        }
    }
}

impl DeepView for Step {
    type V = StepV;

    open spec fn deep_view(&self) -> StepV {
        self.view()
    }
}

/// The synthesized artifact: the emission steps, scoped to the declaration's
/// name and generic parameters so the routine applies to every instantiation
/// of those generics.
#[derive(Clone, Debug)]
pub struct RenderingRoutine {
    pub name: String,
    pub generics: Vec<String>,
    pub steps: Vec<Step>,
}

/// Mathematical view of a rendering routine.
pub struct RoutineV {
    pub name: Seq<char>,
    pub generics: Seq<Seq<char>>,
    pub steps: Seq<StepV>,
}

impl View for RenderingRoutine {
    type V = RoutineV;

    open spec fn view(&self) -> RoutineV {
        RoutineV { name: self.name@, generics: self.generics.deep_view(), steps: self.steps.deep_view() }
    }
}

/// The header step: one literal line naming the declaration.
pub open spec fn header_step(name: Seq<char>) -> StepV {
    StepV::LiteralLine("### "@ + name)
}

/// One documentation line, formatted with the fixed prefix marker.
pub open spec fn line_step(line: Seq<char>) -> StepV {
    StepV::LiteralLine("# "@ + line)
}

/// The steps emitted for one owner's documentation: one formatted literal
/// line per documentation line, closed by one unconditional blank line.
pub open spec fn owner_doc_steps(lines: Seq<Seq<char>>) -> Seq<StepV> {
    lines.map_values(|l: Seq<char>| line_step(l)).push(StepV::LiteralLine(Seq::empty()))
}

/// The block step emitted for one named field.
pub open spec fn field_block_step(f: FieldV) -> StepV {
    StepV::FieldDocBlock {
        name: f.name,
        declared_type: f.declared_type,
        docs: doc_lines(f.annotations),
    }
}

/// The steps emitted for the field list: one block per named field in
/// declaration order, or a single silent step for positional records.
pub open spec fn field_steps(fields: FieldListV) -> Seq<StepV> {
    match fields {
        FieldListV::Named(fs) => fs.map_values(|f: FieldV| field_block_step(f)),
        FieldListV::Positional => seq![StepV::Passthrough],
    }
}

/// Every emission step of a declaration's routine: header, declaration
/// documentation, then the field blocks.
pub open spec fn spec_steps(d: DeclarationV) -> Seq<StepV> {
    seq![header_step(d.name)] + owner_doc_steps(doc_lines(d.annotations)) + field_steps(d.fields)
}

/// The routine synthesized for a well-formed product-record declaration.
pub open spec fn spec_synthesize(d: DeclarationV) -> RoutineV {
    RoutineV { name: d.name, generics: d.generics, steps: spec_steps(d) }
}

/// Clone a list of strings, keeping its view.
fn clone_strings(v: &Vec<String>) -> (r: Vec<String>)
    ensures
        r.deep_view() == v.deep_view(),
{
    let mut r: Vec<String> = Vec::new();
    let mut i: usize = 0;
    while i < v.len()
        invariant
            i <= v.len(),
            r.deep_view().len() == i,
            forall|j: int| 0 <= j < i ==> r.deep_view()[j] == v.deep_view()[j],
        decreases v.len() - i,
    {
        r.push(v[i].clone());
        i = i + 1;
    }
    proof {
        assert(r.deep_view() =~= v.deep_view());
    }
    r
}

/// Synthesize the rendering routine of one declaration.
///
/// Succeeds exactly when the declaration is a product record and every
/// documentation annotation — on the declaration and on each named field —
/// carries literal text. On success the routine is determined by the
/// declaration alone: re-running synthesis on an unchanged declaration
/// yields an identical routine. On failure nothing is emitted: a
/// non-product-record kind yields `UnsupportedKind`, a documentation
/// annotation without literal text yields `MalformedAnnotation`, and either
/// diagnostic names the offending declaration.
pub fn synthesize(decl: &Declaration) -> (r: Result<RenderingRoutine, GenerationError>)
    ensures
        r is Ok <==> (decl.kind is ProductRecord && decl_wf(decl@)),
        r matches Ok(routine) ==> routine@ == spec_synthesize(decl@),
        r matches Err(e) ==> e.declaration@ == decl.name@,
        decl.kind is Other ==> (r matches Err(e) && e.kind is UnsupportedKind),
        decl.kind is ProductRecord && !decl_wf(decl@) ==> (r matches Err(e)
            && e.kind is MalformedAnnotation),
{
    match decl.kind {
        DeclKind::ProductRecord => {},
        DeclKind::Other => {
            return Err(
                GenerationError {
                    kind: GenerationErrorKind::UnsupportedKind,
                    declaration: decl.name.clone(),
                },
            );
        },
    }

    let mut steps: Vec<Step> = Vec::new();
    let mut header = String::from_str("### ");
    header.append(decl.name.as_str());
    steps.push(Step::LiteralLine(header));

    let decl_docs = match extract_docs(&decl.annotations) {
        Ok(lines) => lines,
        Err(kind) => {
            return Err(GenerationError { kind, declaration: decl.name.clone() });
        },
    };

    let ghost docs_v = doc_lines(decl.annotations.deep_view());
    let mut j: usize = 0;
    while j < decl_docs.len()
        invariant
            j <= decl_docs.len(),
            decl_docs.deep_view() == docs_v,
            decl_docs.deep_view().len() == decl_docs.len(),
            steps.deep_view().len() == 1 + j,
            steps.deep_view()[0] == header_step(decl.name@),
            forall|k: int| 0 <= k < j ==> steps.deep_view()[1 + k] == line_step(docs_v[k]),
        decreases decl_docs.len() - j,
    {
        let mut line = String::from_str("# ");
        line.append(decl_docs[j].as_str());
        steps.push(Step::LiteralLine(line));
        j = j + 1;
    }
    steps.push(Step::LiteralLine(String::new()));

    let ghost n_docs = docs_v.len() as int;
    match &decl.fields {
        FieldList::Named(fields) => {
            let ghost fs_v = fields.deep_view();
            let mut i: usize = 0;
            while i < fields.len()
                invariant
                    i <= fields.len(),
                    decl.kind is ProductRecord,
                    decl@.fields == FieldListV::Named(fs_v),
                    fields.deep_view() == fs_v,
                    fs_v.len() == fields.len(),
                    docs_v == doc_lines(decl.annotations.deep_view()),
                    steps.deep_view().len() == 2 + n_docs + i,
                    n_docs == docs_v.len(),
                    steps.deep_view()[0] == header_step(decl.name@),
                    forall|k: int| 0 <= k < n_docs ==> steps.deep_view()[1 + k] == line_step(
                        docs_v[k],
                    ),
                    steps.deep_view()[1 + n_docs] == StepV::LiteralLine(Seq::<char>::empty()),
                    forall|k: int| 0 <= k < i ==> steps.deep_view()[2 + n_docs + k]
                        == field_block_step(fs_v[k]),
                    forall|k: int| 0 <= k < i ==> anns_wf(#[trigger] fs_v[k].annotations),
                decreases fields.len() - i,
            {
                let field = &fields[i];
                let field_docs = match extract_docs(&field.annotations) {
                    Ok(lines) => lines,
                    Err(kind) => {
                        proof {
                            assert(!decl_wf(decl@)) by {
                                let fs = decl@.fields->Named_0;
                                assert(fs == fs_v);
                                assert(!anns_wf(fs[i as int].annotations));
                            }
                        }
                        return Err(GenerationError { kind, declaration: decl.name.clone() });
                    },
                };
                steps.push(
                    Step::FieldDocBlock {
                        name: field.name.clone(),
                        declared_type: field.declared_type.clone(),
                        docs: field_docs,
                    },
                );
                i = i + 1;
            }
            proof {
                assert(steps.deep_view() =~= spec_steps(decl@));
            }
        },
        FieldList::Positional => {
            steps.push(Step::Passthrough);
            proof {
                assert(steps.deep_view() =~= spec_steps(decl@));
            }
        },
    }

    Ok(RenderingRoutine {
        name: decl.name.clone(),
        generics: clone_strings(&decl.generics),
        steps,
    })
}

} // verus!
