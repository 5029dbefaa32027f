//! The input data model: one record declaration as handed over by the
//! front-end, together with its mathematical view.

use vstd::prelude::*;

verus! {

/// Category of an annotation: documentation text or anything else.
#[derive(Clone, Copy, PartialEq, Eq, Structural, Debug)]
pub enum AnnotationKind {
    Documentation,
    Other,
}

/// Payload of an annotation: literal text, or an opaque structured value
/// (nested annotation syntax, lists, ...) that carries no text.
#[derive(Clone, Debug)]
pub enum AnnotationValue {
    Literal(String),
    Structured,
}

/// One annotation attached to a declaration or to a field.
#[derive(Clone, Debug)]
pub struct Annotation {
    pub kind: AnnotationKind,
    pub value: AnnotationValue,
}

/// One named member of a product record.
#[derive(Clone, Debug)]
pub struct Field {
    pub name: String,
    pub declared_type: String,
    pub annotations: Vec<Annotation>,
}

/// The shape of a declaration's field list. Unit records and records with
/// positional (unnamed) fields are both `Positional`: they get a degraded,
/// field-silent routine rather than an error.
#[derive(Clone, Debug)]
pub enum FieldList {
    Named(Vec<Field>),
    Positional,
}

/// The kind of a declaration. Only product records are supported; every
/// other kind (sum types, unions, opaque declarations) is rejected.
#[derive(Clone, Copy, PartialEq, Eq, Structural, Debug)]
pub enum DeclKind {
    ProductRecord,
    Other,
}

/// The structural description of one record type, fully parsed by the
/// front-end and read-only to the generator.
#[derive(Clone, Debug)]
pub struct Declaration {
    pub name: String,
    /// Textual generic parameters with their bounds, propagated unchanged
    /// into the synthesized routine.
    pub generics: Vec<String>,
    pub kind: DeclKind,
    pub annotations: Vec<Annotation>,
    pub fields: FieldList,
}

/// Mathematical view of an annotation value.
pub enum AnnotationValueV {
    Literal(Seq<char>),
    Structured,
}

/// Mathematical view of an annotation.
pub struct AnnotationV {
    pub kind: AnnotationKind,
    pub value: AnnotationValueV,
}

/// Mathematical view of a field.
pub struct FieldV {
    pub name: Seq<char>,
    pub declared_type: Seq<char>,
    pub annotations: Seq<AnnotationV>,
}

/// Mathematical view of a field list.
pub enum FieldListV {
    Named(Seq<FieldV>),
    Positional,
}

/// Mathematical view of a declaration.
pub struct DeclarationV {
    pub name: Seq<char>,
    pub generics: Seq<Seq<char>>,
    pub kind: DeclKind,
    pub annotations: Seq<AnnotationV>,
    pub fields: FieldListV,
}

impl View for Annotation {
    type V = AnnotationV;

    open spec fn view(&self) -> AnnotationV {
        AnnotationV {
            kind: self.kind,
            value: match self.value {
                AnnotationValue::Literal(s) => AnnotationValueV::Literal(s@),
                AnnotationValue::Structured => AnnotationValueV::Structured,
            },
        }
    }
}

impl DeepView for Annotation {
    type V = AnnotationV;

    open spec fn deep_view(&self) -> AnnotationV {
        self.view()
    }
}

impl View for Field {
    type V = FieldV;

    open spec fn view(&self) -> FieldV {
        FieldV {
            name: self.name@,
            declared_type: self.declared_type@,
            annotations: self.annotations.deep_view(),
        }
    }
}

impl DeepView for Field {
    type V = FieldV;

    open spec fn deep_view(&self) -> FieldV {
        self.view()
    }
}

impl View for FieldList {
    type V = FieldListV;

    open spec fn view(&self) -> FieldListV {
        match self {
            FieldList::Named(fields) => FieldListV::Named(fields.deep_view()),
            FieldList::Positional => FieldListV::Positional,
        }
    }
}

impl View for Declaration {
    type V = DeclarationV;

    open spec fn view(&self) -> DeclarationV {
        DeclarationV {
            name: self.name@,
            generics: self.generics.deep_view(),
            kind: self.kind,
            annotations: self.annotations.deep_view(),
            fields: self.fields@,
        }
    }
}

/// A single annotation is well formed when, if it claims to be
/// documentation, it indeed carries literal text.
pub open spec fn ann_wf(a: AnnotationV) -> bool {
    a.kind is Documentation ==> a.value is Literal
}

/// Every documentation annotation of the sequence carries literal text.
pub open spec fn anns_wf(s: Seq<AnnotationV>) -> bool {
    forall|i: int| 0 <= i < s.len() ==> ann_wf(#[trigger] s[i])
}

/// All annotation lists of the declaration — its own and each named
/// field's — are well formed.
pub open spec fn decl_wf(d: DeclarationV) -> bool {
    &&& anns_wf(d.annotations)
    &&& (d.fields matches FieldListV::Named(fields) ==> forall|i: int|
        0 <= i < fields.len() ==> anns_wf(#[trigger] fields[i].annotations))
}

} // verus!
